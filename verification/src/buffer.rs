//! The byte buffer and its two operations.

use vstd::prelude::*;

verus! {

/// An owned, resizable sequence of bytes. Exactly one binding owns a given
/// `Blob` at any instant; mutation goes through an exclusive `&mut` reference
/// and the backing storage is released when the owner goes out of scope.
#[derive(Debug)]
pub struct Blob {
    pub data: Vec<u8>,
}

impl View for Blob {
    type V = Seq<u8>;

    open spec fn view(&self) -> Seq<u8> {
        self.data@
    }
}

/// The run of `n` bytes appended by growth: position `i` holds `i mod 256`.
pub open spec fn run(n: nat) -> Seq<u8> {
    Seq::new(n, |i: int| (i % 256) as u8)
}

/// The contents of a buffer after growth by `n`: the old contents, then the run.
pub open spec fn grown(s: Seq<u8>, n: nat) -> Seq<u8> {
    s + run(n)
}

/// A sequence of `n` copies of `v`.
pub open spec fn filled(n: nat, v: u8) -> Seq<u8> {
    Seq::new(n, |i: int| v)
}

impl Blob {
    /// The number of bytes the buffer holds.
    pub fn len(&self) -> (n: usize)
        ensures
            n == self@.len(),
    {
        self.data.len()
    }
}

/// Appends `n` bytes to `b` through an exclusive mutable reference; the byte
/// at appended position `i` is `i mod 256`. The old contents stay in place.
pub fn grow_in_place(b: &mut Blob, n: usize)
    ensures
        final(b)@ == grown(old(b)@, n as nat),
{
    let ghost s0: Seq<u8> = b@;
    let mut i: usize = 0;
    while i < n
        invariant
            i <= n,
            b@ == grown(s0, i as nat),
        decreases n - i,
    {
        let v: u8 = (i % 256) as u8;
        b.data.push(v);
        proof {
            assert(b@ =~= grown(s0, (i + 1) as nat));
        }
        i = i + 1;
    }
}

/// Allocates a buffer of length `n` filled with the byte 42 and returns
/// ownership of it to the caller; no other handle to the allocation escapes.
pub fn make_owner(n: usize) -> (r: Blob)
    ensures
        r@ == filled(n as nat, 42),
{
    let mut data: Vec<u8> = Vec::new();
    let mut i: usize = 0;
    while i < n
        invariant
            i <= n,
            data@ == filled(i as nat, 42),
        decreases n - i,
    {
        data.push(42);
        proof {
            assert(data@ =~= filled((i + 1) as nat, 42));
        }
        i = i + 1;
    }
    Blob { data }
}

/// The driver's computation: builds buffer `a` with initial contents
/// `[1, 2, 3]`, grows it in place by 100000 bytes, then builds buffer `b` of
/// one million bytes of 42 and moves it out to the caller. Both buffers are
/// returned so the caller owns them and releases them when it is done.
pub fn run_demo() -> (r: (Blob, Blob))
    ensures
        r.0@ == grown(seq![1u8, 2u8, 3u8], 100000),
        r.1@ == filled(1000000, 42),
        r.0@.len() == 100003,
        r.1@.len() == 1000000,
{
    let mut data: Vec<u8> = Vec::new();
    data.push(1);
    data.push(2);
    data.push(3);
    let mut a = Blob { data };
    proof {
        assert(a@ =~= seq![1u8, 2u8, 3u8]);
    }
    grow_in_place(&mut a, 100000);
    let b = make_owner(1000000);
    (a, b)
}

/// Growth appends exactly `n` bytes, keeps every old byte where it was, and
/// puts `i mod 256` at appended position `i`.
pub proof fn lemma_grown_shape(s: Seq<u8>, n: nat)
    ensures
        grown(s, n).len() == s.len() + n,
        forall|i: int| 0 <= i < s.len() ==> grown(s, n)[i] == s[i],
        forall|i: int| 0 <= i < n ==> #[trigger] grown(s, n)[s.len() + i] == (i % 256) as u8,
{
}

/// Growth by zero is a no-op: the contents are unchanged.
pub proof fn lemma_grow_zero_is_noop(s: Seq<u8>)
    ensures
        grown(s, 0) == s,
{
    assert(grown(s, 0) =~= s);
}

/// A filled sequence has exactly the requested length and holds `v` everywhere.
pub proof fn lemma_filled_shape(n: nat, v: u8)
    ensures
        filled(n, v).len() == n,
        forall|i: int| 0 <= i < n ==> filled(n, v)[i] == v,
{
}

} // verus!
