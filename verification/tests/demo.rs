use blob_buffer::buffer::{grow_in_place, make_owner, run_demo, Blob};
use blob_buffer::render::format_lengths;

#[test]
fn grow_appends_run_of_mod_256() {
    let mut a = Blob { data: vec![1, 2, 3] };
    grow_in_place(&mut a, 100_000);
    assert_eq!(a.data.len(), 100_003);
    assert_eq!(&a.data[..3], &[1, 2, 3]);
    for i in 0..100_000usize {
        assert_eq!(a.data[3 + i], (i % 256) as u8);
    }
}

#[test]
fn grow_by_zero_is_a_noop() {
    let mut a = Blob { data: vec![1, 2, 3] };
    grow_in_place(&mut a, 0);
    assert_eq!(a.data, vec![1, 2, 3]);
}

#[test]
fn grow_empty_buffer() {
    let mut a = Blob { data: vec![] };
    grow_in_place(&mut a, 600);
    assert_eq!(a.data.len(), 600);
    assert_eq!(a.data[0], 0);
    assert_eq!(a.data[255], 255);
    assert_eq!(a.data[256], 0);
    assert_eq!(a.data[511], 255);
    assert_eq!(a.data[512], 0);
}

#[test]
fn make_owner_fills_with_42() {
    let b = make_owner(1_000_000);
    assert_eq!(b.data.len(), 1_000_000);
    assert!(b.data.iter().all(|&x| x == 42));
}

#[test]
fn make_owner_zero_is_empty() {
    let b = make_owner(0);
    assert_eq!(b.data.len(), 0);
}

#[test]
fn driver_lengths_and_contents() {
    let (a, b) = run_demo();
    assert_eq!(a.len(), 100_003);
    assert_eq!(b.len(), 1_000_000);
    assert_eq!(&a.data[..3], &[1, 2, 3]);
    assert_eq!(a.data[3], 0);
    assert_eq!(a.data[100_002], ((100_000 - 1) % 256) as u8);
    assert_eq!(b.data[999_999], 42);
}

#[test]
fn driver_line_matches_exactly() {
    let (a, b) = run_demo();
    let line = format_lengths(a.len(), b.len());
    assert_eq!(line, b"a.len=100003  b.len=1000000".to_vec());
}

#[test]
fn format_small_lengths() {
    assert_eq!(format_lengths(0, 9), b"a.len=0  b.len=9".to_vec());
    assert_eq!(format_lengths(10, 100_003), b"a.len=10  b.len=100003".to_vec());
}

#[test]
fn format_largest_length() {
    let line = format_lengths(usize::MAX, 1);
    let expected = format!("a.len={}  b.len=1", usize::MAX);
    assert_eq!(line, expected.into_bytes());
}
