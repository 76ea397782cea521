use resize_slice::{OutOfBounds, SliceExt};

#[test]
fn copy_from_clamps_to_shorter_source() {
    let mut dst = [0u8, 0, 0, 0, 0];
    let d: &mut [u8] = &mut dst;
    let n = d.copy_from(&[7, 8]);
    assert_eq!(n, 2);
    assert_eq!(dst, [7, 8, 0, 0, 0]);
}

#[test]
fn copy_from_clamps_to_shorter_destination() {
    let mut dst = [1u8, 2];
    let d: &mut [u8] = &mut dst;
    let n = d.copy_from(&[9, 9, 9, 9]);
    assert_eq!(n, 2);
    assert_eq!(dst, [9, 9]);
}

#[test]
fn copy_from_equal_lengths() {
    let mut dst = [0i32; 3];
    let d: &mut [i32] = &mut dst;
    let n = d.copy_from(&[4, 5, 6]);
    assert_eq!(n, 3);
    assert_eq!(dst, [4, 5, 6]);
}

#[test]
fn copy_from_empty_source_copies_nothing() {
    let mut dst = [3u8, 4];
    let d: &mut [u8] = &mut dst;
    let n = d.copy_from(&[]);
    assert_eq!(n, 0);
    assert_eq!(dst, [3, 4]);
}

#[test]
fn copy_inner_overlapping_shift_right() {
    let mut buf = [1u8, 2, 3, 4, 5];
    let b: &mut [u8] = &mut buf;
    b.copy_inner(0, 1, 3).unwrap();
    assert_eq!(buf, [1, 1, 2, 3, 5]);
}

#[test]
fn copy_inner_overlapping_shift_left() {
    let mut buf = [1u8, 2, 3, 4, 5];
    let b: &mut [u8] = &mut buf;
    b.copy_inner(1, 0, 3).unwrap();
    assert_eq!(buf, [2, 3, 4, 4, 5]);
}

#[test]
fn copy_inner_disjoint_ranges() {
    let mut buf = [1u8, 2, 3, 4, 5, 6];
    let b: &mut [u8] = &mut buf;
    b.copy_inner(0, 4, 2).unwrap();
    assert_eq!(buf, [1, 2, 3, 4, 1, 2]);
}

#[test]
fn copy_inner_out_of_range_errors() {
    let mut buf = [1u8, 2, 3, 4, 5];
    let b: &mut [u8] = &mut buf;
    assert_eq!(b.copy_inner(3, 0, 3), Err(OutOfBounds));
    assert_eq!(b.copy_inner(0, 3, 3), Err(OutOfBounds));
    assert_eq!(b.copy_inner(0, 0, 6), Err(OutOfBounds));
    assert_eq!(buf, [1, 2, 3, 4, 5]);
}

#[test]
fn copy_inner_zero_length_is_legal() {
    let mut buf = [1u8, 2, 3];
    let b: &mut [u8] = &mut buf;
    b.copy_inner(3, 3, 0).unwrap();
    assert_eq!(buf, [1, 2, 3]);
}
