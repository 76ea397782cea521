use resize_slice::{OutOfBounds, ResizeSlice, SliceMut, SliceRef};

#[test]
fn resize() {
    let mut data = [1, 2, 3];
    let mut s = SliceMut::new(&mut data);
    assert_eq!(s.len(), 3);

    s.resize_from(1).unwrap();
    assert_eq!(s.len(), 2);

    s.resize_to(1).unwrap();
    assert_eq!(s.len(), 1);
    assert_eq!(*s.get(0), 2);

    s.resize(1, 1).unwrap();
    assert_eq!(s.len(), 0);
}

#[test]
#[should_panic]
fn resize_fail() {
    let mut data = [1, 2, 3];
    let mut s = SliceMut::new(&mut data);
    s.resize_to(4).unwrap();
}

#[test]
fn resize_shifts_elements() {
    let data = [10, 20, 30, 40, 50];
    let mut v = SliceRef::new(&data);
    v.resize(1, 4).unwrap();
    assert_eq!(v.len(), 3);
    assert_eq!(v.as_slice(), &[20, 30, 40]);
}

#[test]
fn resize_from_matches_resize() {
    let data = [7, 8, 9, 10];
    let mut a = SliceRef::new(&data);
    let mut b = SliceRef::new(&data);
    a.resize_from(2).unwrap();
    b.resize(2, 4).unwrap();
    assert_eq!(a.as_slice(), b.as_slice());
    assert_eq!(a.as_slice(), &[9, 10]);

    let mut c = SliceRef::new(&data);
    let mut d = SliceRef::new(&data);
    assert_eq!(c.resize_from(5), Err(OutOfBounds));
    assert_eq!(d.resize(5, 4), Err(OutOfBounds));
}

#[test]
fn resize_to_matches_resize() {
    let data = [7, 8, 9, 10];
    let mut a = SliceRef::new(&data);
    let mut b = SliceRef::new(&data);
    a.resize_to(3).unwrap();
    b.resize(0, 3).unwrap();
    assert_eq!(a.as_slice(), b.as_slice());
    assert_eq!(a.as_slice(), &[7, 8, 9]);

    let mut c = SliceRef::new(&data);
    let mut d = SliceRef::new(&data);
    assert_eq!(c.resize_to(5), Err(OutOfBounds));
    assert_eq!(d.resize(0, 5), Err(OutOfBounds));
}

#[test]
fn out_of_range_leaves_view_unchanged() {
    let mut data = [1, 2, 3];
    {
        let mut s = SliceMut::new(&mut data);
        assert_eq!(s.resize(2, 1), Err(OutOfBounds));
        assert_eq!(s.resize(0, 4), Err(OutOfBounds));
        assert_eq!(s.resize_from(4), Err(OutOfBounds));
        assert_eq!(s.resize_to(4), Err(OutOfBounds));
        assert_eq!(s.len(), 3);
    }
    assert_eq!(data, [1, 2, 3]);

    let mut r = SliceRef::new(&data);
    assert_eq!(r.resize(3, 2), Err(OutOfBounds));
    assert_eq!(r.as_slice(), &[1, 2, 3]);
}

#[test]
fn empty_narrowing_is_legal() {
    let data = [4, 5, 6];
    let mut v = SliceRef::new(&data);
    v.resize(2, 2).unwrap();
    assert_eq!(v.len(), 0);

    let empty: [i32; 0] = [];
    let mut e = SliceRef::new(&empty);
    e.resize(0, 0).unwrap();
    assert_eq!(e.len(), 0);
}

#[test]
fn narrow_then_narrow_again() {
    let mut data = [1, 2, 3, 4, 5];
    let mut s = SliceMut::new(&mut data);
    s.resize_from(2).unwrap();
    assert_eq!(s.len(), 3);
    assert_eq!(*s.get(0), 3);
    assert_eq!(*s.get(1), 4);
    assert_eq!(*s.get(2), 5);
    s.resize_to(1).unwrap();
    assert_eq!(s.len(), 1);
    assert_eq!(*s.get(0), 3);
}

#[test]
fn resize_to_past_end_errors() {
    let data = [1, 2, 3];
    let mut v = SliceRef::new(&data);
    assert_eq!(v.resize_to(4), Err(OutOfBounds));
    assert_eq!(v.as_slice(), &[1, 2, 3]);
}

#[test]
fn mutable_view_writes_through() {
    let mut data = [1, 2, 3, 4];
    {
        let mut s = SliceMut::new(&mut data);
        s.resize_from(1).unwrap();
        s.set(0, 20);
        s.set(2, 40);
    }
    assert_eq!(data, [1, 20, 3, 40]);
}
