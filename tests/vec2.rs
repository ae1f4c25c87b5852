use vecnum::{Vec2, Vec2RangeIter};

#[test]
fn length_of_three_four() {
    let v = Vec2::new(3u32, 4u32);
    assert_eq!(v.sq_len(), 25);
    assert_eq!(v.ilen(), 5);
    assert_eq!((v.sq_len() as f64).sqrt(), 5.0);
}

#[test]
fn integer_length_rounds_down() {
    assert_eq!(Vec2::new(1i32, 1).ilen(), 1);
    assert_eq!(Vec2::new(-6i32, 8).ilen(), 10);
    assert_eq!(Vec2::new(2u8, 3).ilen(), 3);
}

#[test]
fn aliases_and_setters() {
    let mut v = Vec2::new(1, 2);
    assert_eq!((*v.w(), *v.h()), (1, 2));
    *v.w_mut() = 5;
    *v.h_mut() += 1;
    assert_eq!(v, Vec2::new(5, 3));
    v.set_w(7);
    v.set_h(8);
    assert_eq!(v, Vec2::new(7, 8));
}

#[test]
fn dot_product() {
    assert_eq!(Vec2::new(1i32, 2).dot(Vec2::new(3, -4)), -5);
    assert_eq!(Vec2::new(2u64, 3).dot(Vec2::new(4, 5)), 23);
}

#[test]
fn componentwise_arithmetic() {
    let a = Vec2::new(12i32, -7);
    let b = Vec2::new(5i32, 2);
    assert_eq!(a.cmul(b), Vec2::new(60, -14));
    assert_eq!(a.cdiv(b), Vec2::new(2, -3));
    assert_eq!(a.crem(b), Vec2::new(2, -1));
    let mut c = a;
    c.cmul_assign(b);
    assert_eq!(c, Vec2::new(60, -14));
    let mut d = a;
    d.cdiv_assign(b);
    assert_eq!(d, Vec2::new(2, -3));
    let mut e = a;
    e.crem_assign(b);
    assert_eq!(e, Vec2::new(2, -1));
    assert_eq!(a.cjoin(b, |p, q| p - q), Vec2::new(7, -9));
}

#[test]
fn vector_operators() {
    let a = Vec2::new(1u32, 2);
    let b = Vec2::new(10u32, 20);
    assert_eq!(a + b, Vec2::new(11, 22));
    assert_eq!(b - a, Vec2::new(9, 18));
    assert_eq!(b * 3, Vec2::new(30, 60));
    assert_eq!(b / 4, Vec2::new(2, 5));
    assert_eq!(b % 6, Vec2::new(4, 2));
    let t: Vec2<u8> = (1u8, 2u8).into();
    assert_eq!(t, Vec2::new(1, 2));
}

#[test]
fn reductions() {
    let v = Vec2::new(7i32, 3);
    assert_eq!(v.sum(), 10);
    assert_eq!(v.diff(), 4);
    assert_eq!(v.prod(), 21);
    assert_eq!(v.quot(), 2);
    assert_eq!(v.quot_rem(), 1);
    assert_eq!(v.abs_diff(), 4);
    assert_eq!(Vec2::new(3u8, 7).abs_diff(), 4);
    assert_eq!(Vec2::new(i8::MIN, -1).abs_diff(), 127);
}

#[test]
fn same_and_different() {
    assert!(Vec2::new(4, 4).same());
    assert!(!Vec2::new(4, 5).same());
    assert!(Vec2::new(4, 5).different());
    assert!(!Vec2::new(4, 4).different());
}

#[test]
fn max_and_min_prefer_first_on_ties() {
    let v = Vec2::new(3, 9);
    assert_eq!((v.max_idx(), *v.max()), (1, 9));
    assert_eq!((v.min_idx(), *v.min()), (0, 3));
    let t = Vec2::new(5, 5);
    assert_eq!(t.max_idx(), 0);
    assert_eq!(t.min_idx(), 0);
    let mut m = Vec2::new(3, 9);
    *m.max_mut() = 1;
    assert_eq!(m, Vec2::new(3, 1));
    *m.min_mut() = 0;
    assert_eq!(m, Vec2::new(3, 0));
}

#[test]
fn half_open_range_membership() {
    let r = Vec2::new(2, 5);
    assert!(!r.in_range(&1));
    assert!(r.in_range(&2));
    assert!(r.in_range(&4));
    assert!(!r.in_range(&5));
}

#[test]
fn mapping_and_predicates() {
    let v = Vec2::new(2, 5);
    assert_eq!(v.map(|a| a * 10), Vec2::new(20, 50));
    assert!(v.are_both(|a| *a > 1));
    assert!(!v.are_both(|a| *a > 2));
    assert!(v.is_any(|a| *a == 5));
    assert!(!v.is_any(|a| *a == 4));
    assert!(v.is_one(|a| *a > 3));
    assert!(!v.is_one(|a| *a > 0));
    assert!(v.is_none(|a| *a > 5));
    assert!(!v.is_none(|a| *a > 4));
    let c: Vec2<u32> = Vec2::new(2u8, 5u8).convert();
    assert_eq!(c, Vec2::new(2u32, 5u32));
}

#[test]
fn references() {
    let mut v = Vec2::new(1, 2);
    let r = v.as_ref();
    assert_eq!((*r.x, *r.y), (1, 2));
    assert_eq!(r.copied(), Vec2::new(1, 2));
    assert_eq!(v.as_ref().cloned(), Vec2::new(1, 2));
    let m = v.as_mut();
    *m.x = 10;
    *m.y = 20;
    assert_eq!(v, Vec2::new(10, 20));
}

#[test]
fn swapping_and_sorting() {
    let mut v = Vec2::new(1, 2);
    v.swap();
    assert_eq!(v, Vec2::new(2, 1));
    assert_eq!(v.swapped(), Vec2::new(1, 2));
    assert_eq!(v.yx(), Vec2::new(1, 2));
    assert_eq!(v.xy(), Vec2::new(2, 1));
    assert_eq!(v.sorted(), Vec2::new(1, 2));
    v.sort();
    assert_eq!(v, Vec2::new(1, 2));
    v.sort();
    assert_eq!(v, Vec2::new(1, 2));
}

#[test]
fn clamping_sorts_the_range_first() {
    let r = Vec2::new(10, 2);
    assert_eq!(*r.clamp(&0), 2);
    assert_eq!(*r.clamp(&5), 5);
    assert_eq!(*r.clamp(&11), 10);
    assert_eq!(r.clamped(0), 2);
    assert_eq!(r.clamped(7), 7);
    assert_eq!(r.clamped(100), 10);
}

#[test]
fn cast_and_scale_components() {
    let c: Vec2<u8> = Vec2::new(256u16, 513).cast();
    assert_eq!(c, Vec2::new(0, 1));
    let s: Vec2<u16> = Vec2::new(0u8, 255).scale();
    assert_eq!(s, Vec2::new(0, 65535));
    let t: Vec2<u8> = Vec2::new(0x1200u16, 0xff00).scale();
    assert_eq!(t, Vec2::new(0x12, 0xff));
}

#[test]
fn position_of_index_row_major() {
    let size = Vec2::new(3usize, 2);
    assert_eq!(size.pos_of_idx(0), Vec2::new(0, 0));
    assert_eq!(size.pos_of_idx(2), Vec2::new(2, 0));
    assert_eq!(size.pos_of_idx(4), Vec2::new(1, 1));
    assert_eq!(size.idx_of_pos(Vec2::new(1, 1)), 4);
}

#[test]
fn index_and_position_are_inverse() {
    for (w, h) in [(1usize, 1usize), (3, 2), (2, 3), (5, 7)] {
        let e = Vec2::new(w, h);
        for i in 0..w * h {
            assert_eq!(e.idx_of_pos(e.pos_of_idx(i)), i);
        }
    }
}

#[test]
fn size_contains_position() {
    let s = Vec2::new(3i32, 2);
    assert!(s.contains(Vec2::new(0, 0)));
    assert!(s.contains(Vec2::new(2, 1)));
    assert!(!s.contains(Vec2::new(3, 1)));
    assert!(!s.contains(Vec2::new(1, 2)));
    assert!(!s.contains(Vec2::new(-1, 0)));
}

#[test]
fn vector_change_range() {
    let v = Vec2::new(0u8, 255);
    assert_eq!(v.change_range(0, 255, 0, 100), Vec2::new(0, 100));
    assert_eq!(v.norm_to_range(10, 20), Vec2::new(10, 20));
    assert_eq!(Vec2::new(10u8, 20).to_norm_range(10, 20), Vec2::new(0, 255));
    assert_eq!(Vec2::new(-3i16, 9).change_range(-3, 9, -3, 9), Vec2::new(-3, 9));
}

#[test]
fn absolute_values() {
    assert_eq!(Vec2::new(-3i32, 4).cabs(), Vec2::new(3, 4));
    assert_eq!(Vec2::new(0i8, -127).cabs(), Vec2::new(0, 127));
    assert_eq!(Vec2::new(5u8, 0).cabs(), Vec2::new(5, 0));
}

#[test]
fn boolean_vectors() {
    let tt = Vec2::new(true, true);
    let tf = Vec2::new(true, false);
    let ff = Vec2::new(false, false);
    assert!(tt.both() && !tf.both() && !ff.both());
    assert!(tt.any() && tf.any() && !ff.any());
    assert!(!tt.one() && tf.one() && !ff.one());
    assert!(!tt.none() && !tf.none() && ff.none());
}

#[test]
fn range_iteration_order() {
    let mut it = Vec2::new(0usize, 0).to(Vec2::new(2, 3));
    let mut got = vec![];
    while let Some(p) = it.next() {
        got.push((p.x, p.y));
    }
    assert_eq!(got, vec![(0, 0), (1, 0), (0, 1), (1, 1), (0, 2), (1, 2)]);
    assert_eq!(it.next(), None);
}

#[test]
fn range_iteration_with_offset_start() {
    let mut it = Vec2RangeIter::new(Vec2::new(-1i32, 5), Vec2::new(1, 7));
    let mut got = vec![];
    while let Some(p) = it.next() {
        got.push((p.x, p.y));
    }
    assert_eq!(got, vec![(-1, 5), (0, 5), (-1, 6), (0, 6)]);
}

#[test]
fn degenerate_boxes_are_empty() {
    let p = Vec2::new(2usize, 3);
    assert_eq!(p.to(p).next(), None);
    assert_eq!(Vec2::new(0usize, 0).to(Vec2::new(0, 5)).next(), None);
    assert_eq!(Vec2::new(0usize, 0).to(Vec2::new(5, 0)).next(), None);
    assert_eq!(Vec2::new(4usize, 0).to(Vec2::new(1, 5)).next(), None);
    assert_eq!(Vec2::new(0usize, 4).to(Vec2::new(1, 1)).next(), None);
}

#[test]
fn range_contains_independent_of_cursor() {
    let mut it = Vec2::new(1u8, 1).to(Vec2::new(3, 3));
    assert!(it.contains(Vec2::new(1, 1)));
    assert!(it.contains(Vec2::new(2, 2)));
    assert!(!it.contains(Vec2::new(3, 2)));
    assert!(!it.contains(Vec2::new(0, 2)));
    while it.next().is_some() {}
    assert!(it.contains(Vec2::new(1, 1)));
}
