use vecnum::{Vec2, Vec3, Vec3RangeIter};

#[test]
fn cross_of_unit_axes() {
    let x = Vec3::new(1i32, 0, 0);
    let y = Vec3::new(0i32, 1, 0);
    assert_eq!(x.cross(y), Vec3::new(0, 0, 1));
    assert_eq!(y.cross(x), Vec3::new(0, 0, -1));
    assert_eq!(Vec3::new(1i64, 2, 3).cross(Vec3::new(4, 5, 6)), Vec3::new(-3, 6, -3));
}

#[test]
fn dot_of_unit_axis() {
    let x = Vec3::new(1i32, 0, 0);
    assert_eq!(x.dot(x), 1);
    assert_eq!(Vec3::new(1u32, 2, 3).dot(Vec3::new(4, 5, 6)), 32);
}

#[test]
fn length_in_three_dimensions() {
    let v = Vec3::new(2u32, 3, 6);
    assert_eq!(v.sq_len(), 49);
    assert_eq!(v.ilen(), 7);
    assert_eq!(Vec3::new(1i32, 1, 1).ilen(), 1);
}

#[test]
fn color_aliases() {
    let mut c = Vec3::new(1u8, 2, 3);
    assert_eq!((*c.r(), *c.g(), *c.b()), (1, 2, 3));
    *c.r_mut() = 4;
    *c.g_mut() = 5;
    *c.b_mut() = 6;
    assert_eq!(c, Vec3::new(4, 5, 6));
    c.set_r(7);
    c.set_g(8);
    c.set_b(9);
    assert_eq!(c, Vec3::new(7, 8, 9));
}

#[test]
fn componentwise_arithmetic_3d() {
    let a = Vec3::new(12i32, -7, 9);
    let b = Vec3::new(5i32, 2, 3);
    assert_eq!(a.cmul(b), Vec3::new(60, -14, 27));
    assert_eq!(a.cdiv(b), Vec3::new(2, -3, 3));
    assert_eq!(a.crem(b), Vec3::new(2, -1, 0));
    let mut c = a;
    c.cmul_assign(b);
    assert_eq!(c, Vec3::new(60, -14, 27));
    let mut d = a;
    d.cdiv_assign(b);
    assert_eq!(d, Vec3::new(2, -3, 3));
    let mut e = a;
    e.crem_assign(b);
    assert_eq!(e, Vec3::new(2, -1, 0));
    assert_eq!(a.cjoin(b, |p, q| p + q), Vec3::new(17, -5, 12));
    assert_eq!(a + b, Vec3::new(17, -5, 12));
    assert_eq!(a - b, Vec3::new(7, -9, 6));
    assert_eq!(b * 2, Vec3::new(10, 4, 6));
    assert_eq!(a / 2, Vec3::new(6, -3, 4));
    assert_eq!(a % 5, Vec3::new(2, -2, 4));
    let t: Vec3<u8> = (1u8, 2u8, 3u8).into();
    assert_eq!(t, Vec3::new(1, 2, 3));
}

#[test]
fn reductions_3d() {
    let v = Vec3::new(2u32, 3, 4);
    assert_eq!(v.sum(), 9);
    assert_eq!(v.prod(), 24);
    assert!(Vec3::new(1, 1, 1).same());
    assert!(!Vec3::new(1, 1, 2).same());
}

#[test]
fn distinct_value_count() {
    assert_eq!(Vec3::new(1, 1, 1).group_cnt(), 1);
    assert_eq!(Vec3::new(1, 1, 2).group_cnt(), 2);
    assert_eq!(Vec3::new(1, 2, 1).group_cnt(), 2);
    assert_eq!(Vec3::new(2, 1, 1).group_cnt(), 2);
    assert_eq!(Vec3::new(1, 2, 3).group_cnt(), 3);
}

#[test]
fn extremes_of_three() {
    let v = Vec3::new(5, 9, 1);
    assert_eq!((v.max_idx(), *v.max()), (1, 9));
    assert_eq!((v.min_idx(), *v.min()), (2, 1));
    assert_eq!((v.mid_idx(), *v.mid()), (0, 5));
    assert_eq!(Vec3::new(7, 3, 7).max_idx(), 0);
    assert_eq!(Vec3::new(3, 7, 7).max_idx(), 1);
    assert_eq!(Vec3::new(3, 1, 1).min_idx(), 1);
    assert_eq!(Vec3::new(4, 4, 4).min_idx(), 0);
    let mut m = Vec3::new(5, 9, 1);
    *m.max_mut() = 0;
    assert_eq!(m, Vec3::new(5, 0, 1));
    *m.min_mut() = 8;
    assert_eq!(m, Vec3::new(5, 8, 1));
    *m.mid_mut() = 6;
    assert_eq!(m, Vec3::new(6, 8, 1));
}

#[test]
fn median_of_every_order() {
    for p in [[1, 2, 3], [1, 3, 2], [2, 1, 3], [2, 3, 1], [3, 1, 2], [3, 2, 1]] {
        let v = Vec3::new(p[0], p[1], p[2]);
        assert_eq!(*v.mid(), 2);
    }
}

#[test]
fn sorting_every_order() {
    for p in [[1, 2, 3], [1, 3, 2], [2, 1, 3], [2, 3, 1], [3, 1, 2], [3, 2, 1], [2, 2, 1], [1, 2, 1]] {
        let v = Vec3::new(p[0], p[1], p[2]);
        let mut w = v;
        w.sort();
        let mut q = p;
        q.sort();
        assert_eq!(v.sorted(), Vec3::new(q[0], q[1], q[2]));
        assert_eq!(w, Vec3::new(q[0], q[1], q[2]));
    }
}

#[test]
fn predicates_3d() {
    let v = Vec3::new(1, 5, 9);
    assert!(v.are_all(|a| *a > 0));
    assert!(!v.are_all(|a| *a > 1));
    assert!(v.is_any(|a| *a == 9));
    assert!(v.is_none(|a| *a > 9));
    assert!(v.is_any_not(|a| *a < 9));
    assert!(!v.is_any_not(|a| *a < 10));
    assert_eq!(v.get_count(|a| *a >= 5), 2);
    assert_eq!(v.map(|a| a + 1), Vec3::new(2, 6, 10));
    let c: Vec3<i64> = Vec3::new(1i32, -2, 3).convert();
    assert_eq!(c, Vec3::new(1i64, -2, 3));
}

#[test]
fn reordering() {
    let v = Vec3::new(1, 2, 3);
    assert_eq!(v.xyz(), Vec3::new(1, 2, 3));
    assert_eq!(v.xzy(), Vec3::new(1, 3, 2));
    assert_eq!(v.yxz(), Vec3::new(2, 1, 3));
    assert_eq!(v.yzx(), Vec3::new(2, 3, 1));
    assert_eq!(v.zxy(), Vec3::new(3, 1, 2));
    assert_eq!(v.zyx(), Vec3::new(3, 2, 1));
    assert_eq!(v.x_yz(), (1, Vec2::new(2, 3)));
    assert_eq!(v.x_zy(), (1, Vec2::new(3, 2)));
    assert_eq!(v.y_xz(), (2, Vec2::new(1, 3)));
    assert_eq!(v.y_zx(), (2, Vec2::new(3, 1)));
    assert_eq!(v.z_xy(), (3, Vec2::new(1, 2)));
    assert_eq!(v.z_yx(), (3, Vec2::new(2, 1)));
    assert_eq!(v.yz(), Vec2::new(2, 3));
    assert_eq!(v.zy(), Vec2::new(3, 2));
    assert_eq!(v.xz(), (2, Vec2::new(1, 3)));
    assert_eq!(v.zx(), Vec2::new(3, 1));
    assert_eq!(v.xy(), Vec2::new(1, 2));
    assert_eq!(v.yx(), Vec2::new(2, 1));
}

#[test]
fn references_3d() {
    let mut v = Vec3::new(1, 2, 3);
    assert_eq!(v.as_ref().copied(), v);
    assert_eq!(v.as_ref().cloned(), v);
    let m = v.as_mut();
    *m.z = 30;
    assert_eq!(v, Vec3::new(1, 2, 30));
}

#[test]
fn position_of_index_3d() {
    let e = Vec3::new(3usize, 2, 4);
    assert_eq!(e.pos_of_idx(0), Vec3::new(0, 0, 0));
    assert_eq!(e.pos_of_idx(4), Vec3::new(1, 1, 0));
    assert_eq!(e.pos_of_idx(7), Vec3::new(1, 0, 1));
    assert_eq!(e.idx_of_pos(Vec3::new(1, 0, 1)), 7);
    for i in 0..24 {
        assert_eq!(e.idx_of_pos(e.pos_of_idx(i)), i);
    }
}

#[test]
fn cast_scale_and_ranges_3d() {
    let c: Vec3<i8> = Vec3::new(255u8, 128, 1).cast();
    assert_eq!(c, Vec3::new(-1, -128, 1));
    let s: Vec3<u16> = Vec3::new(0u8, 0x80, 0xff).scale();
    assert_eq!(s, Vec3::new(0, 0x8080, 0xffff));
    let v = Vec3::new(0u8, 51, 255);
    assert_eq!(v.change_range(0, 255, 0, 5), Vec3::new(0, 1, 5));
    assert_eq!(v.norm_to_range(0, 5), Vec3::new(0, 1, 5));
    assert_eq!(Vec3::new(0u8, 1, 5).to_norm_range(0, 5), Vec3::new(0, 51, 255));
    assert_eq!(Vec3::new(-1i32, 0, 2).cabs(), Vec3::new(1, 0, 2));
}

#[test]
fn color_332_known_values() {
    assert_eq!(Vec3::<u8>::from_332(0xff), Vec3::new(255, 255, 255));
    assert_eq!(Vec3::<u8>::from_332(0), Vec3::new(0, 0, 0));
    assert_eq!(Vec3::<u8>::from_332(0b111_000_00), Vec3::new(255, 0, 0));
    assert_eq!(Vec3::<u8>::from_332(0b000_000_10), Vec3::new(0, 0, 170));
    assert_eq!(Vec3::<u8>::from_332(0b001_000_00), Vec3::new(36, 0, 0));
    assert_eq!(Vec3::new(255u8, 0, 255).to_332(), 0b111_000_11);
    assert_eq!(Vec3::new(0xffffu16, 0xffff, 0).to_332(), 0b111_111_00);
}

#[test]
fn color_332_round_trip() {
    for c in 0..=255u8 {
        assert_eq!(Vec3::<u8>::from_332(c).to_332(), c);
        assert_eq!(Vec3::<u16>::from_332(c).to_332(), c);
        assert_eq!(Vec3::<u64>::from_332(c).to_332(), c);
    }
}

#[test]
fn boolean_vectors_3d() {
    let v = Vec3::new(true, false, true);
    assert!(!v.all());
    assert!(v.any());
    assert!(!v.none());
    assert!(v.not_all());
    assert_eq!(v.count(), 2);
    assert!(Vec3::new(true, true, true).all());
    assert!(Vec3::new(false, false, false).none());
    assert_eq!(Vec3::new(false, false, false).count(), 0);
}

#[test]
fn range_iteration_3d_order() {
    let mut it = Vec3::new(0usize, 0, 0).to(Vec3::new(2, 2, 2));
    let mut got = vec![];
    while let Some(p) = it.next() {
        got.push((p.x, p.y, p.z));
    }
    assert_eq!(
        got,
        vec![
            (0, 0, 0),
            (1, 0, 0),
            (0, 1, 0),
            (1, 1, 0),
            (0, 0, 1),
            (1, 0, 1),
            (0, 1, 1),
            (1, 1, 1)
        ]
    );
    assert_eq!(it.next(), None);
}

#[test]
fn range_iteration_3d_count() {
    let mut it = Vec3RangeIter::new(Vec3::new(1i32, -2, 3), Vec3::new(4, 1, 5));
    let mut n = 0;
    while it.next().is_some() {
        n += 1;
    }
    assert_eq!(n, 3 * 3 * 2);
}

#[test]
fn degenerate_boxes_3d_are_empty() {
    let p = Vec3::new(1usize, 2, 3);
    assert_eq!(p.to(p).next(), None);
    assert_eq!(Vec3::new(0usize, 0, 0).to(Vec3::new(2, 2, 0)).next(), None);
    assert_eq!(Vec3::new(0usize, 0, 0).to(Vec3::new(2, 0, 2)).next(), None);
    assert_eq!(Vec3::new(0usize, 0, 0).to(Vec3::new(0, 2, 2)).next(), None);
}

#[test]
fn box_contains_3d() {
    let it = Vec3::new(0u8, 0, 0).to(Vec3::new(2, 2, 2));
    assert!(it.contains(Vec3::new(1, 1, 1)));
    assert!(!it.contains(Vec3::new(1, 2, 1)));
    assert!(!it.contains(Vec3::new(1, 1, 2)));
}
