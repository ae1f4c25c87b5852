use vecnum::{Vec2, Vec4};

#[test]
fn rectangle_parts() {
    let mut r = Vec4::new(1, 2, 30, 40);
    assert_eq!((*r.width(), *r.height()), (30, 40));
    assert_eq!(r.xy(), Vec2::new(1, 2));
    assert_eq!(r.zw(), Vec2::new(30, 40));
    assert_eq!(r.position(), Vec2::new(1, 2));
    assert_eq!(r.size(), Vec2::new(30, 40));
    assert_eq!(r.xy_zw(), (Vec2::new(1, 2), Vec2::new(30, 40)));
    *r.width_mut() = 10;
    *r.height_mut() = 20;
    assert_eq!(r, Vec4::new(1, 2, 10, 20));
    r.set_width(3);
    r.set_height(4);
    assert_eq!(r, Vec4::new(1, 2, 3, 4));
    let t: Vec4<u8> = (1u8, 2u8, 3u8, 4u8).into();
    assert_eq!(t, Vec4::new(1, 2, 3, 4));
}

#[test]
fn rectangle_center() {
    assert_eq!(Vec4::new(10i32, 20, 4, 6).rect_center(), Vec2::new(12, 23));
    assert_eq!(Vec4::new(0u32, 0, 5, 7).rect_center(), Vec2::new(2, 3));
    assert_eq!(Vec4::new(0i32, 0, -5, 7).rect_center(), Vec2::new(-2, 3));
}
