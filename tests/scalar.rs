use vecnum::{Cast, Integer, Isqrt, LargeType, NormalLimits, One, Scale, Two, Zero};
use vecnum::large_type::change_range;

#[test]
fn scale_keeps_extremes_unsigned() {
    let a: u16 = 0u8.scale();
    let b: u16 = 255u8.scale();
    assert_eq!((a, b), (0, 65535));
    let c: u8 = 0u64.scale();
    let d: u8 = u64::MAX.scale();
    assert_eq!((c, d), (0, 255));
    let e: u128 = u8::MAX.scale();
    assert_eq!(e, u128::MAX);
    let f: u8 = u128::MAX.scale();
    assert_eq!(f, 255);
}

#[test]
fn scale_keeps_extremes_signed() {
    let a: u8 = i8::MIN.scale();
    let b: u8 = i8::MAX.scale();
    assert_eq!((a, b), (0, 255));
    let c: i8 = 0u8.scale();
    let d: i8 = 255u8.scale();
    assert_eq!((c, d), (-128, 127));
    let e: i8 = i16::MIN.scale();
    let f: i8 = i16::MAX.scale();
    assert_eq!((e, f), (i8::MIN, i8::MAX));
    let g: i64 = i16::MIN.scale();
    let h: i64 = i16::MAX.scale();
    assert_eq!((g, h), (i64::MIN, i64::MAX));
}

#[test]
fn scale_narrowing_drops_low_bits() {
    let a: u8 = 0x1234u16.scale();
    assert_eq!(a, 0x12);
    let b: u16 = 0x89ab_cdefu32.scale();
    assert_eq!(b, 0x89ab);
}

#[test]
fn scale_widening_repeats_pattern() {
    let a: u32 = 0xabu8.scale();
    assert_eq!(a, 0xabab_abab);
    let b: u64 = 0x1234u16.scale();
    assert_eq!(b, 0x1234_1234_1234_1234);
    let c: u16 = 0x01u8.scale();
    assert_eq!(c, 0x0101);
}

#[test]
fn scale_to_same_domain_is_identity() {
    let a: u32 = 123_456u32.scale();
    assert_eq!(a, 123_456);
    let b: i16 = (-300i16).scale();
    assert_eq!(b, -300);
}

#[test]
fn scale_keeps_order() {
    let values = [0u16, 1, 255, 256, 257, 1000, 40000, 65534, 65535];
    for w in values.windows(2) {
        let a: u8 = w[0].scale();
        let b: u8 = w[1].scale();
        assert!(a <= b);
        let c: u32 = w[0].scale();
        let d: u32 = w[1].scale();
        assert!(c <= d);
        let e: i8 = w[0].scale();
        let f: i8 = w[1].scale();
        assert!(e <= f);
    }
}

#[test]
fn expand_u8_to_u16_boundaries() {
    let a: u16 = 0xffu8.scale();
    let b: u16 = 0x00u8.scale();
    assert_eq!(a, 0xffff);
    assert_eq!(b, 0x0000);
}

#[test]
fn cast_wraps_around() {
    let a: u8 = 300u16.cast();
    assert_eq!(a, 44);
    let b: u16 = (-1i8).cast();
    assert_eq!(b, 65535);
    let c: i8 = 200u8.cast();
    assert_eq!(c, -56);
    let d: i8 = (-5i64).cast();
    assert_eq!(d, -5);
    let e: i128 = u128::MAX.cast();
    assert_eq!(e, -1);
    let f: u64 = 7u8.cast();
    assert_eq!(f, 7);
    let g: usize = (-2isize).cast();
    assert_eq!(g, usize::MAX - 1);
}

#[test]
fn integer_square_root() {
    assert_eq!(0u8.isqrt(), 0);
    assert_eq!(1u32.isqrt(), 1);
    assert_eq!(15u32.isqrt(), 3);
    assert_eq!(16i32.isqrt(), 4);
    assert_eq!(255u8.isqrt(), 15);
    assert_eq!(u128::MAX.isqrt(), u64::MAX as u128);
    assert_eq!(i64::MAX.isqrt(), 3_037_000_499);
}

#[test]
fn normal_limits_are_domain_extremes() {
    assert_eq!(u8::norm_max(), 255);
    assert_eq!(u8::norm_min(), 0);
    assert_eq!(i8::norm_min(), -128);
    assert_eq!(i8::norm_max(), 127);
    assert_eq!(u128::norm_max(), u128::MAX);
    assert_eq!(i128::norm_min(), i128::MIN);
}

#[test]
fn small_constants() {
    assert_eq!(u8::zero(), 0);
    assert_eq!(i32::one(), 1);
    assert_eq!(i8::two(), 2);
    assert_eq!(usize::one(), 1);
    assert_eq!(<u16 as Integer>::width(), 16);
    assert_eq!(<i64 as Integer>::width(), 64);
}

#[test]
fn large_type_round_trip() {
    assert_eq!(200u8.to_large(), 200u16);
    assert_eq!((-7i32).to_large(), -7i64);
    assert_eq!(u8::from_large(300u16), 44);
    assert_eq!(i8::from_large(200i16), -56);
}

#[test]
fn change_range_scalar() {
    assert_eq!(change_range(128u8, 0, 255, 0, 100), 50);
    assert_eq!(change_range(255u8, 0, 255, 0, 100), 100);
    assert_eq!(change_range(-10i32, -20, 20, 0, 400), 100);
    assert_eq!(change_range(5i8, 0, 10, 10, 0), 5);
}

#[test]
fn change_range_onto_itself_is_identity() {
    for v in [0u8, 1, 7, 100, 254, 255] {
        assert_eq!(change_range(v, 0, 255, 0, 255), v);
    }
    for v in [3u8, 7, 100, 250] {
        assert_eq!(change_range(v, 3, 250, 3, 250), v);
    }
    for v in [-100i8, -1, 0, 1, 60] {
        assert_eq!(change_range(v, -100, 60, -100, 60), v);
    }
}
