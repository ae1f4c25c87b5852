//! Numeric scaling between integer domains, and two, three and four dimensional
//! vectors built on it.
pub mod cast;
pub mod integer;
pub mod isqrt;
pub mod large_type;
pub mod normal_limits;
pub mod one;
pub mod scale;
pub mod two;
pub mod vec2;
pub mod vec2_range_iter;
pub mod vec3;
pub mod vec3_range_iter;
pub mod vec4;
pub mod zero;

pub use cast::Cast;
pub use integer::Integer;
pub use isqrt::Isqrt;
pub use large_type::LargeType;
pub use normal_limits::NormalLimits;
pub use one::One;
pub use scale::Scale;
pub use two::Two;
pub use vec2::Vec2;
pub use vec2_range_iter::Vec2RangeIter;
pub use vec3::Vec3;
pub use vec3_range_iter::Vec3RangeIter;
pub use vec4::Vec4;
pub use zero::Zero;
