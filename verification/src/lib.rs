//! A statically typed RGB colour library.
//!
//! A colour value carries, in its type, everything needed to interpret its
//! raw component numbers: which primaries and white point (the colour
//! space), which transfer function encodes the components, and which numeric
//! kind the components use. Conversions between representations are ordinary
//! functions whose behaviour is stated in their contracts.

pub mod channels;
pub mod component;
pub mod encoding;
pub mod packed;
pub mod rgb;
pub mod white_point;
pub mod yxy;

pub use crate::component::{Component, Fixed, FloatComponent, FromComponent};
pub use crate::encoding::TransferFn;
pub use crate::rgb::{Primaries, Rgb, RgbSpace, RgbStandard, Rgba};
pub use crate::rgb::{GammaSrgb, GammaSrgba, LinSrgb, LinSrgba, Srgb, Srgba};
pub use crate::white_point::{WhitePoint, D65};
pub use crate::packed::{Packed, RgbChannels};
pub use crate::yxy::Yxy;
