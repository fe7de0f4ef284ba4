use palette::component::{Component, Fixed, FromComponent};
use palette::rgb::{Rgb, Rgba, Srgb, Srgba};

#[test]
fn max_intensity_of_each_kind() {
    assert_eq!(<u8 as Component>::max_intensity(), 255u8);
    assert_eq!(<u16 as Component>::max_intensity(), 65535u16);
    assert_eq!(<Fixed as Component>::max_intensity().micros(), 1000000i64);
}

#[test]
fn widening_u8_to_u16_is_exact() {
    assert_eq!(<u16 as FromComponent<u8>>::from_component(0u8), 0u16);
    assert_eq!(<u16 as FromComponent<u8>>::from_component(1u8), 257u16);
    assert_eq!(<u16 as FromComponent<u8>>::from_component(255u8), 65535u16);
    assert_eq!(<u16 as FromComponent<u8>>::from_component(128u8), 32896u16);
}

#[test]
fn narrowing_u16_to_u8_rounds_to_nearest() {
    assert_eq!(<u8 as FromComponent<u16>>::from_component(0u16), 0u8);
    assert_eq!(<u8 as FromComponent<u16>>::from_component(65535u16), 255u8);
    // 128 / 65535 is just under half of 1 / 255, so it rounds down to 0,
    // and 129 / 65535 rounds up to 1.
    assert_eq!(<u8 as FromComponent<u16>>::from_component(128u16), 0u8);
    assert_eq!(<u8 as FromComponent<u16>>::from_component(129u16), 1u8);
}

#[test]
fn u8_to_fixed_scales_by_255() {
    let f = <Fixed as FromComponent<u8>>::from_component(255u8);
    assert_eq!(f.micros(), 1000000);
    let f = <Fixed as FromComponent<u8>>::from_component(0u8);
    assert_eq!(f.micros(), 0);
    // 51 / 255 == 0.2 exactly.
    let f = <Fixed as FromComponent<u8>>::from_component(51u8);
    assert_eq!(f.micros(), 200000);
}

#[test]
fn fixed_to_u8_rounds_to_nearest() {
    // 0.76 * 255 == 193.8, which rounds to 194.
    assert_eq!(<u8 as FromComponent<Fixed>>::from_component(Fixed::from_micros(760000)), 194u8);
    // 0.27 * 255 == 68.85, which rounds to 69.
    assert_eq!(<u8 as FromComponent<Fixed>>::from_component(Fixed::from_micros(270000)), 69u8);
    assert_eq!(<u8 as FromComponent<Fixed>>::from_component(Fixed::from_micros(1000000)), 255u8);
    assert_eq!(<u8 as FromComponent<Fixed>>::from_component(Fixed::from_micros(0)), 0u8);
    // A slightly negative out-of-gamut value still rounds to 0.
    assert_eq!(<u8 as FromComponent<Fixed>>::from_component(Fixed::from_micros(-1000)), 0u8);
}

#[test]
fn every_u8_round_trips_through_fixed() {
    let mut v: u16 = 0;
    while v <= 255 {
        let up = <Fixed as FromComponent<u8>>::from_component(v as u8);
        let back = <u8 as FromComponent<Fixed>>::from_component(up);
        assert_eq!(back, v as u8);
        v += 1;
    }
}

#[test]
fn every_u8_round_trips_through_u16() {
    let mut v: u16 = 0;
    while v <= 255 {
        let up = <u16 as FromComponent<u8>>::from_component(v as u8);
        let back = <u8 as FromComponent<u16>>::from_component(up);
        assert_eq!(back, v as u8);
        v += 1;
    }
}

#[test]
fn every_u16_round_trips_through_fixed() {
    let mut v: u32 = 0;
    while v <= 65535 {
        let up = <Fixed as FromComponent<u16>>::from_component(v as u16);
        let back = <u16 as FromComponent<Fixed>>::from_component(up);
        assert_eq!(back, v as u16);
        v += 1;
    }
}

#[test]
fn component_tuples_round_trip() {
    let c: Srgb<u8> = Rgb::from_components((1u8, 2u8, 3u8));
    assert_eq!(c.into_components(), (1u8, 2u8, 3u8));
    let c: Srgba<u8> = Rgba::from_components((1u8, 2u8, 3u8, 4u8));
    assert_eq!(c.into_components(), (1u8, 2u8, 3u8, 4u8));
}

#[test]
fn fixed_conversion_keeps_over_range_values() {
    // 1.5 stays 1.5: storage and self-conversion never clamp.
    let f = <Fixed as FromComponent<Fixed>>::from_component(Fixed::from_micros(1500000));
    assert_eq!(f.micros(), 1500000);
    let f = <Fixed as FromComponent<Fixed>>::from_component(Fixed::from_micros(-250000));
    assert_eq!(f.micros(), -250000);
}

#[test]
fn opaque_widening_fills_alpha_with_full_intensity() {
    let c: Srgb<u8> = Rgb::new(10u8, 20u8, 30u8);
    let a: Srgba<u8> = Rgba::opaque(c);
    assert_eq!((a.color.red, a.color.green, a.color.blue, a.alpha), (10, 20, 30, 255));
    let c: Srgb<Fixed> = Rgb::new(
        Fixed::from_micros(100),
        Fixed::from_micros(200),
        Fixed::from_micros(300),
    );
    let a: Srgba<Fixed> = Rgba::opaque(c);
    assert_eq!(a.alpha.micros(), 1000000);
}

#[test]
fn clamping_is_explicit_and_separate() {
    assert_eq!(Fixed::from_micros(1500000).clamped().micros(), 1000000);
    assert_eq!(Fixed::from_micros(-250000).clamped().micros(), 0);
    assert_eq!(Fixed::from_micros(760000).clamped().micros(), 760000);
}

#[test]
fn rgb_format_conversion_converts_each_component() {
    let c: Srgb<Fixed> = Rgb::new(
        Fixed::from_micros(1000000),
        Fixed::from_micros(760000),
        Fixed::from_micros(270000),
    );
    let b: Srgb<u8> = c.into_format();
    assert_eq!((b.red, b.green, b.blue), (255u8, 194u8, 69u8));
    let w: Srgb<u16> = Rgb::<_, u16>::from_format(b);
    assert_eq!((w.red, w.green, w.blue), (65535u16, 49858u16, 17733u16));
}

#[test]
fn rgba_format_conversion_converts_alpha_too() {
    let c: Srgba<u8> = Rgba::new(10u8, 20u8, 30u8, 51u8);
    let f: Srgba<Fixed> = c.into_format();
    // Alpha is rescaled by the component contract, like every channel:
    // 51 / 255 == 0.2.
    assert_eq!(f.alpha.micros(), 200000);
    let back: Srgba<u8> = f.into_format();
    assert_eq!((back.color.red, back.color.green, back.color.blue, back.alpha), (10, 20, 30, 51));
}
