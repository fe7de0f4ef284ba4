use palette::encoding::Srgb;
use palette::rgb::{Primaries, RgbSpace, RgbStandard};
use palette::white_point::{WhitePoint, D65};
use palette::yxy::Yxy;

#[test]
fn d65_resolves_to_its_published_triple() {
    let w = D65::get_xyz();
    assert_eq!((w.x, w.y, w.z), (950470, 1000000, 1088830));
}

#[test]
fn srgb_primaries_resolve_to_their_published_triples() {
    assert_eq!(<Srgb as Primaries>::red(), Yxy::new(640000, 330000, 212656));
    assert_eq!(<Srgb as Primaries>::green(), Yxy::new(300000, 600000, 715158));
    assert_eq!(<Srgb as Primaries>::blue(), Yxy::new(150000, 60000, 72186));
}

#[test]
fn pair_composes_a_space() {
    // A (primaries, white point) pair is a space with exactly those pieces.
    type Composed = (Srgb, D65);
    assert_eq!(
        <<Composed as RgbSpace>::Primaries as Primaries>::red(),
        <Srgb as Primaries>::red(),
    );
    assert_eq!(
        <<Composed as RgbSpace>::WhitePoint as WhitePoint>::get_xyz(),
        D65::get_xyz(),
    );
}

#[test]
fn composed_standard_behaves_as_the_hand_written_one() {
    // The generic (primaries, white point, transfer function) composition
    // resolves to the same pieces as the hand-written sRGB standard.
    type Composed = (Srgb, D65, Srgb);
    type ComposedSpace = <Composed as RgbStandard>::Space;
    type HandSpace = <Srgb as RgbStandard>::Space;
    assert_eq!(
        <<ComposedSpace as RgbSpace>::Primaries as Primaries>::red(),
        <<HandSpace as RgbSpace>::Primaries as Primaries>::red(),
    );
    assert_eq!(
        <<ComposedSpace as RgbSpace>::Primaries as Primaries>::green(),
        <<HandSpace as RgbSpace>::Primaries as Primaries>::green(),
    );
    assert_eq!(
        <<ComposedSpace as RgbSpace>::Primaries as Primaries>::blue(),
        <<HandSpace as RgbSpace>::Primaries as Primaries>::blue(),
    );
    assert_eq!(
        <<ComposedSpace as RgbSpace>::WhitePoint as WhitePoint>::get_xyz(),
        <<HandSpace as RgbSpace>::WhitePoint as WhitePoint>::get_xyz(),
    );
}

#[test]
fn pair_of_space_and_transfer_composes_a_standard() {
    // A (space, transfer function) pair is a standard over that space.
    type Composed = ((Srgb, D65), Srgb);
    type ComposedSpace = <Composed as RgbStandard>::Space;
    assert_eq!(
        <<ComposedSpace as RgbSpace>::Primaries as Primaries>::green(),
        <Srgb as Primaries>::green(),
    );
    assert_eq!(
        <<ComposedSpace as RgbSpace>::WhitePoint as WhitePoint>::get_xyz(),
        D65::get_xyz(),
    );
}
