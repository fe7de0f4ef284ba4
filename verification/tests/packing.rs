use palette::channels::{Abgr, Argb, Bgra, Rgba as RgbaOrder};
use palette::packed::Packed;
use palette::rgb::{Rgb, Rgba, Srgb, Srgba};

#[test]
fn pack_places_each_lane_argb() {
    let c: Srgba<u8> = Rgba::new(0x11u8, 0x22u8, 0x33u8, 0x44u8);
    let p: Packed<Argb> = Packed::pack(c);
    assert_eq!(p.color, 0x44112233u32);
}

#[test]
fn pack_places_each_lane_rgba() {
    let c: Srgba<u8> = Rgba::new(0x11u8, 0x22u8, 0x33u8, 0x44u8);
    let p: Packed<RgbaOrder> = Packed::pack(c);
    assert_eq!(p.color, 0x11223344u32);
}

#[test]
fn pack_places_each_lane_abgr() {
    let c: Srgba<u8> = Rgba::new(0x11u8, 0x22u8, 0x33u8, 0x44u8);
    let p: Packed<Abgr> = Packed::pack(c);
    assert_eq!(p.color, 0x44332211u32);
}

#[test]
fn pack_places_each_lane_bgra() {
    let c: Srgba<u8> = Rgba::new(0x11u8, 0x22u8, 0x33u8, 0x44u8);
    let p: Packed<Bgra> = Packed::pack(c);
    assert_eq!(p.color, 0x33221144u32);
}

#[test]
fn unpack_reads_each_lane_back() {
    let p = Packed::<Argb> { color: 0xaabbccdd, channel_order: core::marker::PhantomData };
    let c: Srgba<u8> = p.unpack();
    assert_eq!((c.color.red, c.color.green, c.color.blue, c.alpha), (0xbb, 0xcc, 0xdd, 0xaa));
}

#[test]
fn pack_round_trips_every_order() {
    let c: Srgba<u8> = Rgba::new(0x01u8, 0xfeu8, 0x80u8, 0x7fu8);
    let t: Srgba<u8> = Packed::<Argb>::pack(c).unpack();
    assert_eq!((t.color.red, t.color.green, t.color.blue, t.alpha), (0x01, 0xfe, 0x80, 0x7f));
    let c: Srgba<u8> = Rgba::new(0x01u8, 0xfeu8, 0x80u8, 0x7fu8);
    let t: Srgba<u8> = Packed::<Abgr>::pack(c).unpack();
    assert_eq!((t.color.red, t.color.green, t.color.blue, t.alpha), (0x01, 0xfe, 0x80, 0x7f));
    let c: Srgba<u8> = Rgba::new(0x01u8, 0xfeu8, 0x80u8, 0x7fu8);
    let t: Srgba<u8> = Packed::<Bgra>::pack(c).unpack();
    assert_eq!((t.color.red, t.color.green, t.color.blue, t.alpha), (0x01, 0xfe, 0x80, 0x7f));
    let c: Srgba<u8> = Rgba::new(0x01u8, 0xfeu8, 0x80u8, 0x7fu8);
    let t: Srgba<u8> = Packed::<RgbaOrder>::pack(c).unpack();
    assert_eq!((t.color.red, t.color.green, t.color.blue, t.alpha), (0x01, 0xfe, 0x80, 0x7f));
}

#[test]
fn unpack_then_pack_restores_the_integer() {
    let p = Packed::<Bgra> { color: 0x12345678, channel_order: core::marker::PhantomData };
    let c: Srgba<u8> = p.unpack();
    let q: Packed<Bgra> = Packed::pack(c);
    assert_eq!(q.color, 0x12345678);
}

#[test]
fn pack_opaque_fills_alpha_with_max() {
    let c: Srgb<u8> = Rgb::new(0x11u8, 0x22u8, 0x33u8);
    let p: Packed<Argb> = Packed::pack_opaque(c);
    assert_eq!(p.color, 0xff112233u32);
}
