use prim::color::Color;

#[test]
fn from_argb_packs_alpha_high() {
    let c = Color::from_argb(0x12, 0x34, 0x56, 0x78);
    assert_eq!(c.argb, 0x1234_5678);
}

#[test]
fn channels_read_back() {
    let c = Color::from_argb(0x80, 0xff, 0x01, 0x7f);
    assert_eq!(c.a(), 0x80);
    assert_eq!(c.r(), 0xff);
    assert_eq!(c.g(), 0x01);
    assert_eq!(c.b(), 0x7f);
}

#[test]
fn from_rgb_is_opaque() {
    let c = Color::from_rgb(10, 20, 30);
    assert_eq!(c.argb, 0xff0a_141e);
    assert_eq!(c.a(), 255);
    assert_eq!(c, Color::from_argb(255, 10, 20, 30));
}

#[test]
fn new_keeps_the_packed_value() {
    let c = Color::new(0x00ab_cdef);
    assert_eq!(c.argb, 0x00ab_cdef);
    assert_eq!(c.a(), 0);
    assert_eq!(c.r(), 0xab);
    assert_eq!(c.g(), 0xcd);
    assert_eq!(c.b(), 0xef);
}

#[test]
fn every_colour_repacks_to_itself() {
    for argb in [0u32, 1, 0xffff_ffff, 0x8000_0001, 0x1234_5678, 0xdead_beef] {
        let c = Color::new(argb);
        assert_eq!(Color::from_argb(c.a(), c.r(), c.g(), c.b()), c);
    }
}
