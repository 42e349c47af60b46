use vstd::prelude::*;

verus! {

/// The 32-bit value that packs the channels `a`, `r`, `g`, `b` with alpha in the
/// top byte, then red, green and blue.
pub open spec fn pack_argb(a: u8, r: u8, g: u8, b: u8) -> u32 {
    (a as int * 0x1000000 + r as int * 0x10000 + g as int * 0x100 + b as int) as u32
}

/// The byte of `argb` that starts at bit `shift` (one of 0, 8, 16, 24).
pub open spec fn channel(argb: u32, shift: int) -> u8 {
    ((argb as int / pow2_int(shift)) % 0x100) as u8
}

/// Two to the power `shift`, for the four byte offsets of a packed colour.
pub open spec fn pow2_int(shift: int) -> int {
    if shift == 24 {
        0x1000000
    } else if shift == 16 {
        0x10000
    } else if shift == 8 {
        0x100
    } else {
        1
    }
}

/// A colour held as one 32-bit ARGB value, alpha in the most significant byte.
#[derive(Clone, Copy, Debug, PartialEq, Eq, Structural)]
pub struct Color {
    pub argb: u32,
}

impl Color {
    /// The alpha channel, in the top byte.
    pub open spec fn alpha(self) -> u8 {
        channel(self.argb, 24)
    }

    /// The red channel.
    pub open spec fn red(self) -> u8 {
        channel(self.argb, 16)
    }

    /// The green channel.
    pub open spec fn green(self) -> u8 {
        channel(self.argb, 8)
    }

    /// The blue channel, in the low byte.
    pub open spec fn blue(self) -> u8 {
        channel(self.argb, 0)
    }

    /// The colour packed from four channels.
    pub open spec fn spec_from_argb(a: u8, r: u8, g: u8, b: u8) -> Color {
        Color { argb: pack_argb(a, r, g, b) }
    }

    /// Whether the colour is fully opaque (alpha 255).
    pub open spec fn is_opaque(self) -> bool {
        self.alpha() == 255
    }

    /// Wraps a packed ARGB value.
    pub fn new(argb: u32) -> (c: Color)
        ensures
            c.argb == argb,
    {
        Color { argb }
    }

    /// Packs four 8-bit channels into one colour.
    pub fn from_argb(a: u8, r: u8, g: u8, b: u8) -> (c: Color)
        ensures
            c == Color::spec_from_argb(a, r, g, b),
            c.alpha() == a,
            c.red() == r,
            c.green() == g,
            c.blue() == b,
    {
        let v: u32 = ((a as u32) << 24u32) | ((r as u32) << 16u32) | ((g as u32) << 8u32) | (b as u32);
        proof {
            lemma_pack_bits(a, r, g, b);
            lemma_channels_of_pack(a, r, g, b);
        }
        Color { argb: v }
    }

    /// A fully opaque colour from three 8-bit channels.
    pub fn from_rgb(r: u8, g: u8, b: u8) -> (c: Color)
        ensures
            c == Color::spec_from_argb(255, r, g, b),
            c.is_opaque(),
            c.red() == r,
            c.green() == g,
            c.blue() == b,
    {
        Color::from_argb(0xff, r, g, b)
    }

    /// The alpha channel.
    pub fn a(self) -> (v: u8)
        ensures
            v == self.alpha(),
    {
        let x = self.argb;
        let v: u8 = (x >> 24u32) as u8;
        assert(v == ((x / 0x1000000) % 0x100) as u8) by (bit_vector)
            requires
                v == (x >> 24u32) as u8,
        ;
        v
    }

    /// The red channel.
    pub fn r(self) -> (v: u8)
        ensures
            v == self.red(),
    {
        let x = self.argb;
        let v: u8 = (x >> 16u32) as u8;
        assert(v == ((x / 0x10000) % 0x100) as u8) by (bit_vector)
            requires
                v == (x >> 16u32) as u8,
        ;
        v
    }

    /// The green channel.
    pub fn g(self) -> (v: u8)
        ensures
            v == self.green(),
    {
        let x = self.argb;
        let v: u8 = (x >> 8u32) as u8;
        assert(v == ((x / 0x100) % 0x100) as u8) by (bit_vector)
            requires
                v == (x >> 8u32) as u8,
        ;
        v
    }

    /// The blue channel.
    pub fn b(self) -> (v: u8)
        ensures
            v == self.blue(),
    {
        let x = self.argb;
        let v: u8 = x as u8;
        assert(v == (x % 0x100) as u8) by (bit_vector)
            requires
                v == x as u8,
        ;
        v
    }
}

/// The shifts and ors that build a packed colour compute `pack_argb`.
proof fn lemma_pack_bits(a: u8, r: u8, g: u8, b: u8)
    ensures
        ((a as u32) << 24u32) | ((r as u32) << 16u32) | ((g as u32) << 8u32) | (b as u32)
            == pack_argb(a, r, g, b),
{
    assert(((a as u32) << 24u32) | ((r as u32) << 16u32) | ((g as u32) << 8u32) | (b as u32)
        == (a as u32) * 0x1000000u32 + (r as u32) * 0x10000u32 + (g as u32) * 0x100u32 + (b as u32))
        by (bit_vector);
}

/// Law: packing four channels and reading them back gives the same four channels.
pub proof fn lemma_channels_of_pack(a: u8, r: u8, g: u8, b: u8)
    ensures
        Color::spec_from_argb(a, r, g, b).alpha() == a,
        Color::spec_from_argb(a, r, g, b).red() == r,
        Color::spec_from_argb(a, r, g, b).green() == g,
        Color::spec_from_argb(a, r, g, b).blue() == b,
{
    let v: int = a as int * 0x1000000 + r as int * 0x10000 + g as int * 0x100 + b as int;
    assert(0 <= v < 0x1_0000_0000);
    assert(v / 0x1000000 == a) by (nonlinear_arith)
        requires v == a as int * 0x1000000 + r as int * 0x10000 + g as int * 0x100 + b as int,
            0 <= a < 256, 0 <= r < 256, 0 <= g < 256, 0 <= b < 256;
    assert(v / 0x10000 == a as int * 0x100 + r) by (nonlinear_arith)
        requires v == a as int * 0x1000000 + r as int * 0x10000 + g as int * 0x100 + b as int,
            0 <= r < 256, 0 <= g < 256, 0 <= b < 256;
    assert(v / 0x100 == a as int * 0x10000 + r as int * 0x100 + g) by (nonlinear_arith)
        requires v == a as int * 0x1000000 + r as int * 0x10000 + g as int * 0x100 + b as int,
            0 <= g < 256, 0 <= b < 256;
    assert((a as int * 0x100 + r) % 0x100 == r) by (nonlinear_arith)
        requires 0 <= r < 256, 0 <= a;
    assert((a as int * 0x10000 + r as int * 0x100 + g) % 0x100 == g) by (nonlinear_arith)
        requires 0 <= g < 256, 0 <= a, 0 <= r;
    assert(v % 0x100 == b) by (nonlinear_arith)
        requires v == a as int * 0x1000000 + r as int * 0x10000 + g as int * 0x100 + b as int,
            0 <= b < 256, 0 <= a, 0 <= r, 0 <= g;
}

/// Law: every colour is the packing of its own four channels.
pub proof fn lemma_pack_of_channels(c: Color)
    ensures
        Color::spec_from_argb(c.alpha(), c.red(), c.green(), c.blue()) == c,
{
    let x = c.argb;
    assert(((x / 0x1000000) % 0x100) as u8 as u32 * 0x1000000u32
        + ((x / 0x10000) % 0x100) as u8 as u32 * 0x10000u32
        + ((x / 0x100) % 0x100) as u8 as u32 * 0x100u32
        + (x % 0x100) as u8 as u32 == x) by (bit_vector);
}

/// Law: in a packed colour the alpha is the top byte, then red, then green, and blue is
/// the low byte; the four channel readers read exactly those bytes.
pub proof fn lemma_argb_layout(a: u8, r: u8, g: u8, b: u8)
    ensures
        Color::spec_from_argb(a, r, g, b).argb as int
            == a as int * 0x1000000 + r as int * 0x10000 + g as int * 0x100 + b as int,
        forall|c: Color| #[trigger] c.alpha() == c.argb as int / 0x1000000,
        forall|c: Color| #[trigger] c.red() == (c.argb as int / 0x10000) % 0x100,
        forall|c: Color| #[trigger] c.green() == (c.argb as int / 0x100) % 0x100,
        forall|c: Color| #[trigger] c.blue() == c.argb as int % 0x100,
{
    assert forall|c: Color| #[trigger] c.alpha() == c.argb as int / 0x1000000 by {
        let x = c.argb;
        assert(x / 0x1000000 < 0x100) by (bit_vector);
    }
}

} // verus!
