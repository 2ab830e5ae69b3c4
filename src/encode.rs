use vstd::prelude::*;

verus! {

/// Largest value of an 8-bit colour channel.
pub const MAX_CHANNEL: u64 = 255;

/// The channel value for a gamma-encoded intensity already scaled by 256 and
/// truncated: values at or beyond full intensity all map to the top channel.
pub open spec fn channel_of(scaled: nat) -> nat {
    if scaled <= MAX_CHANNEL {
        scaled
    } else {
        MAX_CHANNEL as nat
    }
}

/// Quantizes a scaled, truncated intensity to an 8-bit channel, never
/// overflowing.
pub fn channel_byte(scaled: u64) -> (r: u8)
    ensures
        r as nat == channel_of(scaled as nat),
{
    if scaled <= MAX_CHANNEL {
        scaled as u8
    } else {
        MAX_CHANNEL as u8
    }
}

/// ASCII code of `0`.
pub const DIGIT_ZERO: u8 = 48;

/// ASCII code of a space.
pub const SPACE: u8 = 32;

/// ASCII code of a line feed.
pub const NEWLINE: u8 = 10;

/// ASCII code of `P`.
pub const LETTER_P: u8 = 80;

/// An 8-bit RGB pixel, ready to be written out.
#[derive(Clone, Copy, Debug, PartialEq, Eq, Structural)]
pub struct Rgb8 {
    pub r: u8,
    pub g: u8,
    pub b: u8,
}

impl Rgb8 {
    /// The pixel for three gamma-encoded channel intensities, each already
    /// scaled by 256 and truncated.
    pub fn from_scaled(r: u64, g: u64, b: u64) -> (p: Rgb8)
        ensures
            p.r as nat == channel_of(r as nat),
            p.g as nat == channel_of(g as nat),
            p.b as nat == channel_of(b as nat),
    {
        Rgb8 { r: channel_byte(r), g: channel_byte(g), b: channel_byte(b) }
    }
}

/// ASCII decimal digits of `n`, most significant first, without leading zeros.
pub open spec fn decimal(n: nat) -> Seq<u8>
    decreases n,
{
    if n < 10 {
        seq![(DIGIT_ZERO + n) as u8]
    } else {
        decimal(n / 10).push((DIGIT_ZERO + n % 10) as u8)
    }
}

/// Header of a plain-text PPM image: magic, dimensions, maximum channel value.
pub open spec fn header_text(width: nat, height: nat) -> Seq<u8> {
    seq![LETTER_P, (DIGIT_ZERO + 3) as u8, NEWLINE] + decimal(width) + seq![SPACE] + decimal(height)
        + seq![NEWLINE] + decimal(MAX_CHANNEL as nat) + seq![NEWLINE]
}

/// One pixel line: the three channels separated by spaces.
pub open spec fn pixel_text(p: Rgb8) -> Seq<u8> {
    decimal(p.r as nat) + seq![SPACE] + decimal(p.g as nat) + seq![SPACE] + decimal(p.b as nat)
        + seq![NEWLINE]
}

/// The pixel lines of an image, in the order of `pixels`.
pub open spec fn pixels_text(pixels: Seq<Rgb8>) -> Seq<u8>
    decreases pixels.len(),
{
    if pixels.len() == 0 {
        Seq::empty()
    } else {
        pixels_text(pixels.drop_last()) + pixel_text(pixels.last())
    }
}

/// A whole plain-text PPM image.
pub open spec fn ppm_text(width: nat, height: nat, pixels: Seq<Rgb8>) -> Seq<u8> {
    header_text(width, height) + pixels_text(pixels)
}

fn push_decimal(out: &mut Vec<u8>, n: u64)
    ensures
        final(out)@ == old(out)@ + decimal(n as nat),
    decreases n,
{
    if n >= 10 {
        push_decimal(out, n / 10);
    }
    out.push(DIGIT_ZERO + (n % 10) as u8);
    proof {
        assert(n < 10 ==> n % 10 == n);
    }
}

/// Appends the line of one pixel.
pub fn push_pixel(out: &mut Vec<u8>, p: Rgb8)
    ensures
        final(out)@ == old(out)@ + pixel_text(p),
{
    push_decimal(out, p.r as u64);
    out.push(SPACE);
    push_decimal(out, p.g as u64);
    out.push(SPACE);
    push_decimal(out, p.b as u64);
    out.push(NEWLINE);
}

/// The header of a `width` by `height` plain-text PPM image.
pub fn ppm_header(width: u64, height: u64) -> (r: Vec<u8>)
    ensures
        r@ == header_text(width as nat, height as nat),
{
    let mut out: Vec<u8> = Vec::new();
    out.push(LETTER_P);
    out.push(DIGIT_ZERO + 3);
    out.push(NEWLINE);
    push_decimal(&mut out, width);
    out.push(SPACE);
    push_decimal(&mut out, height);
    out.push(NEWLINE);
    push_decimal(&mut out, MAX_CHANNEL);
    out.push(NEWLINE);
    out
}

/// Encodes an image as plain-text PPM: the header, then one line per pixel in
/// row-major order.
pub fn encode_ppm(width: u64, height: u64, pixels: &Vec<Rgb8>) -> (r: Vec<u8>)
    requires
        pixels@.len() == width * height,
    ensures
        r@ == ppm_text(width as nat, height as nat, pixels@),
{
    let mut out = ppm_header(width, height);
    let mut i: usize = 0;
    while i < pixels.len()
        invariant
            i <= pixels@.len(),
            out@ == header_text(width as nat, height as nat) + pixels_text(pixels@.take(i as int)),
        decreases pixels@.len() - i,
    {
        proof {
            assert(pixels@.take(i + 1).drop_last() == pixels@.take(i as int));
        }
        push_pixel(&mut out, pixels[i]);
        i = i + 1;
    }
    proof {
        assert(pixels@.take(i as int) == pixels@);
    }
    out
}

} // verus!
