use vstd::prelude::*;
use crate::color::{Color3, CHANNEL_MAX};

verus! {

/// The decimal digits of `n`, most significant first, in ASCII.
pub open spec fn decimal(n: nat) -> Seq<u8>
    decreases n,
{
    if n < 10 {
        seq![(48 + n) as u8]
    } else {
        decimal(n / 10).push((48 + n % 10) as u8)
    }
}

/// The header of a plain-text (P3) image of the given size with levels up
/// to 255: `P3\n<width> <height>\n255\n`.
pub open spec fn header_text(width: nat, height: nat) -> Seq<u8> {
    seq![80u8, 51u8, 10u8] + decimal(width) + seq![32u8] + decimal(height) + seq![
        10u8,
        50u8,
        53u8,
        53u8,
        10u8,
    ]
}

/// One pixel of a plain-text image: `r g b\n`.
pub open spec fn pixel_text(c: Color3) -> Seq<u8> {
    decimal(c.r as nat) + seq![32u8] + decimal(c.g as nat) + seq![32u8] + decimal(c.b as nat)
        + seq![10u8]
}

/// Appends the decimal digits of `n` to `out`.
pub fn push_decimal(out: &mut Vec<u8>, n: u32)
    ensures
        final(out)@ == old(out)@ + decimal(n as nat),
    decreases n,
{
    if n >= 10 {
        push_decimal(out, n / 10);
    }
    out.push((48 + n % 10) as u8);
}

/// The header of a plain-text image `width` pixels wide and `height` high.
pub fn ppm_header(width: u32, height: u32) -> (r: Vec<u8>)
    ensures
        r@ == header_text(width as nat, height as nat),
{
    let mut out: Vec<u8> = Vec::new();
    out.push(80u8);
    out.push(51u8);
    out.push(10u8);
    push_decimal(&mut out, width);
    out.push(32u8);
    push_decimal(&mut out, height);
    out.push(10u8);
    out.push(50u8);
    out.push(53u8);
    out.push(53u8);
    out.push(10u8);
    assert(out@ =~= header_text(width as nat, height as nat));
    out
}

impl Color3 {
    /// The line that encodes this colour in a plain-text image, or `None`
    /// when a channel lies outside `0..=255`: such a colour is never
    /// clamped.
    pub fn ppm_line(&self) -> (r: Option<Vec<u8>>)
        ensures
            r is Some <==> self.wf(),
            r matches Some(line) ==> line@ == pixel_text(*self),
    {
        if self.r < 0 || self.r > CHANNEL_MAX || self.g < 0 || self.g > CHANNEL_MAX || self.b < 0
            || self.b > CHANNEL_MAX {
            return None;
        }
        let mut out: Vec<u8> = Vec::new();
        push_decimal(&mut out, self.r as u32);
        out.push(32u8);
        push_decimal(&mut out, self.g as u32);
        out.push(32u8);
        push_decimal(&mut out, self.b as u32);
        out.push(10u8);
        assert(out@ =~= pixel_text(*self));
        Some(out)
    }
}

} // verus!
