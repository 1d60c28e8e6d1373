//! The textual PPM image: a header and the pixel data.
//!
//! Producing the pixel text from a canvas is the output boundary's
//! concern; this type only assembles and hands back the two parts.

use vstd::prelude::*;
use vstd::string::StringExecFns;

use crate::fx::{Fx, SCALE};

verus! {

/// A color component quantized for PPM output: scaled to 0..=255,
/// clamped into that range, and rounded up to the next whole value.
pub open spec fn spec_color_value(a: int) -> int {
    let scaled = a * 255;
    if scaled <= 0 {
        0
    } else if scaled >= 255 * (SCALE as int) {
        255
    } else {
        (scaled + SCALE - 1) / (SCALE as int)
    }
}

/// Quantizes one color component for PPM output.
pub fn color_value(c: Fx) -> (r: u8)
    ensures
        r as int == spec_color_value(c.rv()),
{
    let scaled: i128 = (c.raw as i128) * 255;
    if scaled <= 0 {
        0
    } else if scaled >= 255 * (SCALE as i128) {
        255
    } else {
        let v: i128 = (scaled + (SCALE as i128) - 1) / (SCALE as i128);
        proof {
            vstd::arithmetic::div_mod::lemma_div_is_ordered(
                scaled as int + SCALE - 1,
                256 * (SCALE as int) - 1,
                SCALE as int,
            );
            vstd::arithmetic::div_mod::lemma_div_multiples_vanish_fancy(
                255,
                SCALE as int - 1,
                SCALE as int,
            );
            assert((SCALE as int) * 255 + (SCALE - 1) == 256 * (SCALE as int) - 1)
                by (nonlinear_arith);
            vstd::arithmetic::div_mod::lemma_div_multiples_vanish(0, SCALE as int);
            assert((SCALE as int) * 0 == 0) by (nonlinear_arith);
            vstd::arithmetic::div_mod::lemma_div_is_ordered(
                0,
                scaled as int + SCALE - 1,
                SCALE as int,
            );
        }
        v as u8
    }
}

#[derive(Debug)]
pub struct Ppm {
    pub header: String,
    pub pixel_data: String,
}

impl Ppm {
    /// Assembles the header `identifier\nwidth height\nmax\n` around the
    /// given pixel data.
    pub fn new(
        identifier: &str,
        width: &str,
        height: &str,
        max_color_value: &str,
        pixel_data: String,
    ) -> (r: Ppm)
        ensures
            r.spec_header() == identifier@ + "\n"@ + width@ + " "@ + height@ + "\n"@
                + max_color_value@ + "\n"@,
            r.spec_pixel_data() == pixel_data@,
    {
        let mut header = String::new();
        header.append(identifier);
        header.append("\n");
        header.append(width);
        header.append(" ");
        header.append(height);
        header.append("\n");
        header.append(max_color_value);
        header.append("\n");
        Ppm { header, pixel_data }
    }

    pub open spec fn spec_header(&self) -> Seq<char> {
        self.header@
    }

    pub open spec fn spec_pixel_data(&self) -> Seq<char> {
        self.pixel_data@
    }

    pub fn header(&self) -> (r: &str)
        ensures
            r@ == self.spec_header(),
    {
        self.header.as_str()
    }

    pub fn pixel_data(&self) -> (r: &str)
        ensures
            r@ == self.spec_pixel_data(),
    {
        self.pixel_data.as_str()
    }

    /// The whole image text: the header followed by the pixel data.
    pub fn data(&self) -> (r: String)
        ensures
            r@ == self.spec_header() + self.spec_pixel_data(),
    {
        let mut data = String::new();
        data.append(self.header.as_str());
        data.append(self.pixel_data.as_str());
        data
    }
}

} // verus!
