use vstd::prelude::*;

verus! {

/// Opaque black, as a packed ARGB value.
pub const BLACK: u32 = 0xff000000u32;

/// Opaque red, as a packed ARGB value.
pub const RED: u32 = 0xffff0000u32;

/// A colour held as one packed 32-bit ARGB value
/// (alpha in the high byte, then red, green and blue).
pub struct Color {
    color: u32,
}

impl View for Color {
    type V = u32;

    /// The packed ARGB value of the colour.
    closed spec fn view(&self) -> u32 {
        self.color
    }
}

impl Color {
    /// The packed ARGB value of the colour.
    pub fn argb(&self) -> (c: u32)
        ensures
            c == self@,
    {
        self.color
    }
}

impl From<u32> for Color {
    /// The colour whose packed ARGB value is `color`.
    fn from(color: u32) -> (c: Self)
        ensures
            c@ == color,
    {
        Color { color }
    }
}

impl vstd::std_specs::convert::FromSpecImpl<u32> for Color {
    open spec fn obeys_from_spec() -> bool {
        true
    }

    closed spec fn from_spec(v: u32) -> Color {
        Color { color: v }
    }
}

/// A colour made from a packed ARGB value gives that same value back.
pub proof fn lemma_color_round_trip(color: u32)
    ensures
        <Color as vstd::std_specs::convert::FromSpec<u32>>::from_spec(color)@ == color,
{
}

} // verus!
