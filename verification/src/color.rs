use vstd::prelude::*;

verus! {

/// An RGBA colour, one byte per channel. The host render surface consumes
/// the same four channels; this crate only selects and passes colours
/// through, it never mixes them.
#[derive(Clone, Copy, PartialEq, Eq, Debug)]
pub struct Color {
    pub r: u8,
    pub g: u8,
    pub b: u8,
    pub a: u8,
}

} // verus!
