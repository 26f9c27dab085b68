use vstd::prelude::*;

verus! {

/// One RGBA color, one byte per channel, in the byte order R, G, B, A.
#[derive(Clone, Copy, PartialEq, Eq, Structural, Debug)]
pub struct Color {
    pub r: u8,
    pub g: u8,
    pub b: u8,
    pub a: u8,
}

impl Color {
    /// The byte this color writes at channel offset `k` of a pixel.
    pub open spec fn channel(self, k: int) -> u8 {
        if k == 0 {
            self.r
        } else if k == 1 {
            self.g
        } else if k == 2 {
            self.b
        } else {
            self.a
        }
    }

    pub fn new(r: u8, g: u8, b: u8, a: u8) -> (c: Self)
        ensures
            c == (Color { r, g, b, a }),
    {
        Self { r, g, b, a }
    }

    /// The color as the four bytes of one RGBA pixel.
    pub fn as_list(&self) -> (bytes: [u8; 4])
        ensures
            bytes@ == seq![self.r, self.g, self.b, self.a],
            forall|k: int| 0 <= k < 4 ==> bytes@[k] == self.channel(k),
    {
        let bytes = [self.r, self.g, self.b, self.a];
        proof {
            assert(bytes@ =~= seq![self.r, self.g, self.b, self.a]);
        }
        bytes
    }
}

} // verus!
