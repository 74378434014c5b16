//! The falling-piece kinds and their display colors.

use vstd::prelude::*;

verus! {

/// The seven kinds of falling piece.
#[derive(Debug, Copy, Clone, PartialEq, Eq, Structural)]
pub enum MinoType {
    I,
    L,
    J,
    O,
    T,
    S,
    Z,
}

/// The RGB display color of each piece kind.
pub open spec fn spec_mino_color(mino: MinoType) -> Seq<u8> {
    match mino {
        MinoType::I => seq![0x32u8, 0xC5u8, 0xF5u8],
        MinoType::L => seq![0xFAu8, 0xA2u8, 0x47u8],
        MinoType::J => seq![0x00u8, 0x7Au8, 0xBFu8],
        MinoType::O => seq![0xFEu8, 0xD7u8, 0x1Eu8],
        MinoType::T => seq![0xA0u8, 0x51u8, 0x9Fu8],
        MinoType::S => seq![0x7Bu8, 0xBEu8, 0x44u8],
        MinoType::Z => seq![0xEFu8, 0x4Bu8, 0x39u8],
    }
}

impl MinoType {
    /// The RGB display color of this piece kind.
    pub fn color(&self) -> (result: [u8; 3])
        ensures
            result@ == spec_mino_color(*self),
    {
        let result: [u8; 3] = match self {
            MinoType::I => [0x32, 0xC5, 0xF5],
            MinoType::L => [0xFA, 0xA2, 0x47],
            MinoType::J => [0x00, 0x7A, 0xBF],
            MinoType::O => [0xFE, 0xD7, 0x1E],
            MinoType::T => [0xA0, 0x51, 0x9F],
            MinoType::S => [0x7B, 0xBE, 0x44],
            MinoType::Z => [0xEF, 0x4B, 0x39],
        };
        proof {
            assert(result@ =~= spec_mino_color(*self));
        }
        result
    }
}

} // verus!
