//! The single-byte and multi-byte encodings of the protocol's enumerations.
//! The numbers are fixed by the display firmware and never change.
use vstd::prelude::*;

verus! {

/// What the display shows: scrolling text rows, or pixels drawn directly.
#[derive(Clone, Copy, Debug, PartialEq, Eq, Structural)]
pub enum DisplayMode {
    Text,
    Direct,
}

impl DisplayMode {
    /// The byte that stands for this mode on the wire.
    pub open spec fn spec_byte(self) -> u8 {
        match self {
            DisplayMode::Text => 0,
            DisplayMode::Direct => 1,
        }
    }

    pub fn to_byte(self) -> (r: u8)
        ensures
            r == self.spec_byte(),
    {
        match self {
            DisplayMode::Text => 0,
            DisplayMode::Direct => 1,
        }
    }
}

impl From<DisplayMode> for u8 {
    fn from(mode: DisplayMode) -> (r: u8) {
        mode.to_byte()
    }
}

impl vstd::std_specs::convert::FromSpecImpl<DisplayMode> for u8 {
    open spec fn obeys_from_spec() -> bool {
        true
    }

    open spec fn from_spec(mode: DisplayMode) -> u8 {
        mode.spec_byte()
    }
}

/// The font a text row is drawn with.
#[derive(Clone, Copy, Debug, PartialEq, Eq, Structural)]
pub enum FontType {
    Default,
    Pro,
    Ibm,
}

impl FontType {
    /// The byte that stands for this font on the wire.
    pub open spec fn spec_byte(self) -> u8 {
        match self {
            FontType::Default => 0,
            FontType::Pro => 1,
            FontType::Ibm => 2,
        }
    }

    pub fn to_byte(self) -> (r: u8)
        ensures
            r == self.spec_byte(),
    {
        match self {
            FontType::Default => 0,
            FontType::Pro => 1,
            FontType::Ibm => 2,
        }
    }
}

impl From<FontType> for u8 {
    fn from(font: FontType) -> (r: u8) {
        font.to_byte()
    }
}

impl vstd::std_specs::convert::FromSpecImpl<FontType> for u8 {
    open spec fn obeys_from_spec() -> bool {
        true
    }

    open spec fn from_spec(font: FontType) -> u8 {
        font.spec_byte()
    }
}

/// The way a sliding row moves.
#[derive(Clone, Copy, Debug, PartialEq, Eq, Structural)]
pub enum Direction {
    Left,
    Right,
}

impl Direction {
    /// The byte that stands for this direction on the wire.
    pub open spec fn spec_byte(self) -> u8 {
        match self {
            Direction::Left => 0,
            Direction::Right => 1,
        }
    }

    pub fn to_byte(self) -> (r: u8)
        ensures
            r == self.spec_byte(),
    {
        match self {
            Direction::Left => 0,
            Direction::Right => 1,
        }
    }
}

/// How a text row is animated. The speeds are passed to the display as they are.
#[derive(Clone, Copy, Debug, PartialEq, Eq, Structural)]
pub enum Animation {
    NoAnimation,
    BlinkAnimation(u8),
    SlideAnimation(u8, Direction),
}

impl Animation {
    /// The bytes that stand for this animation on the wire: a tag, then the
    /// parameters of the variant.
    pub open spec fn spec_bytes(self) -> Seq<u8> {
        match self {
            Animation::NoAnimation => seq![0u8],
            Animation::BlinkAnimation(speed) => seq![1u8, speed],
            Animation::SlideAnimation(speed, direction) => seq![2u8, speed, direction.spec_byte()],
        }
    }

    pub fn to_bytes(self) -> (r: Vec<u8>)
        ensures
            r@ == self.spec_bytes(),
            1 <= r@.len() <= 3,
    {
        match self {
            Animation::NoAnimation => vec![0u8],
            Animation::BlinkAnimation(speed) => vec![1u8, speed],
            Animation::SlideAnimation(speed, direction) => vec![2u8, speed, direction.to_byte()],
        }
    }
}

/// Every variant has one code, the same on every call: the table that the
/// display firmware hard-codes.
pub proof fn lemma_variant_codes()
    ensures
        DisplayMode::Text.spec_byte() == 0,
        DisplayMode::Direct.spec_byte() == 1,
        FontType::Default.spec_byte() == 0,
        FontType::Pro.spec_byte() == 1,
        FontType::Ibm.spec_byte() == 2,
        Direction::Left.spec_byte() == 0,
        Direction::Right.spec_byte() == 1,
        forall|speed: u8| (#[trigger] Animation::BlinkAnimation(speed).spec_bytes()) == seq![1u8, speed],
        forall|speed: u8, d: Direction|
            (#[trigger] Animation::SlideAnimation(speed, d).spec_bytes()) == seq![2u8, speed, d.spec_byte()],
        Animation::NoAnimation.spec_bytes() == seq![0u8],
{
}

} // verus!
