//! The settings of the painter and the kinds of things it draws.
use vstd::prelude::*;
use vstd::std_specs::convert::FromSpecImpl;

verus! {

/// How what is drawn combines with what is there.
#[derive(Debug, Clone, Copy, PartialEq, Eq, PartialOrd, Ord, Structural)]
pub enum BlendMode {
    Clear,
    Src,
    Dst,
    SrcOver,
    DstOver,
    SrcIn,
    DstIn,
    SrcOut,
    DstOut,
    SrcATop,
    DstATop,
    Xor,
    Plus,
    Modulate,
    Screen,
    Overlay,
    Darken,
    Lighten,
    ColorDodge,
    ColorBurn,
    HardLight,
    SoftLight,
    Difference,
    Exclusion,
    Multiply,
    Hue,
    Saturation,
    Color,
    Luminosity,
}

impl BlendMode {
    /// The number that stands for the value in a register.
    pub open spec fn spec_code(self) -> u8 {
        match self {
            BlendMode::Clear => 0,
            BlendMode::Src => 1,
            BlendMode::Dst => 2,
            BlendMode::SrcOver => 3,
            BlendMode::DstOver => 4,
            BlendMode::SrcIn => 5,
            BlendMode::DstIn => 6,
            BlendMode::SrcOut => 7,
            BlendMode::DstOut => 8,
            BlendMode::SrcATop => 9,
            BlendMode::DstATop => 10,
            BlendMode::Xor => 11,
            BlendMode::Plus => 12,
            BlendMode::Modulate => 13,
            BlendMode::Screen => 14,
            BlendMode::Overlay => 15,
            BlendMode::Darken => 16,
            BlendMode::Lighten => 17,
            BlendMode::ColorDodge => 18,
            BlendMode::ColorBurn => 19,
            BlendMode::HardLight => 20,
            BlendMode::SoftLight => 21,
            BlendMode::Difference => 22,
            BlendMode::Exclusion => 23,
            BlendMode::Multiply => 24,
            BlendMode::Hue => 25,
            BlendMode::Saturation => 26,
            BlendMode::Color => 27,
            BlendMode::Luminosity => 28,
        }
    }

    /// The value that a number stands for; a number that stands for none is
    /// `Clear`.
    pub open spec fn decode(value: u8) -> Self {
        if value == 1 {
            BlendMode::Src
        } else if value == 2 {
            BlendMode::Dst
        } else if value == 3 {
            BlendMode::SrcOver
        } else if value == 4 {
            BlendMode::DstOver
        } else if value == 5 {
            BlendMode::SrcIn
        } else if value == 6 {
            BlendMode::DstIn
        } else if value == 7 {
            BlendMode::SrcOut
        } else if value == 8 {
            BlendMode::DstOut
        } else if value == 9 {
            BlendMode::SrcATop
        } else if value == 10 {
            BlendMode::DstATop
        } else if value == 11 {
            BlendMode::Xor
        } else if value == 12 {
            BlendMode::Plus
        } else if value == 13 {
            BlendMode::Modulate
        } else if value == 14 {
            BlendMode::Screen
        } else if value == 15 {
            BlendMode::Overlay
        } else if value == 16 {
            BlendMode::Darken
        } else if value == 17 {
            BlendMode::Lighten
        } else if value == 18 {
            BlendMode::ColorDodge
        } else if value == 19 {
            BlendMode::ColorBurn
        } else if value == 20 {
            BlendMode::HardLight
        } else if value == 21 {
            BlendMode::SoftLight
        } else if value == 22 {
            BlendMode::Difference
        } else if value == 23 {
            BlendMode::Exclusion
        } else if value == 24 {
            BlendMode::Multiply
        } else if value == 25 {
            BlendMode::Hue
        } else if value == 26 {
            BlendMode::Saturation
        } else if value == 27 {
            BlendMode::Color
        } else if value == 28 {
            BlendMode::Luminosity
        } else {
            BlendMode::Clear
        }
    }

    pub fn code(&self) -> (code: u8)
        ensures
            code == self.spec_code(),
    {
        match self {
            BlendMode::Clear => 0,
            BlendMode::Src => 1,
            BlendMode::Dst => 2,
            BlendMode::SrcOver => 3,
            BlendMode::DstOver => 4,
            BlendMode::SrcIn => 5,
            BlendMode::DstIn => 6,
            BlendMode::SrcOut => 7,
            BlendMode::DstOut => 8,
            BlendMode::SrcATop => 9,
            BlendMode::DstATop => 10,
            BlendMode::Xor => 11,
            BlendMode::Plus => 12,
            BlendMode::Modulate => 13,
            BlendMode::Screen => 14,
            BlendMode::Overlay => 15,
            BlendMode::Darken => 16,
            BlendMode::Lighten => 17,
            BlendMode::ColorDodge => 18,
            BlendMode::ColorBurn => 19,
            BlendMode::HardLight => 20,
            BlendMode::SoftLight => 21,
            BlendMode::Difference => 22,
            BlendMode::Exclusion => 23,
            BlendMode::Multiply => 24,
            BlendMode::Hue => 25,
            BlendMode::Saturation => 26,
            BlendMode::Color => 27,
            BlendMode::Luminosity => 28,
        }
    }
}

impl From<u8> for BlendMode {
    fn from(value: u8) -> (decoded: Self) {
        if value == 1 {
            BlendMode::Src
        } else if value == 2 {
            BlendMode::Dst
        } else if value == 3 {
            BlendMode::SrcOver
        } else if value == 4 {
            BlendMode::DstOver
        } else if value == 5 {
            BlendMode::SrcIn
        } else if value == 6 {
            BlendMode::DstIn
        } else if value == 7 {
            BlendMode::SrcOut
        } else if value == 8 {
            BlendMode::DstOut
        } else if value == 9 {
            BlendMode::SrcATop
        } else if value == 10 {
            BlendMode::DstATop
        } else if value == 11 {
            BlendMode::Xor
        } else if value == 12 {
            BlendMode::Plus
        } else if value == 13 {
            BlendMode::Modulate
        } else if value == 14 {
            BlendMode::Screen
        } else if value == 15 {
            BlendMode::Overlay
        } else if value == 16 {
            BlendMode::Darken
        } else if value == 17 {
            BlendMode::Lighten
        } else if value == 18 {
            BlendMode::ColorDodge
        } else if value == 19 {
            BlendMode::ColorBurn
        } else if value == 20 {
            BlendMode::HardLight
        } else if value == 21 {
            BlendMode::SoftLight
        } else if value == 22 {
            BlendMode::Difference
        } else if value == 23 {
            BlendMode::Exclusion
        } else if value == 24 {
            BlendMode::Multiply
        } else if value == 25 {
            BlendMode::Hue
        } else if value == 26 {
            BlendMode::Saturation
        } else if value == 27 {
            BlendMode::Color
        } else if value == 28 {
            BlendMode::Luminosity
        } else {
            BlendMode::Clear
        }
    }
}

impl FromSpecImpl<u8> for BlendMode {
    open spec fn obeys_from_spec() -> bool {
        true
    }

    open spec fn from_spec(value: u8) -> Self {
        BlendMode::decode(value)
    }
}


/// How carefully images are scaled.
#[derive(Debug, Clone, Copy, PartialEq, Eq, PartialOrd, Ord, Structural)]
pub enum FilterQuality {
    Unfiltered,
    Low,
    Medium,
    High,
}

impl FilterQuality {
    /// The number that stands for the value in a register.
    pub open spec fn spec_code(self) -> u8 {
        match self {
            FilterQuality::Unfiltered => 0,
            FilterQuality::Low => 1,
            FilterQuality::Medium => 2,
            FilterQuality::High => 3,
        }
    }

    /// The value that a number stands for; a number that stands for none is
    /// `Unfiltered`.
    pub open spec fn decode(value: u8) -> Self {
        if value == 1 {
            FilterQuality::Low
        } else if value == 2 {
            FilterQuality::Medium
        } else if value == 3 {
            FilterQuality::High
        } else {
            FilterQuality::Unfiltered
        }
    }

    pub fn code(&self) -> (code: u8)
        ensures
            code == self.spec_code(),
    {
        match self {
            FilterQuality::Unfiltered => 0,
            FilterQuality::Low => 1,
            FilterQuality::Medium => 2,
            FilterQuality::High => 3,
        }
    }
}

impl From<u8> for FilterQuality {
    fn from(value: u8) -> (decoded: Self) {
        if value == 1 {
            FilterQuality::Low
        } else if value == 2 {
            FilterQuality::Medium
        } else if value == 3 {
            FilterQuality::High
        } else {
            FilterQuality::Unfiltered
        }
    }
}

impl FromSpecImpl<u8> for FilterQuality {
    open spec fn obeys_from_spec() -> bool {
        true
    }

    open spec fn from_spec(value: u8) -> Self {
        FilterQuality::decode(value)
    }
}


/// How strongly glyphs are fitted to the pixel grid.
#[derive(Debug, Clone, Copy, PartialEq, Eq, PartialOrd, Ord, Structural)]
pub enum HintingLevel {
    NoHinting,
    Slight,
    Normal,
    Full,
}

impl HintingLevel {
    /// The number that stands for the value in a register.
    pub open spec fn spec_code(self) -> u8 {
        match self {
            HintingLevel::NoHinting => 0,
            HintingLevel::Slight => 1,
            HintingLevel::Normal => 2,
            HintingLevel::Full => 3,
        }
    }

    /// The value that a number stands for; a number that stands for none is
    /// `NoHinting`.
    pub open spec fn decode(value: u8) -> Self {
        if value == 1 {
            HintingLevel::Slight
        } else if value == 2 {
            HintingLevel::Normal
        } else if value == 3 {
            HintingLevel::Full
        } else {
            HintingLevel::NoHinting
        }
    }

    pub fn code(&self) -> (code: u8)
        ensures
            code == self.spec_code(),
    {
        match self {
            HintingLevel::NoHinting => 0,
            HintingLevel::Slight => 1,
            HintingLevel::Normal => 2,
            HintingLevel::Full => 3,
        }
    }
}

impl From<u8> for HintingLevel {
    fn from(value: u8) -> (decoded: Self) {
        if value == 1 {
            HintingLevel::Slight
        } else if value == 2 {
            HintingLevel::Normal
        } else if value == 3 {
            HintingLevel::Full
        } else {
            HintingLevel::NoHinting
        }
    }
}

impl FromSpecImpl<u8> for HintingLevel {
    open spec fn obeys_from_spec() -> bool {
        true
    }

    open spec fn from_spec(value: u8) -> Self {
        HintingLevel::decode(value)
    }
}


/// The kinds of objects that the device keeps.
#[derive(Debug, Clone, Copy, PartialEq, Eq, PartialOrd, Ord, Structural)]
pub enum ObjectType {
    Points,
    Vertices,
    Text,
    Typeface,
}

impl ObjectType {
    /// The number that stands for the value in a register.
    pub open spec fn spec_code(self) -> u8 {
        match self {
            ObjectType::Points => 0,
            ObjectType::Vertices => 1,
            ObjectType::Text => 2,
            ObjectType::Typeface => 3,
        }
    }

    /// The value that a number stands for; a number that stands for none is
    /// `Points`.
    pub open spec fn decode(value: u8) -> Self {
        if value == 1 {
            ObjectType::Vertices
        } else if value == 2 {
            ObjectType::Text
        } else if value == 3 {
            ObjectType::Typeface
        } else {
            ObjectType::Points
        }
    }

    pub fn code(&self) -> (code: u8)
        ensures
            code == self.spec_code(),
    {
        match self {
            ObjectType::Points => 0,
            ObjectType::Vertices => 1,
            ObjectType::Text => 2,
            ObjectType::Typeface => 3,
        }
    }
}

impl From<u8> for ObjectType {
    fn from(value: u8) -> (decoded: Self) {
        if value == 1 {
            ObjectType::Vertices
        } else if value == 2 {
            ObjectType::Text
        } else if value == 3 {
            ObjectType::Typeface
        } else {
            ObjectType::Points
        }
    }
}

impl FromSpecImpl<u8> for ObjectType {
    open spec fn obeys_from_spec() -> bool {
        true
    }

    open spec fn from_spec(value: u8) -> Self {
        ObjectType::decode(value)
    }
}


/// Whether shapes are filled, outlined or both.
#[derive(Debug, Clone, Copy, PartialEq, Eq, PartialOrd, Ord, Structural)]
pub enum PainterStyle {
    Fill,
    Stroke,
    StrokeAndFill,
}

impl PainterStyle {
    /// The number that stands for the value in a register.
    pub open spec fn spec_code(self) -> u8 {
        match self {
            PainterStyle::Fill => 0,
            PainterStyle::Stroke => 1,
            PainterStyle::StrokeAndFill => 2,
        }
    }

    /// The value that a number stands for; a number that stands for none is
    /// `Fill`.
    pub open spec fn decode(value: u8) -> Self {
        if value == 1 {
            PainterStyle::Stroke
        } else if value == 2 {
            PainterStyle::StrokeAndFill
        } else {
            PainterStyle::Fill
        }
    }

    pub fn code(&self) -> (code: u8)
        ensures
            code == self.spec_code(),
    {
        match self {
            PainterStyle::Fill => 0,
            PainterStyle::Stroke => 1,
            PainterStyle::StrokeAndFill => 2,
        }
    }
}

impl From<u8> for PainterStyle {
    fn from(value: u8) -> (decoded: Self) {
        if value == 1 {
            PainterStyle::Stroke
        } else if value == 2 {
            PainterStyle::StrokeAndFill
        } else {
            PainterStyle::Fill
        }
    }
}

impl FromSpecImpl<u8> for PainterStyle {
    open spec fn obeys_from_spec() -> bool {
        true
    }

    open spec fn from_spec(value: u8) -> Self {
        PainterStyle::decode(value)
    }
}


/// How a list of points is drawn.
#[derive(Debug, Clone, Copy, PartialEq, Eq, PartialOrd, Ord, Structural)]
pub enum PointMode {
    Points,
    Lines,
    Polygons,
}

impl PointMode {
    /// The number that stands for the value in a register.
    pub open spec fn spec_code(self) -> u8 {
        match self {
            PointMode::Points => 0,
            PointMode::Lines => 1,
            PointMode::Polygons => 2,
        }
    }

    /// The value that a number stands for; a number that stands for none is
    /// `Points`.
    pub open spec fn decode(value: u8) -> Self {
        if value == 1 {
            PointMode::Lines
        } else if value == 2 {
            PointMode::Polygons
        } else {
            PointMode::Points
        }
    }

    pub fn code(&self) -> (code: u8)
        ensures
            code == self.spec_code(),
    {
        match self {
            PointMode::Points => 0,
            PointMode::Lines => 1,
            PointMode::Polygons => 2,
        }
    }
}

impl From<u8> for PointMode {
    fn from(value: u8) -> (decoded: Self) {
        if value == 1 {
            PointMode::Lines
        } else if value == 2 {
            PointMode::Polygons
        } else {
            PointMode::Points
        }
    }
}

impl FromSpecImpl<u8> for PointMode {
    open spec fn obeys_from_spec() -> bool {
        true
    }

    open spec fn from_spec(value: u8) -> Self {
        PointMode::decode(value)
    }
}


/// Where text stands relative to its position.
#[derive(Debug, Clone, Copy, PartialEq, Eq, PartialOrd, Ord, Structural)]
pub enum TextAlign {
    Left,
    Center,
    Right,
}

impl TextAlign {
    /// The number that stands for the value in a register.
    pub open spec fn spec_code(self) -> u8 {
        match self {
            TextAlign::Left => 0,
            TextAlign::Center => 1,
            TextAlign::Right => 2,
        }
    }

    /// The value that a number stands for; a number that stands for none is
    /// `Left`.
    pub open spec fn decode(value: u8) -> Self {
        if value == 1 {
            TextAlign::Center
        } else if value == 2 {
            TextAlign::Right
        } else {
            TextAlign::Left
        }
    }

    pub fn code(&self) -> (code: u8)
        ensures
            code == self.spec_code(),
    {
        match self {
            TextAlign::Left => 0,
            TextAlign::Center => 1,
            TextAlign::Right => 2,
        }
    }
}

impl From<u8> for TextAlign {
    fn from(value: u8) -> (decoded: Self) {
        if value == 1 {
            TextAlign::Center
        } else if value == 2 {
            TextAlign::Right
        } else {
            TextAlign::Left
        }
    }
}

impl FromSpecImpl<u8> for TextAlign {
    open spec fn obeys_from_spec() -> bool {
        true
    }

    open spec fn from_spec(value: u8) -> Self {
        TextAlign::decode(value)
    }
}


} // verus!
