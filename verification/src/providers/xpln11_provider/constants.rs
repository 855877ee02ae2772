//! Names for the numbers of the simulator's data output: the index that
//! tells a fragment's group, and within each group the place of each field.
//!
//! Every enumeration here maps its variants to those numbers by `number`, and
//! maps a number back to the variant that carries it, if there is one, by
//! `from_i32`.

use vstd::prelude::*;

verus! {

/// The groups of the simulator's data output that the provider knows, each
/// with the index that its fragment carries.
#[derive(Debug, Clone, Copy, PartialEq, Eq)]
pub enum XPLN11DataReadEnum {
    Frame,
    Speeds,
    MachVviGLoad,
    JoystickYoke,
    PitchRollHeadings,
    AoA,
    MagCompass,
    Gnss,
    ThrottleCmd,
    ThrottleActual,
    N1,
    N2,
    ClimbStats,
}

impl XPLN11DataReadEnum {
    /// The index that a fragment of this group carries.
    pub open spec fn number(self) -> int {
        match self {
            XPLN11DataReadEnum::Frame => 0,
            XPLN11DataReadEnum::Speeds => 3,
            XPLN11DataReadEnum::MachVviGLoad => 4,
            XPLN11DataReadEnum::JoystickYoke => 8,
            XPLN11DataReadEnum::PitchRollHeadings => 17,
            XPLN11DataReadEnum::AoA => 18,
            XPLN11DataReadEnum::MagCompass => 19,
            XPLN11DataReadEnum::Gnss => 20,
            XPLN11DataReadEnum::ThrottleCmd => 25,
            XPLN11DataReadEnum::ThrottleActual => 26,
            XPLN11DataReadEnum::N1 => 41,
            XPLN11DataReadEnum::N2 => 42,
            XPLN11DataReadEnum::ClimbStats => 132,
        }
    }

    pub fn as_i32(self) -> (n: i32)
        ensures
            n == self.number(),
    {
        match self {
            XPLN11DataReadEnum::Frame => 0,
            XPLN11DataReadEnum::Speeds => 3,
            XPLN11DataReadEnum::MachVviGLoad => 4,
            XPLN11DataReadEnum::JoystickYoke => 8,
            XPLN11DataReadEnum::PitchRollHeadings => 17,
            XPLN11DataReadEnum::AoA => 18,
            XPLN11DataReadEnum::MagCompass => 19,
            XPLN11DataReadEnum::Gnss => 20,
            XPLN11DataReadEnum::ThrottleCmd => 25,
            XPLN11DataReadEnum::ThrottleActual => 26,
            XPLN11DataReadEnum::N1 => 41,
            XPLN11DataReadEnum::N2 => 42,
            XPLN11DataReadEnum::ClimbStats => 132,
        }
    }

    pub fn as_isize(self) -> (n: isize)
        ensures
            n == self.number(),
    {
        match self {
            XPLN11DataReadEnum::Frame => 0,
            XPLN11DataReadEnum::Speeds => 3,
            XPLN11DataReadEnum::MachVviGLoad => 4,
            XPLN11DataReadEnum::JoystickYoke => 8,
            XPLN11DataReadEnum::PitchRollHeadings => 17,
            XPLN11DataReadEnum::AoA => 18,
            XPLN11DataReadEnum::MagCompass => 19,
            XPLN11DataReadEnum::Gnss => 20,
            XPLN11DataReadEnum::ThrottleCmd => 25,
            XPLN11DataReadEnum::ThrottleActual => 26,
            XPLN11DataReadEnum::N1 => 41,
            XPLN11DataReadEnum::N2 => 42,
            XPLN11DataReadEnum::ClimbStats => 132,
        }
    }

    /// The variant whose number is `n`, if there is one.
    pub fn from_i32(n: i32) -> (found: Option<Self>)
        ensures
            found matches Some(variant) ==> variant.number() == n,
            found is None ==> forall|variant: XPLN11DataReadEnum| variant.number() != n,
    {
        if n == 0 {
            Some(XPLN11DataReadEnum::Frame)
        } else if n == 3 {
            Some(XPLN11DataReadEnum::Speeds)
        } else if n == 4 {
            Some(XPLN11DataReadEnum::MachVviGLoad)
        } else if n == 8 {
            Some(XPLN11DataReadEnum::JoystickYoke)
        } else if n == 17 {
            Some(XPLN11DataReadEnum::PitchRollHeadings)
        } else if n == 18 {
            Some(XPLN11DataReadEnum::AoA)
        } else if n == 19 {
            Some(XPLN11DataReadEnum::MagCompass)
        } else if n == 20 {
            Some(XPLN11DataReadEnum::Gnss)
        } else if n == 25 {
            Some(XPLN11DataReadEnum::ThrottleCmd)
        } else if n == 26 {
            Some(XPLN11DataReadEnum::ThrottleActual)
        } else if n == 41 {
            Some(XPLN11DataReadEnum::N1)
        } else if n == 42 {
            Some(XPLN11DataReadEnum::N2)
        } else if n == 132 {
            Some(XPLN11DataReadEnum::ClimbStats)
        } else {
            None
        }
    }
}

/// Fields of the frame-rate group.
#[derive(Debug, Clone, Copy, PartialEq, Eq)]
pub enum FrameEnum {
    FAct,
    Fsim,
    Frame,
    Cpu1,
    Cpu2,
    Gnrd,
    Flit,
}

impl FrameEnum {
    /// The place of this field among the eight fields of its group's fragment.
    pub open spec fn number(self) -> int {
        match self {
            FrameEnum::FAct => 0,
            FrameEnum::Fsim => 1,
            FrameEnum::Frame => 3,
            FrameEnum::Cpu1 => 4,
            FrameEnum::Cpu2 => 5,
            FrameEnum::Gnrd => 6,
            FrameEnum::Flit => 7,
        }
    }

    pub fn as_i32(self) -> (n: i32)
        ensures
            n == self.number(),
    {
        match self {
            FrameEnum::FAct => 0,
            FrameEnum::Fsim => 1,
            FrameEnum::Frame => 3,
            FrameEnum::Cpu1 => 4,
            FrameEnum::Cpu2 => 5,
            FrameEnum::Gnrd => 6,
            FrameEnum::Flit => 7,
        }
    }

    pub fn as_isize(self) -> (n: isize)
        ensures
            n == self.number(),
    {
        match self {
            FrameEnum::FAct => 0,
            FrameEnum::Fsim => 1,
            FrameEnum::Frame => 3,
            FrameEnum::Cpu1 => 4,
            FrameEnum::Cpu2 => 5,
            FrameEnum::Gnrd => 6,
            FrameEnum::Flit => 7,
        }
    }

    /// The variant whose number is `n`, if there is one.
    pub fn from_i32(n: i32) -> (found: Option<Self>)
        ensures
            found matches Some(variant) ==> variant.number() == n,
            found is None ==> forall|variant: FrameEnum| variant.number() != n,
    {
        if n == 0 {
            Some(FrameEnum::FAct)
        } else if n == 1 {
            Some(FrameEnum::Fsim)
        } else if n == 3 {
            Some(FrameEnum::Frame)
        } else if n == 4 {
            Some(FrameEnum::Cpu1)
        } else if n == 5 {
            Some(FrameEnum::Cpu2)
        } else if n == 6 {
            Some(FrameEnum::Gnrd)
        } else if n == 7 {
            Some(FrameEnum::Flit)
        } else {
            None
        }
    }
}

/// Fields of the speeds group.
#[derive(Debug, Clone, Copy, PartialEq, Eq)]
pub enum SpeedsEnum {
    Kias,
    Keas,
    Ktas,
    Ktgs,
    VindMph,
    VTrueMphas,
}

impl SpeedsEnum {
    /// The place of this field among the eight fields of its group's fragment.
    pub open spec fn number(self) -> int {
        match self {
            SpeedsEnum::Kias => 0,
            SpeedsEnum::Keas => 1,
            SpeedsEnum::Ktas => 2,
            SpeedsEnum::Ktgs => 3,
            SpeedsEnum::VindMph => 5,
            SpeedsEnum::VTrueMphas => 6,
        }
    }

    pub fn as_i32(self) -> (n: i32)
        ensures
            n == self.number(),
    {
        match self {
            SpeedsEnum::Kias => 0,
            SpeedsEnum::Keas => 1,
            SpeedsEnum::Ktas => 2,
            SpeedsEnum::Ktgs => 3,
            SpeedsEnum::VindMph => 5,
            SpeedsEnum::VTrueMphas => 6,
        }
    }

    pub fn as_isize(self) -> (n: isize)
        ensures
            n == self.number(),
    {
        match self {
            SpeedsEnum::Kias => 0,
            SpeedsEnum::Keas => 1,
            SpeedsEnum::Ktas => 2,
            SpeedsEnum::Ktgs => 3,
            SpeedsEnum::VindMph => 5,
            SpeedsEnum::VTrueMphas => 6,
        }
    }

    /// The variant whose number is `n`, if there is one.
    pub fn from_i32(n: i32) -> (found: Option<Self>)
        ensures
            found matches Some(variant) ==> variant.number() == n,
            found is None ==> forall|variant: SpeedsEnum| variant.number() != n,
    {
        if n == 0 {
            Some(SpeedsEnum::Kias)
        } else if n == 1 {
            Some(SpeedsEnum::Keas)
        } else if n == 2 {
            Some(SpeedsEnum::Ktas)
        } else if n == 3 {
            Some(SpeedsEnum::Ktgs)
        } else if n == 5 {
            Some(SpeedsEnum::VindMph)
        } else if n == 6 {
            Some(SpeedsEnum::VTrueMphas)
        } else {
            None
        }
    }
}

/// Fields of the Mach, vertical speed and load factor group.
#[derive(Debug, Clone, Copy, PartialEq, Eq)]
pub enum MachVVIGloadEnum {
    Mach,
    Vvi,
    GloadNorm,
    GloadAxial,
    GloadSide,
}

impl MachVVIGloadEnum {
    /// The place of this field among the eight fields of its group's fragment.
    pub open spec fn number(self) -> int {
        match self {
            MachVVIGloadEnum::Mach => 0,
            MachVVIGloadEnum::Vvi => 2,
            MachVVIGloadEnum::GloadNorm => 4,
            MachVVIGloadEnum::GloadAxial => 5,
            MachVVIGloadEnum::GloadSide => 6,
        }
    }

    pub fn as_i32(self) -> (n: i32)
        ensures
            n == self.number(),
    {
        match self {
            MachVVIGloadEnum::Mach => 0,
            MachVVIGloadEnum::Vvi => 2,
            MachVVIGloadEnum::GloadNorm => 4,
            MachVVIGloadEnum::GloadAxial => 5,
            MachVVIGloadEnum::GloadSide => 6,
        }
    }

    pub fn as_isize(self) -> (n: isize)
        ensures
            n == self.number(),
    {
        match self {
            MachVVIGloadEnum::Mach => 0,
            MachVVIGloadEnum::Vvi => 2,
            MachVVIGloadEnum::GloadNorm => 4,
            MachVVIGloadEnum::GloadAxial => 5,
            MachVVIGloadEnum::GloadSide => 6,
        }
    }

    /// The variant whose number is `n`, if there is one.
    pub fn from_i32(n: i32) -> (found: Option<Self>)
        ensures
            found matches Some(variant) ==> variant.number() == n,
            found is None ==> forall|variant: MachVVIGloadEnum| variant.number() != n,
    {
        if n == 0 {
            Some(MachVVIGloadEnum::Mach)
        } else if n == 2 {
            Some(MachVVIGloadEnum::Vvi)
        } else if n == 4 {
            Some(MachVVIGloadEnum::GloadNorm)
        } else if n == 5 {
            Some(MachVVIGloadEnum::GloadAxial)
        } else if n == 6 {
            Some(MachVVIGloadEnum::GloadSide)
        } else {
            None
        }
    }
}

/// Fields of the yoke group.
#[derive(Debug, Clone, Copy, PartialEq, Eq)]
pub enum JoystickYokeEnum {
    Elevator,
    Ailerons,
    Rudder,
}

impl JoystickYokeEnum {
    /// The place of this field among the eight fields of its group's fragment.
    pub open spec fn number(self) -> int {
        match self {
            JoystickYokeEnum::Elevator => 0,
            JoystickYokeEnum::Ailerons => 1,
            JoystickYokeEnum::Rudder => 2,
        }
    }

    pub fn as_i32(self) -> (n: i32)
        ensures
            n == self.number(),
    {
        match self {
            JoystickYokeEnum::Elevator => 0,
            JoystickYokeEnum::Ailerons => 1,
            JoystickYokeEnum::Rudder => 2,
        }
    }

    pub fn as_isize(self) -> (n: isize)
        ensures
            n == self.number(),
    {
        match self {
            JoystickYokeEnum::Elevator => 0,
            JoystickYokeEnum::Ailerons => 1,
            JoystickYokeEnum::Rudder => 2,
        }
    }

    /// The variant whose number is `n`, if there is one.
    pub fn from_i32(n: i32) -> (found: Option<Self>)
        ensures
            found matches Some(variant) ==> variant.number() == n,
            found is None ==> forall|variant: JoystickYokeEnum| variant.number() != n,
    {
        if n == 0 {
            Some(JoystickYokeEnum::Elevator)
        } else if n == 1 {
            Some(JoystickYokeEnum::Ailerons)
        } else if n == 2 {
            Some(JoystickYokeEnum::Rudder)
        } else {
            None
        }
    }
}

/// Fields of the attitude group.
#[derive(Debug, Clone, Copy, PartialEq, Eq)]
pub enum PitchRollHeadingsEnum {
    Pitch,
    Roll,
    Heading,
    HeadingMag,
}

impl PitchRollHeadingsEnum {
    /// The place of this field among the eight fields of its group's fragment.
    pub open spec fn number(self) -> int {
        match self {
            PitchRollHeadingsEnum::Pitch => 0,
            PitchRollHeadingsEnum::Roll => 1,
            PitchRollHeadingsEnum::Heading => 2,
            PitchRollHeadingsEnum::HeadingMag => 3,
        }
    }

    pub fn as_i32(self) -> (n: i32)
        ensures
            n == self.number(),
    {
        match self {
            PitchRollHeadingsEnum::Pitch => 0,
            PitchRollHeadingsEnum::Roll => 1,
            PitchRollHeadingsEnum::Heading => 2,
            PitchRollHeadingsEnum::HeadingMag => 3,
        }
    }

    pub fn as_isize(self) -> (n: isize)
        ensures
            n == self.number(),
    {
        match self {
            PitchRollHeadingsEnum::Pitch => 0,
            PitchRollHeadingsEnum::Roll => 1,
            PitchRollHeadingsEnum::Heading => 2,
            PitchRollHeadingsEnum::HeadingMag => 3,
        }
    }

    /// The variant whose number is `n`, if there is one.
    pub fn from_i32(n: i32) -> (found: Option<Self>)
        ensures
            found matches Some(variant) ==> variant.number() == n,
            found is None ==> forall|variant: PitchRollHeadingsEnum| variant.number() != n,
    {
        if n == 0 {
            Some(PitchRollHeadingsEnum::Pitch)
        } else if n == 1 {
            Some(PitchRollHeadingsEnum::Roll)
        } else if n == 2 {
            Some(PitchRollHeadingsEnum::Heading)
        } else if n == 3 {
            Some(PitchRollHeadingsEnum::HeadingMag)
        } else {
            None
        }
    }
}

/// Fields of the angle of attack group.
#[derive(Debug, Clone, Copy, PartialEq, Eq)]
pub enum AoAEnum {
    Alpha,
    Beta,
    Hpath,
    Vpath,
    Slip,
}

impl AoAEnum {
    /// The place of this field among the eight fields of its group's fragment.
    pub open spec fn number(self) -> int {
        match self {
            AoAEnum::Alpha => 0,
            AoAEnum::Beta => 1,
            AoAEnum::Hpath => 2,
            AoAEnum::Vpath => 3,
            AoAEnum::Slip => 7,
        }
    }

    pub fn as_i32(self) -> (n: i32)
        ensures
            n == self.number(),
    {
        match self {
            AoAEnum::Alpha => 0,
            AoAEnum::Beta => 1,
            AoAEnum::Hpath => 2,
            AoAEnum::Vpath => 3,
            AoAEnum::Slip => 7,
        }
    }

    pub fn as_isize(self) -> (n: isize)
        ensures
            n == self.number(),
    {
        match self {
            AoAEnum::Alpha => 0,
            AoAEnum::Beta => 1,
            AoAEnum::Hpath => 2,
            AoAEnum::Vpath => 3,
            AoAEnum::Slip => 7,
        }
    }

    /// The variant whose number is `n`, if there is one.
    pub fn from_i32(n: i32) -> (found: Option<Self>)
        ensures
            found matches Some(variant) ==> variant.number() == n,
            found is None ==> forall|variant: AoAEnum| variant.number() != n,
    {
        if n == 0 {
            Some(AoAEnum::Alpha)
        } else if n == 1 {
            Some(AoAEnum::Beta)
        } else if n == 2 {
            Some(AoAEnum::Hpath)
        } else if n == 3 {
            Some(AoAEnum::Vpath)
        } else if n == 7 {
            Some(AoAEnum::Slip)
        } else {
            None
        }
    }
}

/// Fields of the magnetic compass group.
#[derive(Debug, Clone, Copy, PartialEq, Eq)]
pub enum MagCompassEnum {
    Mag,
    Mavar,
}

impl MagCompassEnum {
    /// The place of this field among the eight fields of its group's fragment.
    pub open spec fn number(self) -> int {
        match self {
            MagCompassEnum::Mag => 0,
            MagCompassEnum::Mavar => 1,
        }
    }

    pub fn as_i32(self) -> (n: i32)
        ensures
            n == self.number(),
    {
        match self {
            MagCompassEnum::Mag => 0,
            MagCompassEnum::Mavar => 1,
        }
    }

    pub fn as_isize(self) -> (n: isize)
        ensures
            n == self.number(),
    {
        match self {
            MagCompassEnum::Mag => 0,
            MagCompassEnum::Mavar => 1,
        }
    }

    /// The variant whose number is `n`, if there is one.
    pub fn from_i32(n: i32) -> (found: Option<Self>)
        ensures
            found matches Some(variant) ==> variant.number() == n,
            found is None ==> forall|variant: MagCompassEnum| variant.number() != n,
    {
        if n == 0 {
            Some(MagCompassEnum::Mag)
        } else if n == 1 {
            Some(MagCompassEnum::Mavar)
        } else {
            None
        }
    }
}

/// Fields of the position group. `AltitudeFtMSL` is the altitude above mean
/// sea level, `AltitudeFtAGL` the altitude above ground.
#[derive(Debug, Clone, Copy, PartialEq, Eq)]
pub enum GnssEnum {
    LatitudeDeg,
    LongitudeDeg,
    AltitudeFtMSL,
    AltitudeFtAGL,
    OnRnwy,
    AltitudeInd,
    LatitudeOrigin,
    LongitudeOrigin,
}

impl GnssEnum {
    /// The place of this field among the eight fields of its group's fragment.
    pub open spec fn number(self) -> int {
        match self {
            GnssEnum::LatitudeDeg => 0,
            GnssEnum::LongitudeDeg => 1,
            GnssEnum::AltitudeFtMSL => 2,
            GnssEnum::AltitudeFtAGL => 3,
            GnssEnum::OnRnwy => 4,
            GnssEnum::AltitudeInd => 5,
            GnssEnum::LatitudeOrigin => 6,
            GnssEnum::LongitudeOrigin => 7,
        }
    }

    pub fn as_i32(self) -> (n: i32)
        ensures
            n == self.number(),
    {
        match self {
            GnssEnum::LatitudeDeg => 0,
            GnssEnum::LongitudeDeg => 1,
            GnssEnum::AltitudeFtMSL => 2,
            GnssEnum::AltitudeFtAGL => 3,
            GnssEnum::OnRnwy => 4,
            GnssEnum::AltitudeInd => 5,
            GnssEnum::LatitudeOrigin => 6,
            GnssEnum::LongitudeOrigin => 7,
        }
    }

    pub fn as_isize(self) -> (n: isize)
        ensures
            n == self.number(),
    {
        match self {
            GnssEnum::LatitudeDeg => 0,
            GnssEnum::LongitudeDeg => 1,
            GnssEnum::AltitudeFtMSL => 2,
            GnssEnum::AltitudeFtAGL => 3,
            GnssEnum::OnRnwy => 4,
            GnssEnum::AltitudeInd => 5,
            GnssEnum::LatitudeOrigin => 6,
            GnssEnum::LongitudeOrigin => 7,
        }
    }

    /// The variant whose number is `n`, if there is one.
    pub fn from_i32(n: i32) -> (found: Option<Self>)
        ensures
            found matches Some(variant) ==> variant.number() == n,
            found is None ==> forall|variant: GnssEnum| variant.number() != n,
    {
        if n == 0 {
            Some(GnssEnum::LatitudeDeg)
        } else if n == 1 {
            Some(GnssEnum::LongitudeDeg)
        } else if n == 2 {
            Some(GnssEnum::AltitudeFtMSL)
        } else if n == 3 {
            Some(GnssEnum::AltitudeFtAGL)
        } else if n == 4 {
            Some(GnssEnum::OnRnwy)
        } else if n == 5 {
            Some(GnssEnum::AltitudeInd)
        } else if n == 6 {
            Some(GnssEnum::LatitudeOrigin)
        } else if n == 7 {
            Some(GnssEnum::LongitudeOrigin)
        } else {
            None
        }
    }
}

/// Fields of the commanded throttle group.
#[derive(Debug, Clone, Copy, PartialEq, Eq)]
pub enum ThrottleCmdEnum {
    Thro1,
    Thro2,
}

impl ThrottleCmdEnum {
    /// The place of this field among the eight fields of its group's fragment.
    pub open spec fn number(self) -> int {
        match self {
            ThrottleCmdEnum::Thro1 => 0,
            ThrottleCmdEnum::Thro2 => 1,
        }
    }

    pub fn as_i32(self) -> (n: i32)
        ensures
            n == self.number(),
    {
        match self {
            ThrottleCmdEnum::Thro1 => 0,
            ThrottleCmdEnum::Thro2 => 1,
        }
    }

    pub fn as_isize(self) -> (n: isize)
        ensures
            n == self.number(),
    {
        match self {
            ThrottleCmdEnum::Thro1 => 0,
            ThrottleCmdEnum::Thro2 => 1,
        }
    }

    /// The variant whose number is `n`, if there is one.
    pub fn from_i32(n: i32) -> (found: Option<Self>)
        ensures
            found matches Some(variant) ==> variant.number() == n,
            found is None ==> forall|variant: ThrottleCmdEnum| variant.number() != n,
    {
        if n == 0 {
            Some(ThrottleCmdEnum::Thro1)
        } else if n == 1 {
            Some(ThrottleCmdEnum::Thro2)
        } else {
            None
        }
    }
}

/// Fields of the actual throttle group.
#[derive(Debug, Clone, Copy, PartialEq, Eq)]
pub enum ThrottleActualEnum {
    Thro1,
    Thro2,
}

impl ThrottleActualEnum {
    /// The place of this field among the eight fields of its group's fragment.
    pub open spec fn number(self) -> int {
        match self {
            ThrottleActualEnum::Thro1 => 0,
            ThrottleActualEnum::Thro2 => 1,
        }
    }

    pub fn as_i32(self) -> (n: i32)
        ensures
            n == self.number(),
    {
        match self {
            ThrottleActualEnum::Thro1 => 0,
            ThrottleActualEnum::Thro2 => 1,
        }
    }

    pub fn as_isize(self) -> (n: isize)
        ensures
            n == self.number(),
    {
        match self {
            ThrottleActualEnum::Thro1 => 0,
            ThrottleActualEnum::Thro2 => 1,
        }
    }

    /// The variant whose number is `n`, if there is one.
    pub fn from_i32(n: i32) -> (found: Option<Self>)
        ensures
            found matches Some(variant) ==> variant.number() == n,
            found is None ==> forall|variant: ThrottleActualEnum| variant.number() != n,
    {
        if n == 0 {
            Some(ThrottleActualEnum::Thro1)
        } else if n == 1 {
            Some(ThrottleActualEnum::Thro2)
        } else {
            None
        }
    }
}

/// Fields of the N1 group.
#[derive(Debug, Clone, Copy, PartialEq, Eq)]
pub enum N1Enum {
    N11,
    N12,
}

impl N1Enum {
    /// The place of this field among the eight fields of its group's fragment.
    pub open spec fn number(self) -> int {
        match self {
            N1Enum::N11 => 0,
            N1Enum::N12 => 1,
        }
    }

    pub fn as_i32(self) -> (n: i32)
        ensures
            n == self.number(),
    {
        match self {
            N1Enum::N11 => 0,
            N1Enum::N12 => 1,
        }
    }

    pub fn as_isize(self) -> (n: isize)
        ensures
            n == self.number(),
    {
        match self {
            N1Enum::N11 => 0,
            N1Enum::N12 => 1,
        }
    }

    /// The variant whose number is `n`, if there is one.
    pub fn from_i32(n: i32) -> (found: Option<Self>)
        ensures
            found matches Some(variant) ==> variant.number() == n,
            found is None ==> forall|variant: N1Enum| variant.number() != n,
    {
        if n == 0 {
            Some(N1Enum::N11)
        } else if n == 1 {
            Some(N1Enum::N12)
        } else {
            None
        }
    }
}

/// Fields of the N2 group.
#[derive(Debug, Clone, Copy, PartialEq, Eq)]
pub enum N2Enum {
    N21,
    N22,
}

impl N2Enum {
    /// The place of this field among the eight fields of its group's fragment.
    pub open spec fn number(self) -> int {
        match self {
            N2Enum::N21 => 0,
            N2Enum::N22 => 1,
        }
    }

    pub fn as_i32(self) -> (n: i32)
        ensures
            n == self.number(),
    {
        match self {
            N2Enum::N21 => 0,
            N2Enum::N22 => 1,
        }
    }

    pub fn as_isize(self) -> (n: isize)
        ensures
            n == self.number(),
    {
        match self {
            N2Enum::N21 => 0,
            N2Enum::N22 => 1,
        }
    }

    /// The variant whose number is `n`, if there is one.
    pub fn from_i32(n: i32) -> (found: Option<Self>)
        ensures
            found matches Some(variant) ==> variant.number() == n,
            found is None ==> forall|variant: N2Enum| variant.number() != n,
    {
        if n == 0 {
            Some(N2Enum::N21)
        } else if n == 1 {
            Some(N2Enum::N22)
        } else {
            None
        }
    }
}

/// Fields of the climb statistics group.
#[derive(Debug, Clone, Copy, PartialEq, Eq)]
pub enum ClimbStatsEnum {
    HSpd,
    VSpd,
    Mult,
}

impl ClimbStatsEnum {
    /// The place of this field among the eight fields of its group's fragment.
    pub open spec fn number(self) -> int {
        match self {
            ClimbStatsEnum::HSpd => 0,
            ClimbStatsEnum::VSpd => 1,
            ClimbStatsEnum::Mult => 3,
        }
    }

    pub fn as_i32(self) -> (n: i32)
        ensures
            n == self.number(),
    {
        match self {
            ClimbStatsEnum::HSpd => 0,
            ClimbStatsEnum::VSpd => 1,
            ClimbStatsEnum::Mult => 3,
        }
    }

    pub fn as_isize(self) -> (n: isize)
        ensures
            n == self.number(),
    {
        match self {
            ClimbStatsEnum::HSpd => 0,
            ClimbStatsEnum::VSpd => 1,
            ClimbStatsEnum::Mult => 3,
        }
    }

    /// The variant whose number is `n`, if there is one.
    pub fn from_i32(n: i32) -> (found: Option<Self>)
        ensures
            found matches Some(variant) ==> variant.number() == n,
            found is None ==> forall|variant: ClimbStatsEnum| variant.number() != n,
    {
        if n == 0 {
            Some(ClimbStatsEnum::HSpd)
        } else if n == 1 {
            Some(ClimbStatsEnum::VSpd)
        } else if n == 3 {
            Some(ClimbStatsEnum::Mult)
        } else {
            None
        }
    }
}

} // verus!
