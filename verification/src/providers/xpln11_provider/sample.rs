//! From the fragments of one datagram to one sample of the sensors.
//!
//! Each quantity of the sample is owned by one field of one group:
//!
//! | Quantity             | Group               | Field |
//! |----------------------|---------------------|-------|
//! | indicated airspeed   | speeds              | 0     |
//! | Mach number          | Mach, VVI, g-load   | 0     |
//! | load factor          | Mach, VVI, g-load   | 4     |
//! | pitch, roll, yaw     | pitch, roll, headings | 0, 1, 2 |
//! | angle of attack      | angle of attack     | 0     |
//! | heading              | magnetic compass    | 0     |
//! | altitude above sea level, above ground | position | 2, 3 |
//! | vertical speed       | climb statistics    | 1     |
//!
//! A sample is built from one datagram alone. A quantity whose group the
//! datagram does not hold is unset in the sample, whatever an earlier datagram
//! reported. Fragments of other groups, and of indices that name no group, are
//! passed over.

use crate::providers::xpln11_provider::constants::AoAEnum;
use crate::providers::xpln11_provider::constants::ClimbStatsEnum;
use crate::providers::xpln11_provider::constants::GnssEnum;
use crate::providers::xpln11_provider::constants::MachVVIGloadEnum;
use crate::providers::xpln11_provider::constants::MagCompassEnum;
use crate::providers::xpln11_provider::constants::PitchRollHeadingsEnum;
use crate::providers::xpln11_provider::constants::SpeedsEnum;
use crate::providers::xpln11_provider::constants::XPLN11DataReadEnum;
use crate::providers::xpln11_provider::datagram::by_index;
use crate::providers::xpln11_provider::datagram::decoded;
use crate::providers::xpln11_provider::datagram::fragment_at;
use crate::providers::xpln11_provider::datagram::frame_fragments;
use crate::providers::xpln11_provider::datagram::int_at;
use crate::providers::xpln11_provider::datagram::word_at;
use crate::providers::xpln11_provider::datagram::DecodeError;
use crate::providers::xpln11_provider::datagram::XPLN11UDPDataFragment;
use crate::providers::xpln11_provider::datagram::XPLN11UDPDataMessage;
use crate::sensors::AcquireError;
use crate::sensors::SensorsValues;
use crate::sensors::UNSET;
use vstd::prelude::*;

verus! {

/// The word that `fragments` report for the field at `place` of `group`:
/// that field of the group's fragment, and `UNSET` where the group has none.
pub open spec fn reading(
    fragments: Map<i32, XPLN11UDPDataFragment>,
    group: XPLN11DataReadEnum,
    place: int,
) -> u32 {
    if fragments.contains_key(group.number() as i32) {
        fragments[group.number() as i32].field(place)
    } else {
        UNSET
    }
}

/// The sample that `fragments` report. Each quantity is read from one field of
/// one group; no quantity depends on any other group, and a fragment of a
/// group that owns no quantity changes nothing.
pub open spec fn sample(fragments: Map<i32, XPLN11UDPDataFragment>) -> SensorsValues {
    SensorsValues {
        ias: reading(fragments, XPLN11DataReadEnum::Speeds, SpeedsEnum::Kias.number()),
        alt_msl: reading(fragments, XPLN11DataReadEnum::Gnss, GnssEnum::AltitudeFtMSL.number()),
        alt_agl: reading(fragments, XPLN11DataReadEnum::Gnss, GnssEnum::AltitudeFtAGL.number()),
        heading: reading(fragments, XPLN11DataReadEnum::MagCompass, MagCompassEnum::Mag.number()),
        vs: reading(fragments, XPLN11DataReadEnum::ClimbStats, ClimbStatsEnum::VSpd.number()),
        aoa: reading(fragments, XPLN11DataReadEnum::AoA, AoAEnum::Alpha.number()),
        mach: reading(fragments, XPLN11DataReadEnum::MachVviGLoad, MachVVIGloadEnum::Mach.number()),
        g_load: reading(
            fragments,
            XPLN11DataReadEnum::MachVviGLoad,
            MachVVIGloadEnum::GloadNorm.number(),
        ),
        pitch: reading(
            fragments,
            XPLN11DataReadEnum::PitchRollHeadings,
            PitchRollHeadingsEnum::Pitch.number(),
        ),
        roll: reading(
            fragments,
            XPLN11DataReadEnum::PitchRollHeadings,
            PitchRollHeadingsEnum::Roll.number(),
        ),
        yaw: reading(
            fragments,
            XPLN11DataReadEnum::PitchRollHeadings,
            PitchRollHeadingsEnum::Heading.number(),
        ),
    }
}

/// The sample after one fragment was written into it: the quantities that
/// the fragment's group owns hold the fragment's fields, every other quantity
/// is as before, and a fragment of a group that owns none changes nothing.
pub open spec fn written(values: SensorsValues, fragment: XPLN11UDPDataFragment)
    -> SensorsValues {
    if fragment.index == XPLN11DataReadEnum::Speeds.number() {
        SensorsValues { ias: fragment.data1, ..values }
    } else if fragment.index == XPLN11DataReadEnum::MachVviGLoad.number() {
        SensorsValues { mach: fragment.data1, g_load: fragment.data5, ..values }
    } else if fragment.index == XPLN11DataReadEnum::PitchRollHeadings.number() {
        SensorsValues {
            pitch: fragment.data1,
            roll: fragment.data2,
            yaw: fragment.data3,
            ..values
        }
    } else if fragment.index == XPLN11DataReadEnum::AoA.number() {
        SensorsValues { aoa: fragment.data1, ..values }
    } else if fragment.index == XPLN11DataReadEnum::MagCompass.number() {
        SensorsValues { heading: fragment.data1, ..values }
    } else if fragment.index == XPLN11DataReadEnum::Gnss.number() {
        SensorsValues { alt_msl: fragment.data3, alt_agl: fragment.data4, ..values }
    } else if fragment.index == XPLN11DataReadEnum::ClimbStats.number() {
        SensorsValues { vs: fragment.data2, ..values }
    } else {
        values
    }
}

/// The sample after some fragments were written, in their order, into one in
/// which nothing is set.
pub open spec fn written_all(fragments: Seq<XPLN11UDPDataFragment>) -> SensorsValues
    decreases fragments.len(),
{
    if fragments.len() == 0 {
        SensorsValues::unset()
    } else {
        written(written_all(fragments.drop_last()), fragments.last())
    }
}

/// A fragment that joins the decoded map writes exactly the quantities that
/// its group owns.
pub proof fn lemma_sample_of_insert(
    fragments: Map<i32, XPLN11UDPDataFragment>,
    fragment: XPLN11UDPDataFragment,
)
    ensures
        sample(fragments.insert(fragment.index, fragment)) == written(sample(fragments), fragment),
{
}

/// The sample of a datagram's fragments is what writing them one by one
/// leaves: nothing is carried over from an earlier datagram, and of two
/// fragments of one group the later one counts.
pub proof fn lemma_sample_is_written(fragments: Seq<XPLN11UDPDataFragment>)
    ensures
        sample(by_index(fragments)) == written_all(fragments),
    decreases fragments.len(),
{
    if fragments.len() > 0 {
        lemma_sample_is_written(fragments.drop_last());
        lemma_sample_of_insert(by_index(fragments.drop_last()), fragments.last());
    }
}

/// Fragments of which only the one of the speeds group is present set the
/// indicated airspeed and leave every other quantity unset.
pub proof fn lemma_speeds_only(fragments: Map<i32, XPLN11UDPDataFragment>)
    requires
        forall|index: i32|
            fragments.contains_key(index) <==> index == XPLN11DataReadEnum::Speeds.number(),
    ensures
        sample(fragments) == (SensorsValues {
            ias: fragments[XPLN11DataReadEnum::Speeds.number() as i32].data1,
            ..SensorsValues::unset()
        }),
{
}

/// A datagram of 41 bytes whose one fragment is of the speeds group yields a
/// sample whose indicated airspeed is the word of the fragment's first field,
/// bit for bit, and in which every other quantity is unset: none takes a
/// value from the fragment's other fields.
pub proof fn lemma_speeds_frame_acquired(frame: Seq<u8>)
    requires
        frame.len() == 41,
        int_at(frame, 5) == XPLN11DataReadEnum::Speeds.number(),
    ensures
        acquired(frame) == Ok::<SensorsValues, AcquireError>(
            SensorsValues { ias: word_at(frame, 9), ..SensorsValues::unset() },
        ),
{
    let fragments = frame_fragments(frame);
    assert(fragments =~= seq![fragment_at(frame, 5)]);
    assert(fragments.drop_last() =~= Seq::<XPLN11UDPDataFragment>::empty());
    reveal_with_fuel(by_index, 3);
    let only = Map::<i32, XPLN11UDPDataFragment>::empty().insert(
        fragment_at(frame, 5).index,
        fragment_at(frame, 5),
    );
    assert(decoded(frame) =~= only);
    lemma_speeds_only(decoded(frame));
}

/// Without fragments nothing is set.
pub proof fn lemma_no_fragments_unset()
    ensures
        sample(Map::<i32, XPLN11UDPDataFragment>::empty()) == SensorsValues::unset(),
{
}

impl XPLN11UDPDataMessage {
    /// Reads the field at `place` of the fragment of `group`.
    pub fn read(&self, group: XPLN11DataReadEnum, place: isize) -> (word: u32)
        ensures
            word == reading(self.data@, group, place as int),
    {
        let index: i32 = group.as_i32();
        match self.data.get(&index) {
            Some(fragment) => fragment.get_data_field(place),
            None => UNSET,
        }
    }

    /// Maps the fragments to one sample of the sensors.
    pub fn sensors_values(&self) -> (values: SensorsValues)
        ensures
            values == sample(self.data@),
    {
        SensorsValues {
            ias: self.read(XPLN11DataReadEnum::Speeds, SpeedsEnum::Kias.as_isize()),
            alt_msl: self.read(XPLN11DataReadEnum::Gnss, GnssEnum::AltitudeFtMSL.as_isize()),
            alt_agl: self.read(XPLN11DataReadEnum::Gnss, GnssEnum::AltitudeFtAGL.as_isize()),
            heading: self.read(XPLN11DataReadEnum::MagCompass, MagCompassEnum::Mag.as_isize()),
            vs: self.read(XPLN11DataReadEnum::ClimbStats, ClimbStatsEnum::VSpd.as_isize()),
            aoa: self.read(XPLN11DataReadEnum::AoA, AoAEnum::Alpha.as_isize()),
            mach: self.read(XPLN11DataReadEnum::MachVviGLoad, MachVVIGloadEnum::Mach.as_isize()),
            g_load: self.read(
                XPLN11DataReadEnum::MachVviGLoad,
                MachVVIGloadEnum::GloadNorm.as_isize(),
            ),
            pitch: self.read(
                XPLN11DataReadEnum::PitchRollHeadings,
                PitchRollHeadingsEnum::Pitch.as_isize(),
            ),
            roll: self.read(
                XPLN11DataReadEnum::PitchRollHeadings,
                PitchRollHeadingsEnum::Roll.as_isize(),
            ),
            yaw: self.read(
                XPLN11DataReadEnum::PitchRollHeadings,
                PitchRollHeadingsEnum::Heading.as_isize(),
            ),
        }
    }
}

/// What one datagram yields: the sample that its fragments report, or the
/// reason why it was not decoded.
pub open spec fn acquired(frame: Seq<u8>) -> Result<SensorsValues, AcquireError> {
    if frame.len() < 9 {
        Err(AcquireError::Frame(DecodeError::TooShort))
    } else {
        Ok(sample(decoded(frame)))
    }
}

} // verus!
