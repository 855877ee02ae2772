use autopilot::providers::xpln11_provider::constants::AoAEnum;
use autopilot::providers::xpln11_provider::constants::ClimbStatsEnum;
use autopilot::providers::xpln11_provider::constants::FrameEnum;
use autopilot::providers::xpln11_provider::constants::GnssEnum;
use autopilot::providers::xpln11_provider::constants::JoystickYokeEnum;
use autopilot::providers::xpln11_provider::constants::MachVVIGloadEnum;
use autopilot::providers::xpln11_provider::constants::MagCompassEnum;
use autopilot::providers::xpln11_provider::constants::N1Enum;
use autopilot::providers::xpln11_provider::constants::N2Enum;
use autopilot::providers::xpln11_provider::constants::PitchRollHeadingsEnum;
use autopilot::providers::xpln11_provider::constants::SpeedsEnum;
use autopilot::providers::xpln11_provider::constants::ThrottleActualEnum;
use autopilot::providers::xpln11_provider::constants::ThrottleCmdEnum;
use autopilot::providers::xpln11_provider::constants::XPLN11DataReadEnum;

#[test]
fn group_indices() {
    assert_eq!(XPLN11DataReadEnum::Frame.as_i32(), 0);
    assert_eq!(XPLN11DataReadEnum::Speeds.as_i32(), 3);
    assert_eq!(XPLN11DataReadEnum::MachVviGLoad.as_i32(), 4);
    assert_eq!(XPLN11DataReadEnum::JoystickYoke.as_i32(), 8);
    assert_eq!(XPLN11DataReadEnum::PitchRollHeadings.as_i32(), 17);
    assert_eq!(XPLN11DataReadEnum::AoA.as_i32(), 18);
    assert_eq!(XPLN11DataReadEnum::MagCompass.as_i32(), 19);
    assert_eq!(XPLN11DataReadEnum::Gnss.as_i32(), 20);
    assert_eq!(XPLN11DataReadEnum::ThrottleCmd.as_i32(), 25);
    assert_eq!(XPLN11DataReadEnum::ThrottleActual.as_i32(), 26);
    assert_eq!(XPLN11DataReadEnum::N1.as_i32(), 41);
    assert_eq!(XPLN11DataReadEnum::N2.as_i32(), 42);
    assert_eq!(XPLN11DataReadEnum::ClimbStats.as_i32(), 132);
}

#[test]
fn group_of_an_index() {
    let mut known = 0;
    for n in -200..200 {
        match XPLN11DataReadEnum::from_i32(n) {
            Some(group) => {
                assert_eq!(group.as_i32(), n);
                assert_eq!(group.as_isize(), n as isize);
                known += 1;
            }
            None => assert!(![0, 3, 4, 8, 17, 18, 19, 20, 25, 26, 41, 42, 132].contains(&n)),
        }
    }
    assert_eq!(known, 13);
    assert_eq!(XPLN11DataReadEnum::from_i32(3), Some(XPLN11DataReadEnum::Speeds));
    assert_eq!(XPLN11DataReadEnum::from_i32(132), Some(XPLN11DataReadEnum::ClimbStats));
    assert_eq!(XPLN11DataReadEnum::from_i32(1), None);
    assert_eq!(XPLN11DataReadEnum::from_i32(i32::MIN), None);
}

#[test]
fn field_places() {
    assert_eq!(FrameEnum::FAct.as_isize(), 0);
    assert_eq!(FrameEnum::Frame.as_isize(), 3);
    assert_eq!(FrameEnum::Flit.as_isize(), 7);
    assert_eq!(SpeedsEnum::Kias.as_isize(), 0);
    assert_eq!(SpeedsEnum::Ktgs.as_isize(), 3);
    assert_eq!(SpeedsEnum::VindMph.as_isize(), 5);
    assert_eq!(SpeedsEnum::VTrueMphas.as_isize(), 6);
    assert_eq!(MachVVIGloadEnum::Mach.as_isize(), 0);
    assert_eq!(MachVVIGloadEnum::Vvi.as_isize(), 2);
    assert_eq!(MachVVIGloadEnum::GloadNorm.as_isize(), 4);
    assert_eq!(MachVVIGloadEnum::GloadSide.as_isize(), 6);
    assert_eq!(JoystickYokeEnum::Rudder.as_isize(), 2);
    assert_eq!(PitchRollHeadingsEnum::Pitch.as_isize(), 0);
    assert_eq!(PitchRollHeadingsEnum::Roll.as_isize(), 1);
    assert_eq!(PitchRollHeadingsEnum::Heading.as_isize(), 2);
    assert_eq!(PitchRollHeadingsEnum::HeadingMag.as_isize(), 3);
    assert_eq!(AoAEnum::Alpha.as_isize(), 0);
    assert_eq!(AoAEnum::Slip.as_isize(), 7);
    assert_eq!(MagCompassEnum::Mag.as_isize(), 0);
    assert_eq!(MagCompassEnum::Mavar.as_isize(), 1);
    assert_eq!(GnssEnum::AltitudeFtMSL.as_isize(), 2);
    assert_eq!(GnssEnum::AltitudeFtAGL.as_isize(), 3);
    assert_eq!(GnssEnum::LongitudeOrigin.as_isize(), 7);
    assert_eq!(ThrottleCmdEnum::Thro2.as_isize(), 1);
    assert_eq!(ThrottleActualEnum::Thro1.as_isize(), 0);
    assert_eq!(N1Enum::N12.as_isize(), 1);
    assert_eq!(N2Enum::N21.as_isize(), 0);
    assert_eq!(ClimbStatsEnum::HSpd.as_isize(), 0);
    assert_eq!(ClimbStatsEnum::VSpd.as_isize(), 1);
    assert_eq!(ClimbStatsEnum::Mult.as_isize(), 3);
}

#[test]
fn field_of_a_place() {
    assert_eq!(SpeedsEnum::from_i32(0), Some(SpeedsEnum::Kias));
    assert_eq!(SpeedsEnum::from_i32(4), None);
    assert_eq!(SpeedsEnum::from_i32(7), None);
    assert_eq!(FrameEnum::from_i32(2), None);
    assert_eq!(FrameEnum::from_i32(3), Some(FrameEnum::Frame));
    assert_eq!(MachVVIGloadEnum::from_i32(1), None);
    assert_eq!(MachVVIGloadEnum::from_i32(4), Some(MachVVIGloadEnum::GloadNorm));
    assert_eq!(AoAEnum::from_i32(7), Some(AoAEnum::Slip));
    assert_eq!(AoAEnum::from_i32(4), None);
    assert_eq!(GnssEnum::from_i32(8), None);
    assert_eq!(GnssEnum::from_i32(-1), None);
    assert_eq!(ClimbStatsEnum::from_i32(2), None);
    assert_eq!(ClimbStatsEnum::from_i32(3), Some(ClimbStatsEnum::Mult));
    for n in 0..8 {
        assert_eq!(GnssEnum::from_i32(n).unwrap().as_i32(), n);
    }
    assert_eq!(JoystickYokeEnum::from_i32(1), Some(JoystickYokeEnum::Ailerons));
    assert_eq!(PitchRollHeadingsEnum::from_i32(3), Some(PitchRollHeadingsEnum::HeadingMag));
    assert_eq!(MagCompassEnum::from_i32(2), None);
    assert_eq!(ThrottleCmdEnum::from_i32(0), Some(ThrottleCmdEnum::Thro1));
    assert_eq!(ThrottleActualEnum::from_i32(1), Some(ThrottleActualEnum::Thro2));
    assert_eq!(N1Enum::from_i32(0), Some(N1Enum::N11));
    assert_eq!(N2Enum::from_i32(1), Some(N2Enum::N22));
}
