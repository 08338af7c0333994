//! The tags of Fujifilm RAF metadata records.

use vstd::prelude::*;
use vstd::std_specs::convert::FromSpecImpl;

verus! {

/// The tag of a RAF metadata record. Codes without a name are kept as `Unknown`.
#[derive(Clone, Copy, Debug, PartialEq, Eq, Structural)]
pub enum RafMetadataTag {
    Unknown(u16),
    SensorDimensions,
    ActiveAreaTopLeft,
    ActiveAreaHeightWidth,
    UnknownDimensions1,
    UnknownDimensions1Inverted,
    ActiveAreaAspectRatio,
    UnknownDimensions2,
    OutputHeightWidth,
    RawInfo,
    CFAPattern,
    ImageSequenceNumber,
    ImageSequenceRelativeExposure,
    ImageSequenceAbsoluteExposure,
    ImageSequenceShutterDuration,
    ImageSequenceApetureRatio,
    ImageSequenceISO,
    WhiteBalancePreset,
    FlashExposureComp,
    MacroMode,
    FocusMode,
    AFMode,
    FocusPixel,
    PrioritySettings,
    FocusSettings,
    AFCSettings,
    ExrMode,
    FujiCropMode,
    ShutterType,
    AutoBracketing,
    SequenceNumber,
    DriveMode,
    SeriesLength,
    PixelShiftOffset,
    FocusWarning,
    DynamicRange,
    FilmMode,
    DynamicRangeSetting,
    DevDynamicRange,
    MinFocalLength,
    MaxFocalLength,
    MaxApertureMinFocal,
    MaxApertureMaxFocal,
    AutoDynamicRange,
    ImageStabilization,
    Rating,
    ImageCount,
    DRangePriority,
    DRangePriorityAuto,
    DRangePriorityFixed,
    FujiModel,
    FujiModel2,
    WhiteBalanceRGB,
    CameraMultiplier,
    RelativeExposure,
    RAWExposureBias,
    UnknownExposureBias,
    OtherData,
    UnknownData,
}

/// The tag that a code names; a code without a name is kept as `Unknown`.
pub open spec fn tag_of(code: u16) -> RafMetadataTag {
    match code {
        0x0100u16 => RafMetadataTag::SensorDimensions,
        0x0110u16 => RafMetadataTag::ActiveAreaTopLeft,
        0x0111u16 => RafMetadataTag::ActiveAreaHeightWidth,
        0x0112u16 => RafMetadataTag::UnknownDimensions1,
        0x0113u16 => RafMetadataTag::UnknownDimensions1Inverted,
        0x0115u16 => RafMetadataTag::ActiveAreaAspectRatio,
        0x0119u16 => RafMetadataTag::UnknownDimensions2,
        0x0121u16 => RafMetadataTag::OutputHeightWidth,
        0x0130u16 => RafMetadataTag::RawInfo,
        0x0131u16 => RafMetadataTag::CFAPattern,
        0x2001u16 => RafMetadataTag::ImageSequenceNumber,
        0x2003u16 => RafMetadataTag::ImageSequenceRelativeExposure,
        0x2004u16 => RafMetadataTag::ImageSequenceAbsoluteExposure,
        0x2005u16 => RafMetadataTag::ImageSequenceShutterDuration,
        0x2006u16 => RafMetadataTag::ImageSequenceApetureRatio,
        0x2007u16 => RafMetadataTag::ImageSequenceISO,
        0x1002u16 => RafMetadataTag::WhiteBalancePreset,
        0x1011u16 => RafMetadataTag::FlashExposureComp,
        0x1020u16 => RafMetadataTag::MacroMode,
        0x1021u16 => RafMetadataTag::FocusMode,
        0x1022u16 => RafMetadataTag::AFMode,
        0x1023u16 => RafMetadataTag::FocusPixel,
        0x102bu16 => RafMetadataTag::PrioritySettings,
        0x102du16 => RafMetadataTag::FocusSettings,
        0x102eu16 => RafMetadataTag::AFCSettings,
        0x1034u16 => RafMetadataTag::ExrMode,
        0x104du16 => RafMetadataTag::FujiCropMode,
        0x1050u16 => RafMetadataTag::ShutterType,
        0x1100u16 => RafMetadataTag::AutoBracketing,
        0x1101u16 => RafMetadataTag::SequenceNumber,
        0x1103u16 => RafMetadataTag::DriveMode,
        0x1105u16 => RafMetadataTag::SeriesLength,
        0x1106u16 => RafMetadataTag::PixelShiftOffset,
        0x1301u16 => RafMetadataTag::FocusWarning,
        0x1400u16 => RafMetadataTag::DynamicRange,
        0x1401u16 => RafMetadataTag::FilmMode,
        0x1402u16 => RafMetadataTag::DynamicRangeSetting,
        0x1403u16 => RafMetadataTag::DevDynamicRange,
        0x1404u16 => RafMetadataTag::MinFocalLength,
        0x1405u16 => RafMetadataTag::MaxFocalLength,
        0x1406u16 => RafMetadataTag::MaxApertureMinFocal,
        0x1407u16 => RafMetadataTag::MaxApertureMaxFocal,
        0x140bu16 => RafMetadataTag::AutoDynamicRange,
        0x1422u16 => RafMetadataTag::ImageStabilization,
        0x1431u16 => RafMetadataTag::Rating,
        0x1438u16 => RafMetadataTag::ImageCount,
        0x1443u16 => RafMetadataTag::DRangePriority,
        0x1444u16 => RafMetadataTag::DRangePriorityAuto,
        0x1445u16 => RafMetadataTag::DRangePriorityFixed,
        0x1447u16 => RafMetadataTag::FujiModel,
        0x1448u16 => RafMetadataTag::FujiModel2,
        0x2f00u16 => RafMetadataTag::WhiteBalanceRGB,
        0x2ff0u16 => RafMetadataTag::CameraMultiplier,
        0x9200u16 => RafMetadataTag::RelativeExposure,
        0x9650u16 => RafMetadataTag::RAWExposureBias,
        0x9651u16 => RafMetadataTag::UnknownExposureBias,
        0xc000u16 => RafMetadataTag::OtherData,
        0xca00u16 => RafMetadataTag::UnknownData,
        other => RafMetadataTag::Unknown(other),
    }
}

/// The code of a tag.
pub open spec fn tag_code(tag: RafMetadataTag) -> u16 {
    match tag {
        RafMetadataTag::Unknown(code) => code,
        RafMetadataTag::SensorDimensions => 0x0100u16,
        RafMetadataTag::ActiveAreaTopLeft => 0x0110u16,
        RafMetadataTag::ActiveAreaHeightWidth => 0x0111u16,
        RafMetadataTag::UnknownDimensions1 => 0x0112u16,
        RafMetadataTag::UnknownDimensions1Inverted => 0x0113u16,
        RafMetadataTag::ActiveAreaAspectRatio => 0x0115u16,
        RafMetadataTag::UnknownDimensions2 => 0x0119u16,
        RafMetadataTag::OutputHeightWidth => 0x0121u16,
        RafMetadataTag::RawInfo => 0x0130u16,
        RafMetadataTag::CFAPattern => 0x0131u16,
        RafMetadataTag::ImageSequenceNumber => 0x2001u16,
        RafMetadataTag::ImageSequenceRelativeExposure => 0x2003u16,
        RafMetadataTag::ImageSequenceAbsoluteExposure => 0x2004u16,
        RafMetadataTag::ImageSequenceShutterDuration => 0x2005u16,
        RafMetadataTag::ImageSequenceApetureRatio => 0x2006u16,
        RafMetadataTag::ImageSequenceISO => 0x2007u16,
        RafMetadataTag::WhiteBalancePreset => 0x1002u16,
        RafMetadataTag::FlashExposureComp => 0x1011u16,
        RafMetadataTag::MacroMode => 0x1020u16,
        RafMetadataTag::FocusMode => 0x1021u16,
        RafMetadataTag::AFMode => 0x1022u16,
        RafMetadataTag::FocusPixel => 0x1023u16,
        RafMetadataTag::PrioritySettings => 0x102bu16,
        RafMetadataTag::FocusSettings => 0x102du16,
        RafMetadataTag::AFCSettings => 0x102eu16,
        RafMetadataTag::ExrMode => 0x1034u16,
        RafMetadataTag::FujiCropMode => 0x104du16,
        RafMetadataTag::ShutterType => 0x1050u16,
        RafMetadataTag::AutoBracketing => 0x1100u16,
        RafMetadataTag::SequenceNumber => 0x1101u16,
        RafMetadataTag::DriveMode => 0x1103u16,
        RafMetadataTag::SeriesLength => 0x1105u16,
        RafMetadataTag::PixelShiftOffset => 0x1106u16,
        RafMetadataTag::FocusWarning => 0x1301u16,
        RafMetadataTag::DynamicRange => 0x1400u16,
        RafMetadataTag::FilmMode => 0x1401u16,
        RafMetadataTag::DynamicRangeSetting => 0x1402u16,
        RafMetadataTag::DevDynamicRange => 0x1403u16,
        RafMetadataTag::MinFocalLength => 0x1404u16,
        RafMetadataTag::MaxFocalLength => 0x1405u16,
        RafMetadataTag::MaxApertureMinFocal => 0x1406u16,
        RafMetadataTag::MaxApertureMaxFocal => 0x1407u16,
        RafMetadataTag::AutoDynamicRange => 0x140bu16,
        RafMetadataTag::ImageStabilization => 0x1422u16,
        RafMetadataTag::Rating => 0x1431u16,
        RafMetadataTag::ImageCount => 0x1438u16,
        RafMetadataTag::DRangePriority => 0x1443u16,
        RafMetadataTag::DRangePriorityAuto => 0x1444u16,
        RafMetadataTag::DRangePriorityFixed => 0x1445u16,
        RafMetadataTag::FujiModel => 0x1447u16,
        RafMetadataTag::FujiModel2 => 0x1448u16,
        RafMetadataTag::WhiteBalanceRGB => 0x2f00u16,
        RafMetadataTag::CameraMultiplier => 0x2ff0u16,
        RafMetadataTag::RelativeExposure => 0x9200u16,
        RafMetadataTag::RAWExposureBias => 0x9650u16,
        RafMetadataTag::UnknownExposureBias => 0x9651u16,
        RafMetadataTag::OtherData => 0xc000u16,
        RafMetadataTag::UnknownData => 0xca00u16,
    }
}

impl RafMetadataTag {
    /// The code that this tag is read from.
    pub fn code(&self) -> (r: u16)
        ensures
            r == tag_code(*self),
    {
        match self {
            RafMetadataTag::Unknown(code) => *code,
            RafMetadataTag::SensorDimensions => 0x0100,
            RafMetadataTag::ActiveAreaTopLeft => 0x0110,
            RafMetadataTag::ActiveAreaHeightWidth => 0x0111,
            RafMetadataTag::UnknownDimensions1 => 0x0112,
            RafMetadataTag::UnknownDimensions1Inverted => 0x0113,
            RafMetadataTag::ActiveAreaAspectRatio => 0x0115,
            RafMetadataTag::UnknownDimensions2 => 0x0119,
            RafMetadataTag::OutputHeightWidth => 0x0121,
            RafMetadataTag::RawInfo => 0x0130,
            RafMetadataTag::CFAPattern => 0x0131,
            RafMetadataTag::ImageSequenceNumber => 0x2001,
            RafMetadataTag::ImageSequenceRelativeExposure => 0x2003,
            RafMetadataTag::ImageSequenceAbsoluteExposure => 0x2004,
            RafMetadataTag::ImageSequenceShutterDuration => 0x2005,
            RafMetadataTag::ImageSequenceApetureRatio => 0x2006,
            RafMetadataTag::ImageSequenceISO => 0x2007,
            RafMetadataTag::WhiteBalancePreset => 0x1002,
            RafMetadataTag::FlashExposureComp => 0x1011,
            RafMetadataTag::MacroMode => 0x1020,
            RafMetadataTag::FocusMode => 0x1021,
            RafMetadataTag::AFMode => 0x1022,
            RafMetadataTag::FocusPixel => 0x1023,
            RafMetadataTag::PrioritySettings => 0x102b,
            RafMetadataTag::FocusSettings => 0x102d,
            RafMetadataTag::AFCSettings => 0x102e,
            RafMetadataTag::ExrMode => 0x1034,
            RafMetadataTag::FujiCropMode => 0x104d,
            RafMetadataTag::ShutterType => 0x1050,
            RafMetadataTag::AutoBracketing => 0x1100,
            RafMetadataTag::SequenceNumber => 0x1101,
            RafMetadataTag::DriveMode => 0x1103,
            RafMetadataTag::SeriesLength => 0x1105,
            RafMetadataTag::PixelShiftOffset => 0x1106,
            RafMetadataTag::FocusWarning => 0x1301,
            RafMetadataTag::DynamicRange => 0x1400,
            RafMetadataTag::FilmMode => 0x1401,
            RafMetadataTag::DynamicRangeSetting => 0x1402,
            RafMetadataTag::DevDynamicRange => 0x1403,
            RafMetadataTag::MinFocalLength => 0x1404,
            RafMetadataTag::MaxFocalLength => 0x1405,
            RafMetadataTag::MaxApertureMinFocal => 0x1406,
            RafMetadataTag::MaxApertureMaxFocal => 0x1407,
            RafMetadataTag::AutoDynamicRange => 0x140b,
            RafMetadataTag::ImageStabilization => 0x1422,
            RafMetadataTag::Rating => 0x1431,
            RafMetadataTag::ImageCount => 0x1438,
            RafMetadataTag::DRangePriority => 0x1443,
            RafMetadataTag::DRangePriorityAuto => 0x1444,
            RafMetadataTag::DRangePriorityFixed => 0x1445,
            RafMetadataTag::FujiModel => 0x1447,
            RafMetadataTag::FujiModel2 => 0x1448,
            RafMetadataTag::WhiteBalanceRGB => 0x2f00,
            RafMetadataTag::CameraMultiplier => 0x2ff0,
            RafMetadataTag::RelativeExposure => 0x9200,
            RafMetadataTag::RAWExposureBias => 0x9650,
            RafMetadataTag::UnknownExposureBias => 0x9651,
            RafMetadataTag::OtherData => 0xc000,
            RafMetadataTag::UnknownData => 0xca00,
        }
    }
}

/// The name of a tag; a tag without a name has none.
pub open spec fn tag_name(tag: RafMetadataTag) -> Option<Seq<char>> {
    match tag {
        RafMetadataTag::Unknown(_) => None,
        RafMetadataTag::SensorDimensions => Some("SensorDimensions"@),
        RafMetadataTag::ActiveAreaTopLeft => Some("ActiveAreaTopLeft"@),
        RafMetadataTag::ActiveAreaHeightWidth => Some("ActiveAreaHeightWidth"@),
        RafMetadataTag::UnknownDimensions1 => Some("UnknownDimensions1"@),
        RafMetadataTag::UnknownDimensions1Inverted => Some("UnknownDimensions1Inverted"@),
        RafMetadataTag::ActiveAreaAspectRatio => Some("ActiveAreaAspectRatio"@),
        RafMetadataTag::UnknownDimensions2 => Some("UnknownDimensions2"@),
        RafMetadataTag::OutputHeightWidth => Some("OutputHeightWidth"@),
        RafMetadataTag::RawInfo => Some("RawInfo"@),
        RafMetadataTag::CFAPattern => Some("CFAPattern"@),
        RafMetadataTag::ImageSequenceNumber => Some("ImageSequenceNumber"@),
        RafMetadataTag::ImageSequenceRelativeExposure => Some("ImageSequenceRelativeExposure"@),
        RafMetadataTag::ImageSequenceAbsoluteExposure => Some("ImageSequenceAbsoluteExposure"@),
        RafMetadataTag::ImageSequenceShutterDuration => Some("ImageSequenceShutterDuration"@),
        RafMetadataTag::ImageSequenceApetureRatio => Some("ImageSequenceApetureRatio"@),
        RafMetadataTag::ImageSequenceISO => Some("ImageSequenceISO"@),
        RafMetadataTag::WhiteBalancePreset => Some("WhiteBalancePreset"@),
        RafMetadataTag::FlashExposureComp => Some("FlashExposureComp"@),
        RafMetadataTag::MacroMode => Some("MacroMode"@),
        RafMetadataTag::FocusMode => Some("FocusMode"@),
        RafMetadataTag::AFMode => Some("AFMode"@),
        RafMetadataTag::FocusPixel => Some("FocusPixel"@),
        RafMetadataTag::PrioritySettings => Some("PrioritySettings"@),
        RafMetadataTag::FocusSettings => Some("FocusSettings"@),
        RafMetadataTag::AFCSettings => Some("AFCSettings"@),
        RafMetadataTag::ExrMode => Some("ExrMode"@),
        RafMetadataTag::FujiCropMode => Some("FujiCropMode"@),
        RafMetadataTag::ShutterType => Some("ShutterType"@),
        RafMetadataTag::AutoBracketing => Some("AutoBracketing"@),
        RafMetadataTag::SequenceNumber => Some("SequenceNumber"@),
        RafMetadataTag::DriveMode => Some("DriveMode"@),
        RafMetadataTag::SeriesLength => Some("SeriesLength"@),
        RafMetadataTag::PixelShiftOffset => Some("PixelShiftOffset"@),
        RafMetadataTag::FocusWarning => Some("FocusWarning"@),
        RafMetadataTag::DynamicRange => Some("DynamicRange"@),
        RafMetadataTag::FilmMode => Some("FilmMode"@),
        RafMetadataTag::DynamicRangeSetting => Some("DynamicRangeSetting"@),
        RafMetadataTag::DevDynamicRange => Some("DevDynamicRange"@),
        RafMetadataTag::MinFocalLength => Some("MinFocalLength"@),
        RafMetadataTag::MaxFocalLength => Some("MaxFocalLength"@),
        RafMetadataTag::MaxApertureMinFocal => Some("MaxApertureMinFocal"@),
        RafMetadataTag::MaxApertureMaxFocal => Some("MaxApertureMaxFocal"@),
        RafMetadataTag::AutoDynamicRange => Some("AutoDynamicRange"@),
        RafMetadataTag::ImageStabilization => Some("ImageStabilization"@),
        RafMetadataTag::Rating => Some("Rating"@),
        RafMetadataTag::ImageCount => Some("ImageCount"@),
        RafMetadataTag::DRangePriority => Some("DRangePriority"@),
        RafMetadataTag::DRangePriorityAuto => Some("DRangePriorityAuto"@),
        RafMetadataTag::DRangePriorityFixed => Some("DRangePriorityFixed"@),
        RafMetadataTag::FujiModel => Some("FujiModel"@),
        RafMetadataTag::FujiModel2 => Some("FujiModel2"@),
        RafMetadataTag::WhiteBalanceRGB => Some("WhiteBalanceRGB"@),
        RafMetadataTag::CameraMultiplier => Some("CameraMultiplier"@),
        RafMetadataTag::RelativeExposure => Some("RelativeExposure"@),
        RafMetadataTag::RAWExposureBias => Some("RAWExposureBias"@),
        RafMetadataTag::UnknownExposureBias => Some("UnknownExposureBias"@),
        RafMetadataTag::OtherData => Some("OtherData"@),
        RafMetadataTag::UnknownData => Some("UnknownData"@),
    }
}

impl RafMetadataTag {
    /// The name of this tag; `Unknown` has none.
    pub fn name(&self) -> (r: Option<&'static str>)
        ensures
            r is Some <==> tag_name(*self) is Some,
            r matches Some(s) ==> s@ == tag_name(*self)->Some_0,
    {
        match self {
            RafMetadataTag::Unknown(_) => None,
            RafMetadataTag::SensorDimensions => Some("SensorDimensions"),
            RafMetadataTag::ActiveAreaTopLeft => Some("ActiveAreaTopLeft"),
            RafMetadataTag::ActiveAreaHeightWidth => Some("ActiveAreaHeightWidth"),
            RafMetadataTag::UnknownDimensions1 => Some("UnknownDimensions1"),
            RafMetadataTag::UnknownDimensions1Inverted => Some("UnknownDimensions1Inverted"),
            RafMetadataTag::ActiveAreaAspectRatio => Some("ActiveAreaAspectRatio"),
            RafMetadataTag::UnknownDimensions2 => Some("UnknownDimensions2"),
            RafMetadataTag::OutputHeightWidth => Some("OutputHeightWidth"),
            RafMetadataTag::RawInfo => Some("RawInfo"),
            RafMetadataTag::CFAPattern => Some("CFAPattern"),
            RafMetadataTag::ImageSequenceNumber => Some("ImageSequenceNumber"),
            RafMetadataTag::ImageSequenceRelativeExposure => Some("ImageSequenceRelativeExposure"),
            RafMetadataTag::ImageSequenceAbsoluteExposure => Some("ImageSequenceAbsoluteExposure"),
            RafMetadataTag::ImageSequenceShutterDuration => Some("ImageSequenceShutterDuration"),
            RafMetadataTag::ImageSequenceApetureRatio => Some("ImageSequenceApetureRatio"),
            RafMetadataTag::ImageSequenceISO => Some("ImageSequenceISO"),
            RafMetadataTag::WhiteBalancePreset => Some("WhiteBalancePreset"),
            RafMetadataTag::FlashExposureComp => Some("FlashExposureComp"),
            RafMetadataTag::MacroMode => Some("MacroMode"),
            RafMetadataTag::FocusMode => Some("FocusMode"),
            RafMetadataTag::AFMode => Some("AFMode"),
            RafMetadataTag::FocusPixel => Some("FocusPixel"),
            RafMetadataTag::PrioritySettings => Some("PrioritySettings"),
            RafMetadataTag::FocusSettings => Some("FocusSettings"),
            RafMetadataTag::AFCSettings => Some("AFCSettings"),
            RafMetadataTag::ExrMode => Some("ExrMode"),
            RafMetadataTag::FujiCropMode => Some("FujiCropMode"),
            RafMetadataTag::ShutterType => Some("ShutterType"),
            RafMetadataTag::AutoBracketing => Some("AutoBracketing"),
            RafMetadataTag::SequenceNumber => Some("SequenceNumber"),
            RafMetadataTag::DriveMode => Some("DriveMode"),
            RafMetadataTag::SeriesLength => Some("SeriesLength"),
            RafMetadataTag::PixelShiftOffset => Some("PixelShiftOffset"),
            RafMetadataTag::FocusWarning => Some("FocusWarning"),
            RafMetadataTag::DynamicRange => Some("DynamicRange"),
            RafMetadataTag::FilmMode => Some("FilmMode"),
            RafMetadataTag::DynamicRangeSetting => Some("DynamicRangeSetting"),
            RafMetadataTag::DevDynamicRange => Some("DevDynamicRange"),
            RafMetadataTag::MinFocalLength => Some("MinFocalLength"),
            RafMetadataTag::MaxFocalLength => Some("MaxFocalLength"),
            RafMetadataTag::MaxApertureMinFocal => Some("MaxApertureMinFocal"),
            RafMetadataTag::MaxApertureMaxFocal => Some("MaxApertureMaxFocal"),
            RafMetadataTag::AutoDynamicRange => Some("AutoDynamicRange"),
            RafMetadataTag::ImageStabilization => Some("ImageStabilization"),
            RafMetadataTag::Rating => Some("Rating"),
            RafMetadataTag::ImageCount => Some("ImageCount"),
            RafMetadataTag::DRangePriority => Some("DRangePriority"),
            RafMetadataTag::DRangePriorityAuto => Some("DRangePriorityAuto"),
            RafMetadataTag::DRangePriorityFixed => Some("DRangePriorityFixed"),
            RafMetadataTag::FujiModel => Some("FujiModel"),
            RafMetadataTag::FujiModel2 => Some("FujiModel2"),
            RafMetadataTag::WhiteBalanceRGB => Some("WhiteBalanceRGB"),
            RafMetadataTag::CameraMultiplier => Some("CameraMultiplier"),
            RafMetadataTag::RelativeExposure => Some("RelativeExposure"),
            RafMetadataTag::RAWExposureBias => Some("RAWExposureBias"),
            RafMetadataTag::UnknownExposureBias => Some("UnknownExposureBias"),
            RafMetadataTag::OtherData => Some("OtherData"),
            RafMetadataTag::UnknownData => Some("UnknownData"),
        }
    }
}

impl From<u16> for RafMetadataTag {
    fn from(value: u16) -> (r: RafMetadataTag) {
        match value {
            0x0100 => RafMetadataTag::SensorDimensions,
            0x0110 => RafMetadataTag::ActiveAreaTopLeft,
            0x0111 => RafMetadataTag::ActiveAreaHeightWidth,
            0x0112 => RafMetadataTag::UnknownDimensions1,
            0x0113 => RafMetadataTag::UnknownDimensions1Inverted,
            0x0115 => RafMetadataTag::ActiveAreaAspectRatio,
            0x0119 => RafMetadataTag::UnknownDimensions2,
            0x0121 => RafMetadataTag::OutputHeightWidth,
            0x0130 => RafMetadataTag::RawInfo,
            0x0131 => RafMetadataTag::CFAPattern,
            0x2001 => RafMetadataTag::ImageSequenceNumber,
            0x2003 => RafMetadataTag::ImageSequenceRelativeExposure,
            0x2004 => RafMetadataTag::ImageSequenceAbsoluteExposure,
            0x2005 => RafMetadataTag::ImageSequenceShutterDuration,
            0x2006 => RafMetadataTag::ImageSequenceApetureRatio,
            0x2007 => RafMetadataTag::ImageSequenceISO,
            0x1002 => RafMetadataTag::WhiteBalancePreset,
            0x1011 => RafMetadataTag::FlashExposureComp,
            0x1020 => RafMetadataTag::MacroMode,
            0x1021 => RafMetadataTag::FocusMode,
            0x1022 => RafMetadataTag::AFMode,
            0x1023 => RafMetadataTag::FocusPixel,
            0x102b => RafMetadataTag::PrioritySettings,
            0x102d => RafMetadataTag::FocusSettings,
            0x102e => RafMetadataTag::AFCSettings,
            0x1034 => RafMetadataTag::ExrMode,
            0x104d => RafMetadataTag::FujiCropMode,
            0x1050 => RafMetadataTag::ShutterType,
            0x1100 => RafMetadataTag::AutoBracketing,
            0x1101 => RafMetadataTag::SequenceNumber,
            0x1103 => RafMetadataTag::DriveMode,
            0x1105 => RafMetadataTag::SeriesLength,
            0x1106 => RafMetadataTag::PixelShiftOffset,
            0x1301 => RafMetadataTag::FocusWarning,
            0x1400 => RafMetadataTag::DynamicRange,
            0x1401 => RafMetadataTag::FilmMode,
            0x1402 => RafMetadataTag::DynamicRangeSetting,
            0x1403 => RafMetadataTag::DevDynamicRange,
            0x1404 => RafMetadataTag::MinFocalLength,
            0x1405 => RafMetadataTag::MaxFocalLength,
            0x1406 => RafMetadataTag::MaxApertureMinFocal,
            0x1407 => RafMetadataTag::MaxApertureMaxFocal,
            0x140b => RafMetadataTag::AutoDynamicRange,
            0x1422 => RafMetadataTag::ImageStabilization,
            0x1431 => RafMetadataTag::Rating,
            0x1438 => RafMetadataTag::ImageCount,
            0x1443 => RafMetadataTag::DRangePriority,
            0x1444 => RafMetadataTag::DRangePriorityAuto,
            0x1445 => RafMetadataTag::DRangePriorityFixed,
            0x1447 => RafMetadataTag::FujiModel,
            0x1448 => RafMetadataTag::FujiModel2,
            0x2f00 => RafMetadataTag::WhiteBalanceRGB,
            0x2ff0 => RafMetadataTag::CameraMultiplier,
            0x9200 => RafMetadataTag::RelativeExposure,
            0x9650 => RafMetadataTag::RAWExposureBias,
            0x9651 => RafMetadataTag::UnknownExposureBias,
            0xc000 => RafMetadataTag::OtherData,
            0xca00 => RafMetadataTag::UnknownData,
            other => RafMetadataTag::Unknown(other),
        }
    }
}

impl FromSpecImpl<u16> for RafMetadataTag {
    open spec fn obeys_from_spec() -> bool {
        true
    }

    open spec fn from_spec(value: u16) -> RafMetadataTag {
        tag_of(value)
    }
}

/// Reading a tag from its code keeps the code: no two codes give the same tag.
pub proof fn tag_code_round_trip(code: u16)
    ensures
        tag_code(tag_of(code)) == code,
{
}

/// A tag that is not `Unknown` is read back from its own code.
pub proof fn named_tag_round_trip(tag: RafMetadataTag)
    requires
        !(tag is Unknown),
    ensures
        tag_of(tag_code(tag)) == tag,
{
}

} // verus!
