//! Laws of the library: what its operations do, stated over their inputs and
//! results directly, each proved from the specifications that the
//! operations' contracts use.

use vstd::prelude::*;

use vstd::utf8::{decode_utf8, valid_utf8};

use crate::binary::{
    seek_in_range, spec_read_bytes, spec_read_u16, spec_read_u32, spec_read_u64, spec_seek,
    spec_skip, Endian,
    Outcome, ReadError, ReaderView, SeekFrom,
};
use crate::exif::{
    byte_order_of, exif_after_search, exif_magic, exif_parse, exif_search, ByteOrder, ExifModel,
};
use crate::raf::{
    container_parse, header_parse, image_parse, image_text, images_parse, images_text, item_parse,
    container_text, item_text, items_parse, items_text, metadata_value, raf_text, sequence_text, raf_magic, raf_parse, sequence_magic,
    sequence_parse, sequence_probe, MetadataContainerModel, MetadataItem, MetadataValue,
    RafHeader, RafModel, SequenceContainerModel, SequenceImageModel,
};
use crate::tags::{tag_code, tag_name, tag_of, RafMetadataTag};
use crate::text::{byte_values, list_entries, number_list, tag_text, value_text, Part};

verus! {

/// Every named tag is read from its listed code, has that code and bears its
/// own name.
pub proof fn tag_table()
    ensures
        tag_of(0x0100u16) == RafMetadataTag::SensorDimensions,
        tag_code(RafMetadataTag::SensorDimensions) == 0x0100u16,
        tag_name(RafMetadataTag::SensorDimensions) == Some("SensorDimensions"@),
        tag_of(0x0110u16) == RafMetadataTag::ActiveAreaTopLeft,
        tag_code(RafMetadataTag::ActiveAreaTopLeft) == 0x0110u16,
        tag_name(RafMetadataTag::ActiveAreaTopLeft) == Some("ActiveAreaTopLeft"@),
        tag_of(0x0111u16) == RafMetadataTag::ActiveAreaHeightWidth,
        tag_code(RafMetadataTag::ActiveAreaHeightWidth) == 0x0111u16,
        tag_name(RafMetadataTag::ActiveAreaHeightWidth) == Some("ActiveAreaHeightWidth"@),
        tag_of(0x0112u16) == RafMetadataTag::UnknownDimensions1,
        tag_code(RafMetadataTag::UnknownDimensions1) == 0x0112u16,
        tag_name(RafMetadataTag::UnknownDimensions1) == Some("UnknownDimensions1"@),
        tag_of(0x0113u16) == RafMetadataTag::UnknownDimensions1Inverted,
        tag_code(RafMetadataTag::UnknownDimensions1Inverted) == 0x0113u16,
        tag_name(RafMetadataTag::UnknownDimensions1Inverted) == Some("UnknownDimensions1Inverted"@),
        tag_of(0x0115u16) == RafMetadataTag::ActiveAreaAspectRatio,
        tag_code(RafMetadataTag::ActiveAreaAspectRatio) == 0x0115u16,
        tag_name(RafMetadataTag::ActiveAreaAspectRatio) == Some("ActiveAreaAspectRatio"@),
        tag_of(0x0119u16) == RafMetadataTag::UnknownDimensions2,
        tag_code(RafMetadataTag::UnknownDimensions2) == 0x0119u16,
        tag_name(RafMetadataTag::UnknownDimensions2) == Some("UnknownDimensions2"@),
        tag_of(0x0121u16) == RafMetadataTag::OutputHeightWidth,
        tag_code(RafMetadataTag::OutputHeightWidth) == 0x0121u16,
        tag_name(RafMetadataTag::OutputHeightWidth) == Some("OutputHeightWidth"@),
        tag_of(0x0130u16) == RafMetadataTag::RawInfo,
        tag_code(RafMetadataTag::RawInfo) == 0x0130u16,
        tag_name(RafMetadataTag::RawInfo) == Some("RawInfo"@),
        tag_of(0x0131u16) == RafMetadataTag::CFAPattern,
        tag_code(RafMetadataTag::CFAPattern) == 0x0131u16,
        tag_name(RafMetadataTag::CFAPattern) == Some("CFAPattern"@),
        tag_of(0x2001u16) == RafMetadataTag::ImageSequenceNumber,
        tag_code(RafMetadataTag::ImageSequenceNumber) == 0x2001u16,
        tag_name(RafMetadataTag::ImageSequenceNumber) == Some("ImageSequenceNumber"@),
        tag_of(0x2003u16) == RafMetadataTag::ImageSequenceRelativeExposure,
        tag_code(RafMetadataTag::ImageSequenceRelativeExposure) == 0x2003u16,
        tag_name(RafMetadataTag::ImageSequenceRelativeExposure) == Some("ImageSequenceRelativeExposure"@),
        tag_of(0x2004u16) == RafMetadataTag::ImageSequenceAbsoluteExposure,
        tag_code(RafMetadataTag::ImageSequenceAbsoluteExposure) == 0x2004u16,
        tag_name(RafMetadataTag::ImageSequenceAbsoluteExposure) == Some("ImageSequenceAbsoluteExposure"@),
        tag_of(0x2005u16) == RafMetadataTag::ImageSequenceShutterDuration,
        tag_code(RafMetadataTag::ImageSequenceShutterDuration) == 0x2005u16,
        tag_name(RafMetadataTag::ImageSequenceShutterDuration) == Some("ImageSequenceShutterDuration"@),
        tag_of(0x2006u16) == RafMetadataTag::ImageSequenceApetureRatio,
        tag_code(RafMetadataTag::ImageSequenceApetureRatio) == 0x2006u16,
        tag_name(RafMetadataTag::ImageSequenceApetureRatio) == Some("ImageSequenceApetureRatio"@),
        tag_of(0x2007u16) == RafMetadataTag::ImageSequenceISO,
        tag_code(RafMetadataTag::ImageSequenceISO) == 0x2007u16,
        tag_name(RafMetadataTag::ImageSequenceISO) == Some("ImageSequenceISO"@),
        tag_of(0x1002u16) == RafMetadataTag::WhiteBalancePreset,
        tag_code(RafMetadataTag::WhiteBalancePreset) == 0x1002u16,
        tag_name(RafMetadataTag::WhiteBalancePreset) == Some("WhiteBalancePreset"@),
        tag_of(0x1011u16) == RafMetadataTag::FlashExposureComp,
        tag_code(RafMetadataTag::FlashExposureComp) == 0x1011u16,
        tag_name(RafMetadataTag::FlashExposureComp) == Some("FlashExposureComp"@),
        tag_of(0x1020u16) == RafMetadataTag::MacroMode,
        tag_code(RafMetadataTag::MacroMode) == 0x1020u16,
        tag_name(RafMetadataTag::MacroMode) == Some("MacroMode"@),
        tag_of(0x1021u16) == RafMetadataTag::FocusMode,
        tag_code(RafMetadataTag::FocusMode) == 0x1021u16,
        tag_name(RafMetadataTag::FocusMode) == Some("FocusMode"@),
        tag_of(0x1022u16) == RafMetadataTag::AFMode,
        tag_code(RafMetadataTag::AFMode) == 0x1022u16,
        tag_name(RafMetadataTag::AFMode) == Some("AFMode"@),
        tag_of(0x1023u16) == RafMetadataTag::FocusPixel,
        tag_code(RafMetadataTag::FocusPixel) == 0x1023u16,
        tag_name(RafMetadataTag::FocusPixel) == Some("FocusPixel"@),
        tag_of(0x102bu16) == RafMetadataTag::PrioritySettings,
        tag_code(RafMetadataTag::PrioritySettings) == 0x102bu16,
        tag_name(RafMetadataTag::PrioritySettings) == Some("PrioritySettings"@),
        tag_of(0x102du16) == RafMetadataTag::FocusSettings,
        tag_code(RafMetadataTag::FocusSettings) == 0x102du16,
        tag_name(RafMetadataTag::FocusSettings) == Some("FocusSettings"@),
        tag_of(0x102eu16) == RafMetadataTag::AFCSettings,
        tag_code(RafMetadataTag::AFCSettings) == 0x102eu16,
        tag_name(RafMetadataTag::AFCSettings) == Some("AFCSettings"@),
        tag_of(0x1034u16) == RafMetadataTag::ExrMode,
        tag_code(RafMetadataTag::ExrMode) == 0x1034u16,
        tag_name(RafMetadataTag::ExrMode) == Some("ExrMode"@),
        tag_of(0x104du16) == RafMetadataTag::FujiCropMode,
        tag_code(RafMetadataTag::FujiCropMode) == 0x104du16,
        tag_name(RafMetadataTag::FujiCropMode) == Some("FujiCropMode"@),
        tag_of(0x1050u16) == RafMetadataTag::ShutterType,
        tag_code(RafMetadataTag::ShutterType) == 0x1050u16,
        tag_name(RafMetadataTag::ShutterType) == Some("ShutterType"@),
        tag_of(0x1100u16) == RafMetadataTag::AutoBracketing,
        tag_code(RafMetadataTag::AutoBracketing) == 0x1100u16,
        tag_name(RafMetadataTag::AutoBracketing) == Some("AutoBracketing"@),
        tag_of(0x1101u16) == RafMetadataTag::SequenceNumber,
        tag_code(RafMetadataTag::SequenceNumber) == 0x1101u16,
        tag_name(RafMetadataTag::SequenceNumber) == Some("SequenceNumber"@),
        tag_of(0x1103u16) == RafMetadataTag::DriveMode,
        tag_code(RafMetadataTag::DriveMode) == 0x1103u16,
        tag_name(RafMetadataTag::DriveMode) == Some("DriveMode"@),
        tag_of(0x1105u16) == RafMetadataTag::SeriesLength,
        tag_code(RafMetadataTag::SeriesLength) == 0x1105u16,
        tag_name(RafMetadataTag::SeriesLength) == Some("SeriesLength"@),
        tag_of(0x1106u16) == RafMetadataTag::PixelShiftOffset,
        tag_code(RafMetadataTag::PixelShiftOffset) == 0x1106u16,
        tag_name(RafMetadataTag::PixelShiftOffset) == Some("PixelShiftOffset"@),
        tag_of(0x1301u16) == RafMetadataTag::FocusWarning,
        tag_code(RafMetadataTag::FocusWarning) == 0x1301u16,
        tag_name(RafMetadataTag::FocusWarning) == Some("FocusWarning"@),
        tag_of(0x1400u16) == RafMetadataTag::DynamicRange,
        tag_code(RafMetadataTag::DynamicRange) == 0x1400u16,
        tag_name(RafMetadataTag::DynamicRange) == Some("DynamicRange"@),
        tag_of(0x1401u16) == RafMetadataTag::FilmMode,
        tag_code(RafMetadataTag::FilmMode) == 0x1401u16,
        tag_name(RafMetadataTag::FilmMode) == Some("FilmMode"@),
        tag_of(0x1402u16) == RafMetadataTag::DynamicRangeSetting,
        tag_code(RafMetadataTag::DynamicRangeSetting) == 0x1402u16,
        tag_name(RafMetadataTag::DynamicRangeSetting) == Some("DynamicRangeSetting"@),
        tag_of(0x1403u16) == RafMetadataTag::DevDynamicRange,
        tag_code(RafMetadataTag::DevDynamicRange) == 0x1403u16,
        tag_name(RafMetadataTag::DevDynamicRange) == Some("DevDynamicRange"@),
        tag_of(0x1404u16) == RafMetadataTag::MinFocalLength,
        tag_code(RafMetadataTag::MinFocalLength) == 0x1404u16,
        tag_name(RafMetadataTag::MinFocalLength) == Some("MinFocalLength"@),
        tag_of(0x1405u16) == RafMetadataTag::MaxFocalLength,
        tag_code(RafMetadataTag::MaxFocalLength) == 0x1405u16,
        tag_name(RafMetadataTag::MaxFocalLength) == Some("MaxFocalLength"@),
        tag_of(0x1406u16) == RafMetadataTag::MaxApertureMinFocal,
        tag_code(RafMetadataTag::MaxApertureMinFocal) == 0x1406u16,
        tag_name(RafMetadataTag::MaxApertureMinFocal) == Some("MaxApertureMinFocal"@),
        tag_of(0x1407u16) == RafMetadataTag::MaxApertureMaxFocal,
        tag_code(RafMetadataTag::MaxApertureMaxFocal) == 0x1407u16,
        tag_name(RafMetadataTag::MaxApertureMaxFocal) == Some("MaxApertureMaxFocal"@),
        tag_of(0x140bu16) == RafMetadataTag::AutoDynamicRange,
        tag_code(RafMetadataTag::AutoDynamicRange) == 0x140bu16,
        tag_name(RafMetadataTag::AutoDynamicRange) == Some("AutoDynamicRange"@),
        tag_of(0x1422u16) == RafMetadataTag::ImageStabilization,
        tag_code(RafMetadataTag::ImageStabilization) == 0x1422u16,
        tag_name(RafMetadataTag::ImageStabilization) == Some("ImageStabilization"@),
        tag_of(0x1431u16) == RafMetadataTag::Rating,
        tag_code(RafMetadataTag::Rating) == 0x1431u16,
        tag_name(RafMetadataTag::Rating) == Some("Rating"@),
        tag_of(0x1438u16) == RafMetadataTag::ImageCount,
        tag_code(RafMetadataTag::ImageCount) == 0x1438u16,
        tag_name(RafMetadataTag::ImageCount) == Some("ImageCount"@),
        tag_of(0x1443u16) == RafMetadataTag::DRangePriority,
        tag_code(RafMetadataTag::DRangePriority) == 0x1443u16,
        tag_name(RafMetadataTag::DRangePriority) == Some("DRangePriority"@),
        tag_of(0x1444u16) == RafMetadataTag::DRangePriorityAuto,
        tag_code(RafMetadataTag::DRangePriorityAuto) == 0x1444u16,
        tag_name(RafMetadataTag::DRangePriorityAuto) == Some("DRangePriorityAuto"@),
        tag_of(0x1445u16) == RafMetadataTag::DRangePriorityFixed,
        tag_code(RafMetadataTag::DRangePriorityFixed) == 0x1445u16,
        tag_name(RafMetadataTag::DRangePriorityFixed) == Some("DRangePriorityFixed"@),
        tag_of(0x1447u16) == RafMetadataTag::FujiModel,
        tag_code(RafMetadataTag::FujiModel) == 0x1447u16,
        tag_name(RafMetadataTag::FujiModel) == Some("FujiModel"@),
        tag_of(0x1448u16) == RafMetadataTag::FujiModel2,
        tag_code(RafMetadataTag::FujiModel2) == 0x1448u16,
        tag_name(RafMetadataTag::FujiModel2) == Some("FujiModel2"@),
        tag_of(0x2f00u16) == RafMetadataTag::WhiteBalanceRGB,
        tag_code(RafMetadataTag::WhiteBalanceRGB) == 0x2f00u16,
        tag_name(RafMetadataTag::WhiteBalanceRGB) == Some("WhiteBalanceRGB"@),
        tag_of(0x2ff0u16) == RafMetadataTag::CameraMultiplier,
        tag_code(RafMetadataTag::CameraMultiplier) == 0x2ff0u16,
        tag_name(RafMetadataTag::CameraMultiplier) == Some("CameraMultiplier"@),
        tag_of(0x9200u16) == RafMetadataTag::RelativeExposure,
        tag_code(RafMetadataTag::RelativeExposure) == 0x9200u16,
        tag_name(RafMetadataTag::RelativeExposure) == Some("RelativeExposure"@),
        tag_of(0x9650u16) == RafMetadataTag::RAWExposureBias,
        tag_code(RafMetadataTag::RAWExposureBias) == 0x9650u16,
        tag_name(RafMetadataTag::RAWExposureBias) == Some("RAWExposureBias"@),
        tag_of(0x9651u16) == RafMetadataTag::UnknownExposureBias,
        tag_code(RafMetadataTag::UnknownExposureBias) == 0x9651u16,
        tag_name(RafMetadataTag::UnknownExposureBias) == Some("UnknownExposureBias"@),
        tag_of(0xc000u16) == RafMetadataTag::OtherData,
        tag_code(RafMetadataTag::OtherData) == 0xc000u16,
        tag_name(RafMetadataTag::OtherData) == Some("OtherData"@),
        tag_of(0xca00u16) == RafMetadataTag::UnknownData,
        tag_code(RafMetadataTag::UnknownData) == 0xca00u16,
        tag_name(RafMetadataTag::UnknownData) == Some("UnknownData"@),
{
}

/// A code without a name is read as `Unknown` with that code, which it keeps.
pub proof fn unnamed_codes_are_unknown(code: u16)
    requires
        forall|t: RafMetadataTag| !(t is Unknown) ==> tag_code(t) != code,
    ensures
        tag_of(code) == RafMetadataTag::Unknown(code),
        tag_name(RafMetadataTag::Unknown(code)) is None,
{

    assert(tag_code(RafMetadataTag::SensorDimensions) != code);
    assert(tag_code(RafMetadataTag::ActiveAreaTopLeft) != code);
    assert(tag_code(RafMetadataTag::ActiveAreaHeightWidth) != code);
    assert(tag_code(RafMetadataTag::UnknownDimensions1) != code);
    assert(tag_code(RafMetadataTag::UnknownDimensions1Inverted) != code);
    assert(tag_code(RafMetadataTag::ActiveAreaAspectRatio) != code);
    assert(tag_code(RafMetadataTag::UnknownDimensions2) != code);
    assert(tag_code(RafMetadataTag::OutputHeightWidth) != code);
    assert(tag_code(RafMetadataTag::RawInfo) != code);
    assert(tag_code(RafMetadataTag::CFAPattern) != code);
    assert(tag_code(RafMetadataTag::ImageSequenceNumber) != code);
    assert(tag_code(RafMetadataTag::ImageSequenceRelativeExposure) != code);
    assert(tag_code(RafMetadataTag::ImageSequenceAbsoluteExposure) != code);
    assert(tag_code(RafMetadataTag::ImageSequenceShutterDuration) != code);
    assert(tag_code(RafMetadataTag::ImageSequenceApetureRatio) != code);
    assert(tag_code(RafMetadataTag::ImageSequenceISO) != code);
    assert(tag_code(RafMetadataTag::WhiteBalancePreset) != code);
    assert(tag_code(RafMetadataTag::FlashExposureComp) != code);
    assert(tag_code(RafMetadataTag::MacroMode) != code);
    assert(tag_code(RafMetadataTag::FocusMode) != code);
    assert(tag_code(RafMetadataTag::AFMode) != code);
    assert(tag_code(RafMetadataTag::FocusPixel) != code);
    assert(tag_code(RafMetadataTag::PrioritySettings) != code);
    assert(tag_code(RafMetadataTag::FocusSettings) != code);
    assert(tag_code(RafMetadataTag::AFCSettings) != code);
    assert(tag_code(RafMetadataTag::ExrMode) != code);
    assert(tag_code(RafMetadataTag::FujiCropMode) != code);
    assert(tag_code(RafMetadataTag::ShutterType) != code);
    assert(tag_code(RafMetadataTag::AutoBracketing) != code);
    assert(tag_code(RafMetadataTag::SequenceNumber) != code);
    assert(tag_code(RafMetadataTag::DriveMode) != code);
    assert(tag_code(RafMetadataTag::SeriesLength) != code);
    assert(tag_code(RafMetadataTag::PixelShiftOffset) != code);
    assert(tag_code(RafMetadataTag::FocusWarning) != code);
    assert(tag_code(RafMetadataTag::DynamicRange) != code);
    assert(tag_code(RafMetadataTag::FilmMode) != code);
    assert(tag_code(RafMetadataTag::DynamicRangeSetting) != code);
    assert(tag_code(RafMetadataTag::DevDynamicRange) != code);
    assert(tag_code(RafMetadataTag::MinFocalLength) != code);
    assert(tag_code(RafMetadataTag::MaxFocalLength) != code);
    assert(tag_code(RafMetadataTag::MaxApertureMinFocal) != code);
    assert(tag_code(RafMetadataTag::MaxApertureMaxFocal) != code);
    assert(tag_code(RafMetadataTag::AutoDynamicRange) != code);
    assert(tag_code(RafMetadataTag::ImageStabilization) != code);
    assert(tag_code(RafMetadataTag::Rating) != code);
    assert(tag_code(RafMetadataTag::ImageCount) != code);
    assert(tag_code(RafMetadataTag::DRangePriority) != code);
    assert(tag_code(RafMetadataTag::DRangePriorityAuto) != code);
    assert(tag_code(RafMetadataTag::DRangePriorityFixed) != code);
    assert(tag_code(RafMetadataTag::FujiModel) != code);
    assert(tag_code(RafMetadataTag::FujiModel2) != code);
    assert(tag_code(RafMetadataTag::WhiteBalanceRGB) != code);
    assert(tag_code(RafMetadataTag::CameraMultiplier) != code);
    assert(tag_code(RafMetadataTag::RelativeExposure) != code);
    assert(tag_code(RafMetadataTag::RAWExposureBias) != code);
    assert(tag_code(RafMetadataTag::UnknownExposureBias) != code);
    assert(tag_code(RafMetadataTag::OtherData) != code);
    assert(tag_code(RafMetadataTag::UnknownData) != code);
}

/// The image number and ISO records of four bytes decode to their big-endian `u32`.
pub proof fn number_records_decode(b: Seq<u8>)
    requires
        b.len() == 4,
    ensures
        metadata_value(RafMetadataTag::ImageSequenceNumber, b) == MetadataValue::Number((((b[0] * 256 + b[1]) * 256 + b[2]) * 256 + b[3]) as u32),
        metadata_value(RafMetadataTag::ImageSequenceISO, b) == MetadataValue::Number((((b[0] * 256 + b[1]) * 256 + b[2]) * 256 + b[3]) as u32),
{
}

/// The dimension records of four bytes decode to the two big-endian `u16` they hold.
pub proof fn dimensions_records_decode(b: Seq<u8>)
    requires
        b.len() == 4,
    ensures
        metadata_value(RafMetadataTag::SensorDimensions, b) == MetadataValue::Dimensions(((b[0] * 256 + b[1]) as u16, (b[2] * 256 + b[3]) as u16)),
        metadata_value(RafMetadataTag::OutputHeightWidth, b) == MetadataValue::Dimensions(((b[0] * 256 + b[1]) as u16, (b[2] * 256 + b[3]) as u16)),
        metadata_value(RafMetadataTag::UnknownDimensions1, b) == MetadataValue::Dimensions(((b[0] * 256 + b[1]) as u16, (b[2] * 256 + b[3]) as u16)),
        metadata_value(RafMetadataTag::UnknownDimensions1Inverted, b) == MetadataValue::Dimensions(((b[0] * 256 + b[1]) as u16, (b[2] * 256 + b[3]) as u16)),
        metadata_value(RafMetadataTag::UnknownDimensions2, b) == MetadataValue::Dimensions(((b[0] * 256 + b[1]) as u16, (b[2] * 256 + b[3]) as u16)),
{
}

/// The white balance record of four bytes decodes to its big-endian `u32` in Kelvin.
pub proof fn kelvin_records_decode(b: Seq<u8>)
    requires
        b.len() == 4,
    ensures
        metadata_value(RafMetadataTag::WhiteBalancePreset, b) == MetadataValue::Kelvin((((b[0] * 256 + b[1]) * 256 + b[2]) * 256 + b[3]) as u32),
{
}

/// The flash exposure record of four bytes decodes to the bit pattern of its big-endian `f32`.
pub proof fn exposure_value_records_decode(b: Seq<u8>)
    requires
        b.len() == 4,
    ensures
        metadata_value(RafMetadataTag::FlashExposureComp, b) == MetadataValue::ExposureValue((((b[0] * 256 + b[1]) * 256 + b[2]) * 256 + b[3]) as u32),
{
}

/// The active area records of four bytes decode to the position pair of two big-endian `u16`.
pub proof fn position_records_decode(b: Seq<u8>)
    requires
        b.len() == 4,
    ensures
        metadata_value(RafMetadataTag::ActiveAreaTopLeft, b) == MetadataValue::Position(((b[0] * 256 + b[1]) as u16, (b[2] * 256 + b[3]) as u16)),
        metadata_value(RafMetadataTag::ActiveAreaHeightWidth, b) == MetadataValue::Position(((b[0] * 256 + b[1]) as u16, (b[2] * 256 + b[3]) as u16)),
{
}

/// The aspect ratio record of four bytes decodes to its two big-endian `u16`.
pub proof fn aspect_ratio_records_decode(b: Seq<u8>)
    requires
        b.len() == 4,
    ensures
        metadata_value(RafMetadataTag::ActiveAreaAspectRatio, b) == MetadataValue::AspectRatio(((b[0] * 256 + b[1]) as u16, (b[2] * 256 + b[3]) as u16)),
{
}

/// The two camera model records of four bytes decode to their payload as text.
pub proof fn model_text_records_decode(b: Seq<u8>)
    requires
        b.len() == 4,
    ensures
        metadata_value(RafMetadataTag::FujiModel, b) == MetadataValue::ASCIIText(b),
        metadata_value(RafMetadataTag::FujiModel2, b) == MetadataValue::ASCIIText(b),
{
}

/// The exposure bias records of four bytes decode to a signed big-endian numerator and an unsigned big-endian denominator, a zero denominator becoming 1.
pub proof fn exposure_bias_records_decode(b: Seq<u8>)
    requires
        b.len() == 4,
    ensures
        metadata_value(RafMetadataTag::RAWExposureBias, b) == MetadataValue::ExposureBias((
                (if b[0] < 128 { b[0] * 256 + b[1] } else { b[0] * 256 + b[1] - 0x10000 }) as i16,
                (if b[2] * 256 + b[3] == 0 { 1 } else { b[2] * 256 + b[3] }) as u16,
            )),
        metadata_value(RafMetadataTag::UnknownExposureBias, b) == MetadataValue::ExposureBias((
                (if b[0] < 128 { b[0] * 256 + b[1] } else { b[0] * 256 + b[1] - 0x10000 }) as i16,
                (if b[2] * 256 + b[3] == 0 { 1 } else { b[2] * 256 + b[3] }) as u16,
            )),
        metadata_value(RafMetadataTag::ImageSequenceAbsoluteExposure, b) == MetadataValue::ExposureBias((
                (if b[0] < 128 { b[0] * 256 + b[1] } else { b[0] * 256 + b[1] - 0x10000 }) as i16,
                (if b[2] * 256 + b[3] == 0 { 1 } else { b[2] * 256 + b[3] }) as u16,
            )),
        metadata_value(RafMetadataTag::ImageSequenceRelativeExposure, b) == MetadataValue::ExposureBias((
                (if b[0] < 128 { b[0] * 256 + b[1] } else { b[0] * 256 + b[1] - 0x10000 }) as i16,
                (if b[2] * 256 + b[3] == 0 { 1 } else { b[2] * 256 + b[3] }) as u16,
            )),
{
}

/// The shutter duration and aperture records of eight bytes decode to their
/// big-endian numerator and denominator, unless the denominator is zero, when
/// they stay unknown.
pub proof fn fraction_records_decode(b: Seq<u8>)
    requires
        b.len() == 8,
    ensures
        (((b[4] * 256 + b[5]) * 256 + b[6]) * 256 + b[7]) as u32 != 0 ==> metadata_value(RafMetadataTag::ImageSequenceShutterDuration, b)
            == MetadataValue::ShutterDuration(((((b[0] * 256 + b[1]) * 256 + b[2]) * 256 + b[3]) as u32, (((b[4] * 256 + b[5]) * 256 + b[6]) * 256 + b[7]) as u32)),
        (((b[4] * 256 + b[5]) * 256 + b[6]) * 256 + b[7]) as u32 != 0 ==> metadata_value(RafMetadataTag::ImageSequenceApetureRatio, b)
            == MetadataValue::ApertureRatio(((((b[0] * 256 + b[1]) * 256 + b[2]) * 256 + b[3]) as u32, (((b[4] * 256 + b[5]) * 256 + b[6]) * 256 + b[7]) as u32)),
        (((b[4] * 256 + b[5]) * 256 + b[6]) * 256 + b[7]) as u32 == 0 ==> metadata_value(RafMetadataTag::ImageSequenceShutterDuration, b)
            == MetadataValue::Unknown(b),
        (((b[4] * 256 + b[5]) * 256 + b[6]) * 256 + b[7]) as u32 == 0 ==> metadata_value(RafMetadataTag::ImageSequenceApetureRatio, b)
            == MetadataValue::Unknown(b),
{
}

/// A record of a size its tag does not expect stays unknown.
pub proof fn wrong_sizes_decode_to_unknown(b: Seq<u8>)
    ensures
        b.len() != 4 ==> metadata_value(RafMetadataTag::ActiveAreaAspectRatio, b) == MetadataValue::Unknown(b),
        b.len() != 4 ==> metadata_value(RafMetadataTag::ActiveAreaHeightWidth, b) == MetadataValue::Unknown(b),
        b.len() != 4 ==> metadata_value(RafMetadataTag::ActiveAreaTopLeft, b) == MetadataValue::Unknown(b),
        b.len() != 4 ==> metadata_value(RafMetadataTag::FlashExposureComp, b) == MetadataValue::Unknown(b),
        b.len() != 4 ==> metadata_value(RafMetadataTag::FujiModel, b) == MetadataValue::Unknown(b),
        b.len() != 4 ==> metadata_value(RafMetadataTag::FujiModel2, b) == MetadataValue::Unknown(b),
        b.len() != 4 ==> metadata_value(RafMetadataTag::ImageSequenceAbsoluteExposure, b) == MetadataValue::Unknown(b),
        b.len() != 4 ==> metadata_value(RafMetadataTag::ImageSequenceISO, b) == MetadataValue::Unknown(b),
        b.len() != 4 ==> metadata_value(RafMetadataTag::ImageSequenceNumber, b) == MetadataValue::Unknown(b),
        b.len() != 4 ==> metadata_value(RafMetadataTag::ImageSequenceRelativeExposure, b) == MetadataValue::Unknown(b),
        b.len() != 4 ==> metadata_value(RafMetadataTag::OutputHeightWidth, b) == MetadataValue::Unknown(b),
        b.len() != 4 ==> metadata_value(RafMetadataTag::RAWExposureBias, b) == MetadataValue::Unknown(b),
        b.len() != 4 ==> metadata_value(RafMetadataTag::SensorDimensions, b) == MetadataValue::Unknown(b),
        b.len() != 4 ==> metadata_value(RafMetadataTag::UnknownDimensions1, b) == MetadataValue::Unknown(b),
        b.len() != 4 ==> metadata_value(RafMetadataTag::UnknownDimensions1Inverted, b) == MetadataValue::Unknown(b),
        b.len() != 4 ==> metadata_value(RafMetadataTag::UnknownDimensions2, b) == MetadataValue::Unknown(b),
        b.len() != 4 ==> metadata_value(RafMetadataTag::UnknownExposureBias, b) == MetadataValue::Unknown(b),
        b.len() != 4 ==> metadata_value(RafMetadataTag::WhiteBalancePreset, b) == MetadataValue::Unknown(b),
        b.len() != 8 ==> metadata_value(RafMetadataTag::ImageSequenceShutterDuration, b) == MetadataValue::Unknown(b),
        b.len() != 8 ==> metadata_value(RafMetadataTag::ImageSequenceApetureRatio, b) == MetadataValue::Unknown(b),
{
}

/// A record whose tag has no known layout stays unknown, whatever its size.
pub proof fn other_tags_decode_to_unknown(b: Seq<u8>, code: u16)
    ensures
        metadata_value(RafMetadataTag::Unknown(code), b) == MetadataValue::Unknown(b),
        metadata_value(RafMetadataTag::RawInfo, b) == MetadataValue::Unknown(b),
        metadata_value(RafMetadataTag::CFAPattern, b) == MetadataValue::Unknown(b),
        metadata_value(RafMetadataTag::MacroMode, b) == MetadataValue::Unknown(b),
        metadata_value(RafMetadataTag::FocusMode, b) == MetadataValue::Unknown(b),
        metadata_value(RafMetadataTag::AFMode, b) == MetadataValue::Unknown(b),
        metadata_value(RafMetadataTag::FocusPixel, b) == MetadataValue::Unknown(b),
        metadata_value(RafMetadataTag::PrioritySettings, b) == MetadataValue::Unknown(b),
        metadata_value(RafMetadataTag::FocusSettings, b) == MetadataValue::Unknown(b),
        metadata_value(RafMetadataTag::AFCSettings, b) == MetadataValue::Unknown(b),
        metadata_value(RafMetadataTag::ExrMode, b) == MetadataValue::Unknown(b),
        metadata_value(RafMetadataTag::FujiCropMode, b) == MetadataValue::Unknown(b),
        metadata_value(RafMetadataTag::ShutterType, b) == MetadataValue::Unknown(b),
        metadata_value(RafMetadataTag::AutoBracketing, b) == MetadataValue::Unknown(b),
        metadata_value(RafMetadataTag::SequenceNumber, b) == MetadataValue::Unknown(b),
        metadata_value(RafMetadataTag::DriveMode, b) == MetadataValue::Unknown(b),
        metadata_value(RafMetadataTag::SeriesLength, b) == MetadataValue::Unknown(b),
        metadata_value(RafMetadataTag::PixelShiftOffset, b) == MetadataValue::Unknown(b),
        metadata_value(RafMetadataTag::FocusWarning, b) == MetadataValue::Unknown(b),
        metadata_value(RafMetadataTag::DynamicRange, b) == MetadataValue::Unknown(b),
        metadata_value(RafMetadataTag::FilmMode, b) == MetadataValue::Unknown(b),
        metadata_value(RafMetadataTag::DynamicRangeSetting, b) == MetadataValue::Unknown(b),
        metadata_value(RafMetadataTag::DevDynamicRange, b) == MetadataValue::Unknown(b),
        metadata_value(RafMetadataTag::MinFocalLength, b) == MetadataValue::Unknown(b),
        metadata_value(RafMetadataTag::MaxFocalLength, b) == MetadataValue::Unknown(b),
        metadata_value(RafMetadataTag::MaxApertureMinFocal, b) == MetadataValue::Unknown(b),
        metadata_value(RafMetadataTag::MaxApertureMaxFocal, b) == MetadataValue::Unknown(b),
        metadata_value(RafMetadataTag::AutoDynamicRange, b) == MetadataValue::Unknown(b),
        metadata_value(RafMetadataTag::ImageStabilization, b) == MetadataValue::Unknown(b),
        metadata_value(RafMetadataTag::Rating, b) == MetadataValue::Unknown(b),
        metadata_value(RafMetadataTag::ImageCount, b) == MetadataValue::Unknown(b),
        metadata_value(RafMetadataTag::DRangePriority, b) == MetadataValue::Unknown(b),
        metadata_value(RafMetadataTag::DRangePriorityAuto, b) == MetadataValue::Unknown(b),
        metadata_value(RafMetadataTag::DRangePriorityFixed, b) == MetadataValue::Unknown(b),
        metadata_value(RafMetadataTag::WhiteBalanceRGB, b) == MetadataValue::Unknown(b),
        metadata_value(RafMetadataTag::CameraMultiplier, b) == MetadataValue::Unknown(b),
        metadata_value(RafMetadataTag::RelativeExposure, b) == MetadataValue::Unknown(b),
        metadata_value(RafMetadataTag::OtherData, b) == MetadataValue::Unknown(b),
        metadata_value(RafMetadataTag::UnknownData, b) == MetadataValue::Unknown(b),
{
}


/// Reading `n` bytes gives the `n` bytes at the position and moves past them,
/// keeping the byte order; zero bytes can be read at any position; where
/// fewer than `n` bytes remain, the read fails and the reader stays.
pub proof fn reading_bytes(r: ReaderView, n: int)
    requires
        r.valid(),
        n >= 0,
    ensures
        n == 0 ==> spec_read_bytes(r, n) == Outcome::Value(
            Seq::<u8>::empty(),
            ReaderView { data: r.data, pos: r.pos, endian: r.endian },
        ),
        n > 0 && r.pos + n <= r.data.len() ==> spec_read_bytes(r, n) == Outcome::Value(
            r.data.subrange(r.pos, r.pos + n),
            ReaderView { data: r.data, pos: r.pos + n, endian: r.endian },
        ),
        n > 0 && r.pos + n > r.data.len() ==> spec_read_bytes(r, n) == Outcome::<Seq<u8>>::Failed(
            ReadError::UnexpectedEof,
            r,
        ),
{
}

/// A `u16`, `u32` or `u64` is read from the bytes at the position, most
/// significant byte first in big-endian order and last in little-endian
/// order, and the reader moves past them; where too few bytes remain, the
/// read fails and the reader stays.
pub proof fn reading_integers(r: ReaderView)
    requires
        r.valid(),
    ensures
        ({
            let d = r.data;
            let p = r.pos;
            &&& p + 2 <= d.len() && r.endian == Endian::Big ==> spec_read_u16(r) == Outcome::Value(
                (d[p] * 256 + d[p + 1]) as u16,
                ReaderView { data: d, pos: p + 2, endian: r.endian },
            )
            &&& p + 2 <= d.len() && r.endian == Endian::Little ==> spec_read_u16(r)
                == Outcome::Value(
                (d[p + 1] * 256 + d[p]) as u16,
                ReaderView { data: d, pos: p + 2, endian: r.endian },
            )
            &&& p + 4 <= d.len() && r.endian == Endian::Big ==> spec_read_u32(r) == Outcome::Value(
                (((d[p] * 256 + d[p + 1]) * 256 + d[p + 2]) * 256 + d[p + 3]) as u32,
                ReaderView { data: d, pos: p + 4, endian: r.endian },
            )
            &&& p + 4 <= d.len() && r.endian == Endian::Little ==> spec_read_u32(r)
                == Outcome::Value(
                (((d[p + 3] * 256 + d[p + 2]) * 256 + d[p + 1]) * 256 + d[p]) as u32,
                ReaderView { data: d, pos: p + 4, endian: r.endian },
            )
            &&& p + 8 <= d.len() && r.endian == Endian::Big ==> spec_read_u64(r) == Outcome::Value(
                ((((d[p] * 256 + d[p + 1]) * 256 + d[p + 2]) * 256 + d[p + 3]) * 0x1_0000_0000 + (((d[p
                    + 4] * 256 + d[p + 5]) * 256 + d[p + 6]) * 256 + d[p + 7])) as u64,
                ReaderView { data: d, pos: p + 8, endian: r.endian },
            )
            &&& p + 8 <= d.len() && r.endian == Endian::Little ==> spec_read_u64(r)
                == Outcome::Value(
                ((((d[p + 7] * 256 + d[p + 6]) * 256 + d[p + 5]) * 256 + d[p + 4]) * 0x1_0000_0000 + (((d[p
                    + 3] * 256 + d[p + 2]) * 256 + d[p + 1]) * 256 + d[p])) as u64,
                ReaderView { data: d, pos: p + 8, endian: r.endian },
            )
            &&& p + 2 > d.len() ==> spec_read_u16(r) == Outcome::<u16>::Failed(ReadError::UnexpectedEof, r)
            &&& p + 4 > d.len() ==> spec_read_u32(r) == Outcome::<u32>::Failed(ReadError::UnexpectedEof, r)
            &&& p + 8 > d.len() ==> spec_read_u64(r) == Outcome::<u64>::Failed(ReadError::UnexpectedEof, r)
        }),
{
    let d = r.data;
    let p = r.pos;
    if p + 8 <= d.len() {
        let b = d.subrange(p, p + 8);
        assert(b.subrange(0, 4) =~= d.subrange(p, p + 4));
        assert(b.subrange(4, 8) =~= d.subrange(p + 4, p + 8));
    }
}

/// A skip moves the position by its argument where the new position lies
/// from 0 to `i64::MAX`, and otherwise fails and leaves the reader.
pub proof fn skipping(r: ReaderView, bytes: int)
    requires
        r.valid(),
    ensures
        0 <= r.pos + bytes <= i64::MAX ==> spec_skip(r, bytes) == Outcome::Value(
            (),
            ReaderView { data: r.data, pos: r.pos + bytes, endian: r.endian },
        ),
        !(0 <= r.pos + bytes <= i64::MAX) ==> spec_skip(r, bytes) == Outcome::<()>::Failed(
            ReadError::InvalidSeek,
            r,
        ),
{
}

/// A seek from the end goes to the length plus the offset and reports that
/// position, the end itself included; a target before the first byte or
/// above `i64::MAX` fails and leaves the reader.
pub proof fn seeking_from_the_end(r: ReaderView, offset: i64)
    requires
        r.valid(),
    ensures
        0 <= r.data.len() + offset <= i64::MAX ==> spec_seek(r, SeekFrom::End(offset))
            == Outcome::Value(
            (r.data.len() + offset) as u64,
            ReaderView { data: r.data, pos: r.data.len() + offset, endian: r.endian },
        ),
        !(0 <= r.data.len() + offset <= i64::MAX) ==> spec_seek(r, SeekFrom::End(offset))
            == Outcome::<u64>::Failed(ReadError::InvalidSeek, r),
{
}

/// A seek from the start to an offset up to `i64::MAX` goes to that offset
/// and reports the distance moved, as a `u64`.
pub proof fn seeking_from_the_start(r: ReaderView, offset: u64)
    requires
        r.valid(),
        offset <= i64::MAX,
    ensures
        spec_seek(r, SeekFrom::Start(offset)) == Outcome::Value(
            (offset - r.pos) as u64,
            ReaderView { data: r.data, pos: offset as int, endian: r.endian },
        ),
{
}

/// A seek from the current position moves by the offset where it can, and
/// reports the position it ends at plus the offset.
pub proof fn seeking_from_the_current_position(r: ReaderView, offset: i64)
    requires
        r.valid(),
        offset >= 0,
        r.pos + offset <= i64::MAX,
    ensures
        spec_seek(r, SeekFrom::Current(offset)) == Outcome::Value(
            (r.pos + 2 * offset) as u64,
            ReaderView { data: r.data, pos: r.pos + offset, endian: r.endian },
        ),
{
}

/// A record is read big-endian from its own bytes: a tag code in two bytes,
/// a payload size in two bytes, then the payload, decoded by its tag; the
/// reader ends past the payload, big-endian.
pub proof fn reading_a_record(r: ReaderView)
    requires
        r.valid(),
        r.pos + 4 <= r.data.len(),
        r.pos + 4 + (r.data[r.pos + 2] * 256 + r.data[r.pos + 3]) <= r.data.len(),
    ensures
        ({
            let d = r.data;
            let p = r.pos;
            let size = d[p + 2] * 256 + d[p + 3];
            let tag = tag_of((d[p] * 256 + d[p + 1]) as u16);
            item_parse(r) == Outcome::Value(
                MetadataItem { tag: tag, value: metadata_value(tag, d.subrange(p + 4, p + 4 + size)) },
                ReaderView { data: d, pos: p + 4 + size, endian: Endian::Big },
            )
        }),
{
    let d = r.data;
    let p = r.pos;
    let size = d[p + 2] * 256 + d[p + 3];
    assert(d.subrange(p, p + 4).subrange(0, 2) =~= d.subrange(p, p + 2));
    assert(d.subrange(p, p + 4).subrange(2, 4) =~= d.subrange(p + 2, p + 4));
    assert(d.subrange(p, p + 4 + size).subrange(4, 4 + size) =~= d.subrange(p + 4, p + 4 + size));
}

/// Reading no records yields none and leaves the reader; reading `n + 1`
/// records is reading one record and then `n` more from where it ended.
pub proof fn reading_records_one_after_another(r: ReaderView, n: nat)
    ensures
        items_parse(r, 0) == Outcome::Value(Seq::<MetadataItem>::empty(), r),
        items_parse(r, n + 1) == item_parse(r).and_then(
            |it: MetadataItem, r1: ReaderView|
                items_parse(r1, n).map(|rest: Seq<MetadataItem>| seq![it] + rest),
        ),
    decreases n,
{
    if n > 0 {
        reading_records_one_after_another(r, (n - 1) as nat);
        match item_parse(r) {
            Outcome::Value(it, r1) => {
                match items_parse(r1, (n - 1) as nat) {
                    Outcome::Value(rest, r2) => {
                        match item_parse(r2) {
                            Outcome::Value(it2, r3) => {
                                assert((seq![it] + rest).push(it2) =~= seq![it] + rest.push(it2));
                            },
                            _ => {},
                        }
                    },
                    _ => {},
                }
            },
            _ => {},
        }
    } else {
        match item_parse(r) {
            Outcome::Value(it, r1) => {
                assert(Seq::<MetadataItem>::empty().push(it) =~= seq![it] + Seq::<MetadataItem>::empty());
            },
            _ => {},
        }
    }
}

/// Reading no images yields none and leaves the reader; reading `n + 1`
/// images is reading one image and then `n` more from where it ended.
pub proof fn reading_images_one_after_another(r: ReaderView, n: nat, count: nat)
    ensures
        images_parse(r, 0, count) == Outcome::Value(Seq::<SequenceImageModel>::empty(), r),
        images_parse(r, n + 1, count) == image_parse(r, count).and_then(
            |im: SequenceImageModel, r1: ReaderView|
                images_parse(r1, n, count).map(
                    |rest: Seq<SequenceImageModel>| seq![im] + rest,
                ),
        ),
    decreases n,
{
    if n > 0 {
        reading_images_one_after_another(r, (n - 1) as nat, count);
        match image_parse(r, count) {
            Outcome::Value(im, r1) => {
                match images_parse(r1, (n - 1) as nat, count) {
                    Outcome::Value(rest, r2) => {
                        match image_parse(r2, count) {
                            Outcome::Value(im2, r3) => {
                                assert((seq![im] + rest).push(im2) =~= seq![im] + rest.push(im2));
                            },
                            _ => {},
                        }
                    },
                    _ => {},
                }
            },
            _ => {},
        }
    } else {
        match image_parse(r, count) {
            Outcome::Value(im, r1) => {
                assert(Seq::<SequenceImageModel>::empty().push(im) =~= seq![im] + Seq::<
                    SequenceImageModel,
                >::empty());
            },
            _ => {},
        }
    }
}

/// The printed form of the first `n` records is each record's printed form,
/// in order.
pub proof fn records_print_in_order(items: Seq<MetadataItem>, n: nat)
    ensures
        items_text(items, n) == Seq::new(n, |k: int| item_text(items[k])).flatten(),
    decreases n,
{
    if n > 0 {
        records_print_in_order(items, (n - 1) as nat);
        let f = |k: int| item_text(items[k]);
        assert(Seq::new(n, f) =~= Seq::new((n - 1) as nat, f).push(f(n - 1)));
        Seq::new((n - 1) as nat, f).lemma_flatten_push(f(n - 1));
    } else {
        assert(Seq::new(0, |k: int| item_text(items[k])) =~= Seq::<Seq<Part>>::empty());
    }
}

/// The printed form of the first `n` images is, for each `k` from 1 to `n`,
/// the heading "Image k:" and the printed form of the `k`-th image.
pub proof fn images_print_in_order_under_numbered_headings(images: Seq<SequenceImageModel>, n: nat)
    ensures
        images_text(images, n) == Seq::new(
            n,
            |k: int|
                seq![
                    Part::Literal("Image "@),
                    Part::Decimal((k + 1) as u64),
                    Part::Literal(":\n"@),
                ] + image_text(images[k]),
        ).flatten(),
    decreases n,
{
    let f = |k: int|
        seq![
            Part::Literal("Image "@),
            Part::Decimal((k + 1) as u64),
            Part::Literal(":\n"@),
        ] + image_text(images[k]);
    if n > 0 {
        images_print_in_order_under_numbered_headings(images, (n - 1) as nat);
        assert(Seq::new(n, f) =~= Seq::new((n - 1) as nat, f).push(f(n - 1)));
        Seq::new((n - 1) as nat, f).lemma_flatten_push(f(n - 1));
        assert(images_text(images, n) =~= images_text(images, (n - 1) as nat) + f(n - 1));
    } else {
        assert(Seq::new(0, f) =~= Seq::<Seq<Part>>::empty());
    }
}


/// The big-endian `u16` at `q` in `d`.
pub open spec fn be16_at(d: Seq<u8>, q: int) -> u16 {
    (d[q] * 256 + d[q + 1]) as u16
}

/// The `u16` at `q` in `d` in the byte order `e`.
pub open spec fn u16_at_in(d: Seq<u8>, q: int, e: Endian) -> u16 {
    match e {
        Endian::Big => (d[q] * 256 + d[q + 1]) as u16,
        Endian::Little => (d[q + 1] * 256 + d[q]) as u16,
    }
}

/// The big-endian `u32` at `q` in `d`.
pub open spec fn be32_at(d: Seq<u8>, q: int) -> u32 {
    (((d[q] * 256 + d[q + 1]) * 256 + d[q + 2]) * 256 + d[q + 3]) as u32
}

/// The big-endian `u64` at `q` in `d`.
pub open spec fn be64_at(d: Seq<u8>, q: int) -> u64 {
    (be32_at(d, q) * 0x1_0000_0000 + be32_at(d, q + 4)) as u64
}

/// The reader over `d` at `pos` in the byte order `e`.
pub open spec fn at(d: Seq<u8>, pos: int, e: Endian) -> ReaderView {
    ReaderView { data: d, pos: pos, endian: e }
}

/// The magic numbers: "FUJIFILMCCD-RAW " opens a RAF, "FUJIFILMM-RAW   1.00"
/// an image-sequence block, and "Exif\0\0" the Exif segment.
pub proof fn magic_numbers()
    ensures
        raf_magic() == seq![
            0x46u8, 0x55u8, 0x4Au8, 0x49u8, 0x46u8, 0x49u8, 0x4Cu8, 0x4Du8, 0x43u8, 0x43u8, 0x44u8,
            0x2Du8, 0x52u8, 0x41u8, 0x57u8, 0x20u8,
        ],
        sequence_magic() == seq![
            0x46u8, 0x55u8, 0x4Au8, 0x49u8, 0x46u8, 0x49u8, 0x4Cu8, 0x4Du8, 0x4Du8, 0x2Du8, 0x52u8,
            0x41u8, 0x57u8, 0x20u8, 0x20u8, 0x20u8, 0x31u8, 0x2Eu8, 0x30u8, 0x30u8,
        ],
        exif_magic() == seq![0x45u8, 0x78u8, 0x69u8, 0x66u8, 0x00u8, 0x00u8],
{
}

/// The mark "II" names Intel order, "MM" Motorola order, and any other mark
/// is kept as unknown.
pub proof fn byte_order_marks(mark: u16)
    ensures
        byte_order_of(0x4949) == ByteOrder::Intel,
        byte_order_of(0x4D4D) == ByteOrder::Motorola,
        mark != 0x4949 && mark != 0x4D4D ==> byte_order_of(mark) == ByteOrder::Unknown(mark),
{
}

/// A metadata block is a big-endian `u32` count at the position followed by
/// that many records; where fewer than four bytes remain, reading fails.
pub proof fn reading_a_metadata_block(r: ReaderView)
    requires
        r.valid(),
    ensures
        r.pos + 4 <= r.data.len() ==> container_parse(r) == items_parse(
            at(r.data, r.pos + 4, Endian::Big),
            be32_at(r.data, r.pos) as nat,
        ).map(
            |items: Seq<MetadataItem>|
                MetadataContainerModel { count: be32_at(r.data, r.pos), items: items },
        ),
        r.pos + 4 > r.data.len() ==> container_parse(r) == Outcome::<MetadataContainerModel>::Failed(
            ReadError::UnexpectedEof,
            at(r.data, r.pos, Endian::Big),
        ),
{
}

/// An image of a sequence, read big-endian, is the `u64` offset and the
/// `u64` size of its sensor data followed by its records.
pub proof fn reading_a_sequence_image(r: ReaderView, count: nat)
    requires
        r.valid(),
        r.endian == Endian::Big,
        r.pos + 16 <= r.data.len(),
    ensures
        image_parse(r, count) == items_parse(at(r.data, r.pos + 16, Endian::Big), count).map(
            |items: Seq<MetadataItem>|
                SequenceImageModel {
                    cfa_offset: be64_at(r.data, r.pos),
                    cfa_size: be64_at(r.data, r.pos + 8),
                    items: items,
                },
        ),
{
    let d = r.data;
    let p = r.pos;
    assert(d.subrange(p, p + 8).subrange(0, 4) =~= d.subrange(p, p + 4));
    assert(d.subrange(p, p + 8).subrange(4, 8) =~= d.subrange(p + 4, p + 8));
    assert(d.subrange(p + 8, p + 16).subrange(0, 4) =~= d.subrange(p + 8, p + 12));
    assert(d.subrange(p + 8, p + 16).subrange(4, 8) =~= d.subrange(p + 12, p + 16));
}

/// An image-sequence block is, big-endian: the additional image count at 0,
/// the total image count at 4, a 12-byte UTF-8 version at 8, the record
/// block size at 20 and the record count per image at 22, then from 24 the
/// images; a version that is not UTF-8 is reported with the reader past it.
pub proof fn reading_an_image_sequence_block(r: ReaderView)
    requires
        r.valid(),
    ensures
        ({
            let d = r.data;
            let p = r.pos;
            let version = d.subrange(p + 8, p + 20);
            &&& p + 24 <= d.len() && valid_utf8(version) ==> sequence_parse(r) == images_parse(
                at(d, p + 24, Endian::Big),
                be32_at(d, p + 4) as nat,
                be16_at(d, p + 22) as nat,
            ).map(
                |images: Seq<SequenceImageModel>|
                    SequenceContainerModel {
                        additional_image_count: be32_at(d, p),
                        total_image_count: be32_at(d, p + 4),
                        version: decode_utf8(version),
                        metadata_size: be16_at(d, p + 20),
                        metadata_count: be16_at(d, p + 22),
                        images: images,
                    },
            )
            &&& p + 20 <= d.len() && !valid_utf8(version) ==> sequence_parse(r)
                == Outcome::<SequenceContainerModel>::InvalidText(version, at(d, p + 20, Endian::Big))
        }),
{
}

/// A RAF header is the magic at 0; then, big-endian, a 32-byte UTF-8 camera
/// name at 28, the version at 60, and the JPEG offset, JPEG size and
/// metadata offset at 84, 88 and 92; the reader ends at 96. A camera name
/// that is not UTF-8 is reported with the reader past it.
pub proof fn reading_a_raf_header(r: ReaderView)
    requires
        r.valid(),
        r.pos + 96 <= r.data.len(),
        r.data.subrange(r.pos, r.pos + 16) == raf_magic(),
    ensures
        ({
            let d = r.data;
            let p = r.pos;
            let camera = d.subrange(p + 28, p + 60);
            &&& valid_utf8(camera) ==> header_parse(r) == Outcome::Value(
                RafHeader {
                    camera: decode_utf8(camera),
                    version: be32_at(d, p + 60),
                    jpeg_offset: be32_at(d, p + 84),
                    jpeg_size: be32_at(d, p + 88),
                    meta_offset: be32_at(d, p + 92),
                },
                at(d, p + 96, Endian::Big),
            )
            &&& !valid_utf8(camera) ==> header_parse(r) == Outcome::<RafHeader>::InvalidText(
                camera,
                at(d, p + 60, Endian::Big),
            )
        }),
{
}

/// An image-sequence block is looked for only where the position is more
/// than 60 bytes before the JPEG: it follows where the 20 bytes at 40 are the
/// image-sequence magic, and is read from 60.
pub proof fn looking_for_an_image_sequence(r: ReaderView, jpeg_offset: u32)
    requires
        r.valid(),
    ensures
        r.pos + 60 >= jpeg_offset ==> sequence_probe(r, jpeg_offset) == Outcome::Value(
            None::<SequenceContainerModel>,
            r,
        ),
        r.pos + 60 < jpeg_offset && r.pos + 60 <= r.data.len() && r.data.subrange(
            r.pos + 40,
            r.pos + 60,
        ) == sequence_magic() ==> sequence_probe(r, jpeg_offset) == sequence_parse(
            at(r.data, r.pos + 60, r.endian),
        ).map(|c: SequenceContainerModel| Some(c)),
        r.pos + 60 < jpeg_offset && r.pos + 60 <= r.data.len() && r.data.subrange(
            r.pos + 40,
            r.pos + 60,
        ) != sequence_magic() ==> sequence_probe(r, jpeg_offset) == Outcome::Value(
            None::<SequenceContainerModel>,
            at(r.data, r.pos + 60, r.endian),
        ),
{
}

/// A RAF is its header, then (12 bytes further, where that position can be
/// reached) the image-sequence block
/// where there is one, then the metadata block read at the metadata offset
/// and the Exif data read at the JPEG offset.
pub proof fn reading_a_raf(r: ReaderView)
    requires
        r.valid(),
        header_parse(r) is Value,
    ensures
        ({
            let h = header_parse(r)->Value_0;
            let r1 = header_parse(r)->Value_1;
            let p1 = if r1.pos + 12 <= i64::MAX { r1.pos + 12 } else { r1.pos };
            raf_parse(r) == sequence_probe(at(r.data, p1, Endian::Big), h.jpeg_offset).and_then(
                |image_sequence: Option<SequenceContainerModel>, r2: ReaderView|
                    container_parse(at(r2.data, h.meta_offset as int, r2.endian)).and_then(
                        |metadata: MetadataContainerModel, r3: ReaderView|
                            exif_parse(at(r3.data, h.jpeg_offset as int, r3.endian)).map(
                                |exif: ExifModel|
                                    RafModel {
                                        camera: h.camera,
                                        version: h.version,
                                        exif: exif,
                                        image_sequence: image_sequence,
                                        metadata: metadata,
                                    },
                            ),
                    ),
            )
        }),
{
    let h = header_parse(r)->Value_0;
    let r1 = header_parse(r)->Value_1;
    assert(r1.data == r.data && r1.endian == Endian::Big && r1.pos <= r.data.len());
}


/// The Exif segment search from just past a marker byte `m` stops at
/// end-of-image and start-of-scan with `MissingApp1`, and at a marker below
/// 0xC0 or from 0xF0 other than COM (0xFE) with `UnknownSection`; the reader
/// stays.
pub proof fn exif_search_stops(r: ReaderView, m: u8)
    requires
        r.valid(),
    ensures
        (m == 0xD9 || m == 0xDA) ==> exif_search(r, m) == Outcome::<u16>::Failed(
            ReadError::MissingApp1,
            r,
        ),
        (m < 0xC0 || (m >= 0xF0 && m != 0xFE)) ==> exif_search(r, m) == Outcome::<u16>::Failed(
            ReadError::UnknownSection,
            r,
        ),
{
}

/// RST, SOI and COM markers carry no length: the search goes on with the
/// next two bytes, whose second is the next marker.
pub proof fn exif_search_passes_bare_markers(r: ReaderView, m: u8)
    requires
        r.valid(),
        (0xD0 <= m <= 0xD8) || m == 0xFE,
    ensures
        r.pos + 2 <= r.data.len() ==> exif_search(r, m) == exif_search(
            at(r.data, r.pos + 2, r.endian),
            r.data[r.pos + 1],
        ),
        r.pos + 2 > r.data.len() ==> exif_search(r, m) == Outcome::<u16>::Failed(
            ReadError::UnexpectedEof,
            r,
        ),
{
}

/// The other segments before APP1 and after it carry a length in the
/// reader's byte order; the search jumps that length past the length field
/// and goes on with the two bytes there.
pub proof fn exif_search_jumps_segments(r: ReaderView, m: u8)
    requires
        r.valid(),
        (0xC0 <= m <= 0xCF) || (0xDB <= m <= 0xDF) || m == 0xE0 || (0xE2 <= m <= 0xEF),
        r.pos + 2 <= r.data.len(),
        r.pos + 4 + u16_at_in(r.data, r.pos, r.endian) <= r.data.len(),
    ensures
        ({
            let q = r.pos + 2 + u16_at_in(r.data, r.pos, r.endian);
            exif_search(r, m) == exif_search(at(r.data, q + 2, r.endian), r.data[q + 1])
        }),
{
    let d = r.data;
    let p = r.pos;
    assert(d.subrange(p, p + 2)[0] == d[p] && d.subrange(p, p + 2)[1] == d[p + 1]);
}

/// An APP1 segment with a length of at least 6 whose next six bytes are
/// "Exif\0\0" is the Exif segment: the search ends with its length and the
/// reader past the magic. Any other APP1 segment is jumped over like the
/// other segments.
pub proof fn exif_search_finds_app1(r: ReaderView)
    requires
        r.valid(),
        r.pos + 2 <= r.data.len(),
    ensures
        ({
            let d = r.data;
            let p = r.pos;
            let len = u16_at_in(d, p, r.endian) as int;
            let q = p + 2 + len;
            &&& p + 8 <= d.len() && len >= 6 && d.subrange(p + 2, p + 8) == exif_magic()
                ==> exif_search(r, 0xE1) == Outcome::Value(len as u16, at(d, p + 8, r.endian))
            &&& p + 8 <= d.len() && len >= 6 && d.subrange(p + 2, p + 8) != exif_magic() && q + 2
                <= d.len() ==> exif_search(r, 0xE1) == exif_search(at(d, q + 2, r.endian), d[q + 1])
            &&& len < 6 && q + 2 <= d.len() ==> exif_search(r, 0xE1) == exif_search(
                at(d, q + 2, r.endian),
                d[q + 1],
            )
        }),
{
    let d = r.data;
    let p = r.pos;
    assert(d.subrange(p, p + 2)[0] == d[p] && d.subrange(p, p + 2)[1] == d[p + 1]);
}

/// Exif data is read from a JPEG whose first byte is 0xFF, by the segment
/// search from its second byte; any other first byte fails with
/// `InvalidJpeg`, with the reader past the two bytes. After the Exif magic
/// come the byte-order mark and the directory entry count.
pub proof fn reading_exif_data(r: ReaderView, found: Outcome<u16>)
    requires
        r.valid(),
        r.pos + 2 <= r.data.len(),
    ensures
        r.data[r.pos] != 0xFF ==> exif_parse(r) == Outcome::<ExifModel>::Failed(
            ReadError::InvalidJpeg,
            at(r.data, r.pos + 2, r.endian),
        ),
        r.data[r.pos] == 0xFF ==> exif_parse(r) == exif_after_search(
            exif_search(at(r.data, r.pos + 2, r.endian), r.data[r.pos + 1]),
        ),
        found matches Outcome::Value(size, s) ==> s.valid() && s.pos + 4 <= s.data.len()
            ==> exif_after_search(found) == Outcome::Value(
            ExifModel {
                size: size,
                byte_order: byte_order_of(u16_at_in(s.data, s.pos, s.endian)),
                directory_count: 0,
            },
            at(s.data, s.pos + 4, s.endian),
        ),
{
    if let Outcome::Value(size, s) = found {
        if s.valid() && s.pos + 4 <= s.data.len() {
            assert(s.data.subrange(s.pos, s.pos + 2)[0] == s.data[s.pos]);
        }
    }
}


/// The entries of a printed list, one per number: the first the number, the
/// others a comma and a space before the number.
pub open spec fn entry(values: Seq<u64>, k: int) -> Seq<Part> {
    if k == 0 {
        seq![Part::Decimal(values[k])]
    } else {
        seq![Part::Literal(", "@), Part::Decimal(values[k])]
    }
}

/// A list of numbers prints as "[", the numbers separated by ", ", and "]".
pub proof fn number_lists_print(values: Seq<u64>)
    ensures
        number_list(values) == seq![Part::Literal("["@)] + Seq::new(
            values.len(),
            |k: int| entry(values, k),
        ).flatten() + seq![Part::Literal("]"@)],
{
    list_entries_in_order(values);
}

proof fn list_entries_in_order(values: Seq<u64>)
    ensures
        list_entries(values) == Seq::new(values.len(), |k: int| entry(values, k)).flatten(),
    decreases values.len(),
{
    let f = |k: int| entry(values, k);
    if values.len() == 0 {
        assert(Seq::new(0, f) =~= Seq::<Seq<Part>>::empty());
    } else {
        let init = values.drop_last();
        list_entries_in_order(init);
        let g = |k: int| entry(init, k);
        assert(Seq::new(init.len(), g) =~= Seq::new(init.len(), f));
        assert(Seq::new(values.len(), f) =~= Seq::new(init.len(), f).push(f(init.len() as int)));
        Seq::new(init.len(), f).lemma_flatten_push(f(init.len() as int));
        assert(list_entries(values) =~= list_entries(init) + f(init.len() as int));
    }
}

/// Bytes print as the list of their values.
pub proof fn byte_values_are_the_bytes(b: Seq<u8>)
    ensures
        byte_values(b).len() == b.len(),
        forall|k: int| 0 <= k < b.len() ==> byte_values(b)[k] == b[k] as u64,
{
}

/// How each kind of metadata value prints: dimensions as "x x y", positions
/// as "x y", Kelvin with "K", exposure values with " EV", numbers alone,
/// aspect ratios as "a:b", model text as lossy UTF-8, exposure biases with
/// "EV", shutter durations longer than a second as a quotient with "s" and
/// others as "n/ds", apertures with "f/"; an unknown payload as its bytes,
/// followed for two bytes by their `u16`, for four by their `u32`, their two
/// `u16` and their `f32`, for eight by their two `u32`, and cut to 64 bytes
/// where it is longer.
pub proof fn values_print(v: MetadataValue)
    ensures
        v matches MetadataValue::Dimensions((x, y)) ==> value_text(v) == seq![
            Part::Decimal(x as u64),
            Part::Literal(" x "@),
            Part::Decimal(y as u64),
        ],
        v matches MetadataValue::Position((x, y)) ==> value_text(v) == seq![
            Part::Decimal(x as u64),
            Part::Literal(" "@),
            Part::Decimal(y as u64),
        ],
        v matches MetadataValue::Kelvin(k) ==> value_text(v) == seq![
            Part::Decimal(k as u64),
            Part::Literal("K"@),
        ],
        v matches MetadataValue::ExposureValue(bits) ==> value_text(v) == seq![
            Part::Float32(bits),
            Part::Literal(" EV"@),
        ],
        v matches MetadataValue::Number(n) ==> value_text(v) == seq![Part::Decimal(n as u64)],
        v matches MetadataValue::AspectRatio((a, b)) ==> value_text(v) == seq![
            Part::Decimal(a as u64),
            Part::Literal(":"@),
            Part::Decimal(b as u64),
        ],
        v matches MetadataValue::ASCIIText(b) ==> value_text(v) == seq![Part::Lossy(b)],
        v matches MetadataValue::ExposureBias(q) ==> value_text(v) == seq![
            Part::SignedQuotient(q),
            Part::Literal("EV"@),
        ],
        v matches MetadataValue::ShutterDuration((n, d)) ==> value_text(v) == if n > d {
            seq![Part::Quotient((n, d)), Part::Literal("s"@)]
        } else {
            seq![
                Part::Decimal(n as u64),
                Part::Literal("/"@),
                Part::Decimal(d as u64),
                Part::Literal("s"@),
            ]
        },
        v matches MetadataValue::ApertureRatio(q) ==> value_text(v) == seq![
            Part::Literal("f/"@),
            Part::Quotient(q),
        ],
        v matches MetadataValue::Unknown(b) ==> value_text(v) == if b.len() == 2 {
            number_list(byte_values(b)) + seq![
                Part::Literal(" u16: "@),
                Part::Decimal((b[0] * 256 + b[1]) as u64),
            ]
        } else if b.len() == 4 {
            number_list(byte_values(b)) + seq![
                Part::Literal(" u32: "@),
                Part::Decimal((((b[0] * 256 + b[1]) * 256 + b[2]) * 256 + b[3]) as u64),
                Part::Literal(" [u16; 2]: "@),
            ] + number_list(seq![(b[0] * 256 + b[1]) as u64, (b[2] * 256 + b[3]) as u64])
                + seq![
                Part::Literal(" f32: "@),
                Part::Float32Fixed8((((b[0] * 256 + b[1]) * 256 + b[2]) * 256 + b[3]) as u32),
            ]
        } else if b.len() == 8 {
            number_list(byte_values(b)) + seq![Part::Literal(" [u32; 2]: "@)] + number_list(
                seq![
                    (((b[0] * 256 + b[1]) * 256 + b[2]) * 256 + b[3]) as u64,
                    (((b[4] * 256 + b[5]) * 256 + b[6]) * 256 + b[7]) as u64,
                ],
            )
        } else if b.len() < 64 {
            number_list(byte_values(b))
        } else {
            number_list(byte_values(b.take(64))) + seq![Part::Literal(" trimmed for size..."@)]
        },
{
}

/// A named tag prints as its name; an unknown one as "Unknown(0x", its code
/// in at least four upper-case hexadecimal digits, and ")".
pub proof fn tags_print(tag: RafMetadataTag)
    ensures
        tag_name(tag) matches Some(name) ==> tag_text(tag) == seq![Part::Literal(name)],
        tag matches RafMetadataTag::Unknown(code) ==> tag_text(tag) == seq![
            Part::Literal("Unknown(0x"@),
            Part::UpperHex4(code),
            Part::Literal(")"@),
        ],
{
}

/// A record prints on a line of its own: a tab, the tag, ": ", the value.
pub proof fn records_print(it: MetadataItem)
    ensures
        item_text(it) == seq![Part::Literal("\t"@)] + tag_text(it.tag) + seq![
            Part::Literal(": "@),
        ] + value_text(it.value) + seq![Part::Literal("\n"@)],
{
}

/// A metadata block prints its first `count` records in order.
pub proof fn metadata_blocks_print(m: MetadataContainerModel)
    ensures
        container_text(m) == Seq::new(m.count as nat, |k: int| item_text(m.items[k])).flatten(),
{
    records_print_in_order(m.items, m.count as nat);
}

/// An image of a sequence prints its sensor data offset and size, each on a
/// line, then all its records in order.
pub proof fn sequence_images_print(im: SequenceImageModel)
    ensures
        image_text(im) == seq![
            Part::Literal("\tCFA Offset: "@),
            Part::Decimal(im.cfa_offset),
            Part::Literal("\n"@),
            Part::Literal("\tCFA Size: "@),
            Part::Decimal(im.cfa_size),
            Part::Literal("\n"@),
        ] + Seq::new(im.items.len(), |k: int| item_text(im.items[k])).flatten(),
{
    records_print_in_order(im.items, im.items.len());
}

/// An image-sequence block prints its total image count, its record count
/// and its version, each on a line, then its first `total` images, each
/// under the heading "Image k:".
pub proof fn image_sequence_blocks_print(c: SequenceContainerModel)
    ensures
        sequence_text(c) == seq![
            Part::Literal("\tTotal Images in Sequence: "@),
            Part::Decimal(c.total_image_count as u64),
            Part::Literal("\n"@),
            Part::Literal("\tTag count: "@),
            Part::Decimal(c.metadata_count as u64),
            Part::Literal("\n"@),
            Part::Literal("\tVersion: "@),
            Part::Text(c.version),
            Part::Literal("\n"@),
        ] + Seq::new(
            c.total_image_count as nat,
            |k: int|
                seq![
                    Part::Literal("Image "@),
                    Part::Decimal((k + 1) as u64),
                    Part::Literal(":\n"@),
                ] + image_text(c.images[k]),
        ).flatten(),
{
    images_print_in_order_under_numbered_headings(c.images, c.total_image_count as nat);
}

/// A RAF prints "Camera: " and its camera name; "Version: " and its version
/// as the quoted text of its four big-endian bytes, in decimal and as "0x"
/// with upper-case hexadecimal; its image-sequence block under "Image
/// Sequence Metadata:" where it has one; and its metadata block under
/// "Metadata: ".
pub proof fn rafs_print(m: RafModel)
    ensures
        raf_text(m) == seq![
            Part::Literal("Camera: "@),
            Part::Text(m.camera),
            Part::Literal("\n"@),
            Part::Literal("Version: \""@),
            Part::Utf8(
                seq![
                    (m.version / 0x100_0000) as u8,
                    (m.version / 0x1_0000 % 0x100) as u8,
                    (m.version / 0x100 % 0x100) as u8,
                    (m.version % 0x100) as u8,
                ],
            ),
            Part::Literal("\" "@),
            Part::Decimal(m.version as u64),
            Part::Literal(" 0x"@),
            Part::UpperHex(m.version as u64),
            Part::Literal("\n"@),
        ] + (match m.image_sequence {
            Some(c) => seq![Part::Literal("Image Sequence Metadata:\n"@)] + sequence_text(c),
            None => Seq::empty(),
        }) + seq![Part::Literal("Metadata: \n"@)] + container_text(m.metadata),
{
}


/// A record that the data ends inside fails with `UnexpectedEof`, the reader
/// big-endian and past the last of its tag code, its size and its payload
/// that could be read whole.
pub proof fn reading_a_cut_record(r: ReaderView)
    requires
        r.valid(),
    ensures
        ({
            let d = r.data;
            let p = r.pos;
            &&& p + 2 > d.len() ==> item_parse(r) == Outcome::<MetadataItem>::Failed(
                ReadError::UnexpectedEof,
                at(d, p, Endian::Big),
            )
            &&& p + 2 <= d.len() < p + 4 ==> item_parse(r) == Outcome::<MetadataItem>::Failed(
                ReadError::UnexpectedEof,
                at(d, p + 2, Endian::Big),
            )
            &&& p + 4 <= d.len() && p + 4 + (d[p + 2] * 256 + d[p + 3]) > d.len() ==> item_parse(r)
                == Outcome::<MetadataItem>::Failed(ReadError::UnexpectedEof, at(d, p + 4, Endian::Big))
        }),
{
    let d = r.data;
    let p = r.pos;
    if p + 4 <= d.len() {
        assert(d.subrange(p, p + 4).subrange(2, 4) =~= d.subrange(p + 2, p + 4));
    }
}

/// A seek from the current position by any offset moves where the new
/// position lies from 0 to `i64::MAX`, and stays otherwise; it reports the
/// position it ends at plus the offset taken as a `u64`.
pub proof fn seeking_from_the_current_position_by_any_offset(r: ReaderView, offset: i64)
    requires
        r.valid(),
        seek_in_range(r, SeekFrom::Current(offset)),
    ensures
        ({
            let p = if 0 <= r.pos + offset <= i64::MAX { r.pos + offset } else { r.pos };
            spec_seek(r, SeekFrom::Current(offset)) == Outcome::Value(
                (p + (offset as u64)) as u64,
                at(r.data, p, r.endian),
            )
        }),
{
}

} // verus!
