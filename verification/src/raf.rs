//! Fujifilm RAF containers: the header, the optional image-sequence block,
//! the metadata records and the Exif segment of the embedded JPEG.

use vstd::prelude::*;

use crate::binary::{
    be_bytes_u32, be_u16, be_u32, decode_text, fault_agrees, pos_after_relative, read_agrees, spec_read_bytes,
    spec_read_text, spec_read_u16, spec_read_u32, spec_read_u64, spec_skip, BufBinaryReader,
    Endian, Fault, FromBinary, Outcome, ReadError, ReaderView, SeekFrom,
};
use crate::exif::{exif_parse, lemma_exif_never_text, ExifData, ExifModel};
use crate::tags::tag_of;
use crate::text::{
    parts_view, push_literal, push_part, push_tag, push_value, tag_text, value_text, Part,
    TextPart,
};

pub use crate::tags::RafMetadataTag;

verus! {

/// The value of a metadata record. An exposure value is held as the bit
/// pattern of its big-endian IEEE 754 `f32`; an exposure bias as the signed
/// numerator and the denominator (at least 1) of its fraction.
pub enum RafMetadataType {
    Unknown(Vec<u8>),
    Dimensions((u16, u16)),
    Position((u16, u16)),
    Kelvin(u32),
    ExposureValue(u32),
    Number(u32),
    AspectRatio((u16, u16)),
    ASCIIText(Vec<u8>),
    ExposureBias((i16, u16)),
    ShutterDuration((u32, u32)),
    ApertureRatio((u32, u32)),
}

/// What a `RafMetadataType` holds, with byte vectors as sequences.
pub enum MetadataValue {
    Unknown(Seq<u8>),
    Dimensions((u16, u16)),
    Position((u16, u16)),
    Kelvin(u32),
    ExposureValue(u32),
    Number(u32),
    AspectRatio((u16, u16)),
    ASCIIText(Seq<u8>),
    ExposureBias((i16, u16)),
    ShutterDuration((u32, u32)),
    ApertureRatio((u32, u32)),
}

impl View for RafMetadataType {
    type V = MetadataValue;

    open spec fn view(&self) -> MetadataValue {
        match self {
            RafMetadataType::Unknown(b) => MetadataValue::Unknown(b@),
            RafMetadataType::Dimensions(p) => MetadataValue::Dimensions(*p),
            RafMetadataType::Position(p) => MetadataValue::Position(*p),
            RafMetadataType::Kelvin(v) => MetadataValue::Kelvin(*v),
            RafMetadataType::ExposureValue(v) => MetadataValue::ExposureValue(*v),
            RafMetadataType::Number(v) => MetadataValue::Number(*v),
            RafMetadataType::AspectRatio(p) => MetadataValue::AspectRatio(*p),
            RafMetadataType::ASCIIText(b) => MetadataValue::ASCIIText(b@),
            RafMetadataType::ExposureBias(p) => MetadataValue::ExposureBias(*p),
            RafMetadataType::ShutterDuration(p) => MetadataValue::ShutterDuration(*p),
            RafMetadataType::ApertureRatio(p) => MetadataValue::ApertureRatio(*p),
        }
    }
}

/// A big-endian `i16` from two bytes.
pub open spec fn be_i16(b: Seq<u8>) -> i16 {
    let u = be_u16(b);
    if u < 0x8000 {
        u as i16
    } else {
        (u - 0x10000) as i16
    }
}

/// Two big-endian `u16` from four bytes.
pub open spec fn be_u16_pair(b: Seq<u8>) -> (u16, u16) {
    (be_u16(b.subrange(0, 2)), be_u16(b.subrange(2, 4)))
}

/// Two big-endian `u32` from eight bytes.
pub open spec fn be_u32_pair(b: Seq<u8>) -> (u32, u32) {
    (be_u32(b.subrange(0, 4)), be_u32(b.subrange(4, 8)))
}

pub open spec fn is_number_tag(tag: RafMetadataTag) -> bool {
    tag is ImageSequenceNumber || tag is ImageSequenceISO
}

pub open spec fn is_dimensions_tag(tag: RafMetadataTag) -> bool {
    tag is SensorDimensions || tag is OutputHeightWidth || tag is UnknownDimensions1
        || tag is UnknownDimensions1Inverted || tag is UnknownDimensions2
}

pub open spec fn is_position_tag(tag: RafMetadataTag) -> bool {
    tag is ActiveAreaTopLeft || tag is ActiveAreaHeightWidth
}

pub open spec fn is_model_tag(tag: RafMetadataTag) -> bool {
    tag is FujiModel || tag is FujiModel2
}

pub open spec fn is_exposure_bias_tag(tag: RafMetadataTag) -> bool {
    tag is RAWExposureBias || tag is UnknownExposureBias || tag is ImageSequenceAbsoluteExposure
        || tag is ImageSequenceRelativeExposure
}

/// The value of a record with tag `tag` and payload `buf`. Numbers are
/// big-endian. A payload of a size that its tag does not expect, a fraction
/// with a zero denominator and a tag without a known layout give `Unknown`
/// with the payload.
pub open spec fn metadata_value(tag: RafMetadataTag, buf: Seq<u8>) -> MetadataValue {
    let n = buf.len();
    if n == 4 && is_number_tag(tag) {
        MetadataValue::Number(be_u32(buf))
    } else if n == 4 && is_dimensions_tag(tag) {
        MetadataValue::Dimensions(be_u16_pair(buf))
    } else if n == 4 && tag is WhiteBalancePreset {
        MetadataValue::Kelvin(be_u32(buf))
    } else if n == 4 && tag is FlashExposureComp {
        MetadataValue::ExposureValue(be_u32(buf))
    } else if n == 4 && is_position_tag(tag) {
        MetadataValue::Position(be_u16_pair(buf))
    } else if n == 4 && tag is ActiveAreaAspectRatio {
        MetadataValue::AspectRatio(be_u16_pair(buf))
    } else if n == 4 && is_model_tag(tag) {
        MetadataValue::ASCIIText(buf)
    } else if n == 4 && is_exposure_bias_tag(tag) {
        let d = be_u16(buf.subrange(2, 4));
        MetadataValue::ExposureBias((be_i16(buf.subrange(0, 2)), if d == 0 { 1 } else { d }))
    } else if n == 8 && tag is ImageSequenceShutterDuration {
        if be_u32_pair(buf).1 == 0 {
            MetadataValue::Unknown(buf)
        } else {
            MetadataValue::ShutterDuration(be_u32_pair(buf))
        }
    } else if n == 8 && tag is ImageSequenceApetureRatio {
        if be_u32_pair(buf).1 == 0 {
            MetadataValue::Unknown(buf)
        } else {
            MetadataValue::ApertureRatio(be_u32_pair(buf))
        }
    } else {
        MetadataValue::Unknown(buf)
    }
}

/// The big-endian `u16` at `i` in `b`.
pub(crate) fn u16_at(b: &Vec<u8>, i: usize) -> (r: u16)
    requires
        i + 2 <= b.len(),
    ensures
        r == be_u16(b@.subrange(i as int, i + 2)),
{
    b[i] as u16 * 256 + b[i + 1] as u16
}

/// The big-endian `u32` at `i` in `b`.
pub(crate) fn u32_at(b: &Vec<u8>, i: usize) -> (r: u32)
    requires
        i + 4 <= b.len(),
    ensures
        r == be_u32(b@.subrange(i as int, i + 4)),
{
    ((b[i] as u32 * 256 + b[i + 1] as u32) * 256 + b[i + 2] as u32) * 256 + b[i + 3] as u32
}

impl RafMetadataType {
    /// The value of a record with tag `tag` and payload `buf`.
    pub fn decode(tag: RafMetadataTag, buf: Vec<u8>) -> (r: RafMetadataType)
        ensures
            r@ == metadata_value(tag, buf@),
    {
        let size = buf.len();
        proof {
            if size == 4 {
                assert(buf@.subrange(0, 4) =~= buf@);
            }
        }
        if size == 4 && matches!(tag, RafMetadataTag::ImageSequenceNumber | RafMetadataTag::ImageSequenceISO) {
            RafMetadataType::Number(u32_at(&buf, 0))
        } else if size == 4 && matches!(
            tag,
            RafMetadataTag::SensorDimensions | RafMetadataTag::OutputHeightWidth
                | RafMetadataTag::UnknownDimensions1 | RafMetadataTag::UnknownDimensions1Inverted
                | RafMetadataTag::UnknownDimensions2
        ) {
            RafMetadataType::Dimensions((u16_at(&buf, 0), u16_at(&buf, 2)))
        } else if size == 4 && matches!(tag, RafMetadataTag::WhiteBalancePreset) {
            RafMetadataType::Kelvin(u32_at(&buf, 0))
        } else if size == 4 && matches!(tag, RafMetadataTag::FlashExposureComp) {
            RafMetadataType::ExposureValue(u32_at(&buf, 0))
        } else if size == 4 && matches!(
            tag,
            RafMetadataTag::ActiveAreaTopLeft | RafMetadataTag::ActiveAreaHeightWidth
        ) {
            RafMetadataType::Position((u16_at(&buf, 0), u16_at(&buf, 2)))
        } else if size == 4 && matches!(tag, RafMetadataTag::ActiveAreaAspectRatio) {
            RafMetadataType::AspectRatio((u16_at(&buf, 0), u16_at(&buf, 2)))
        } else if size == 4 && matches!(tag, RafMetadataTag::FujiModel | RafMetadataTag::FujiModel2) {
            RafMetadataType::ASCIIText(buf)
        } else if size == 4 && matches!(
            tag,
            RafMetadataTag::RAWExposureBias | RafMetadataTag::UnknownExposureBias
                | RafMetadataTag::ImageSequenceAbsoluteExposure
                | RafMetadataTag::ImageSequenceRelativeExposure
        ) {
            let u = u16_at(&buf, 0);
            let a: i16 = if u < 0x8000 {
                u as i16
            } else {
                (u as i32 - 0x10000) as i16
            };
            let b = u16_at(&buf, 2);
            RafMetadataType::ExposureBias((a, if b == 0 { 1 } else { b }))
        } else if size == 8 && matches!(tag, RafMetadataTag::ImageSequenceShutterDuration) {
            let n = u32_at(&buf, 0);
            let d = u32_at(&buf, 4);
            if d == 0 {
                RafMetadataType::Unknown(buf)
            } else {
                RafMetadataType::ShutterDuration((n, d))
            }
        } else if size == 8 && matches!(tag, RafMetadataTag::ImageSequenceApetureRatio) {
            let n = u32_at(&buf, 0);
            let d = u32_at(&buf, 4);
            if d == 0 {
                RafMetadataType::Unknown(buf)
            } else {
                RafMetadataType::ApertureRatio((n, d))
            }
        } else {
            RafMetadataType::Unknown(buf)
        }
    }
}

/// A metadata record: a tag and its value.
pub struct RafMetadataItem {
    tag: RafMetadataTag,
    data: RafMetadataType,
}

/// What a `RafMetadataItem` holds.
pub struct MetadataItem {
    pub tag: RafMetadataTag,
    pub value: MetadataValue,
}

impl View for RafMetadataItem {
    type V = MetadataItem;

    closed spec fn view(&self) -> MetadataItem {
        MetadataItem { tag: self.tag, value: self.data@ }
    }
}

impl RafMetadataItem {
    pub fn tag(&self) -> (r: RafMetadataTag)
        ensures
            r == self@.tag,
    {
        self.tag
    }

    pub fn data(&self) -> (r: &RafMetadataType)
        ensures
            r@ == self@.value,
    {
        &self.data
    }
}

/// Reading a metadata record, big-endian: a tag code and a payload size in
/// two `u16`, then the payload. The reader is left big-endian, past the
/// payload; where the data ends first, past the last of the three parts that
/// could be read whole.
pub open spec fn item_parse(r: ReaderView) -> Outcome<MetadataItem> {
    let big = r.with_endian(Endian::Big);
    match r.peek(4) {
        None => Outcome::Failed(
            ReadError::UnexpectedEof,
            if r.peek(2) is Some {
                big.with_pos(r.pos + 2)
            } else {
                big
            },
        ),
        Some(head) => {
            let size = be_u16(head.subrange(2, 4)) as int;
            match r.peek(4 + size) {
                None => Outcome::Failed(ReadError::UnexpectedEof, big.with_pos(r.pos + 4)),
                Some(record) => {
                    let tag = tag_of(be_u16(head.subrange(0, 2)));
                    Outcome::Value(
                        MetadataItem { tag: tag, value: metadata_value(tag, record.subrange(4, 4 + size)) },
                        r.with_pos(r.pos + 4 + size).with_endian(Endian::Big),
                    )
                },
            }
        },
    }
}

impl FromBinary for RafMetadataItem {
    open spec fn parse(input: ReaderView) -> Outcome<MetadataItem> {
        item_parse(input)
    }

    fn read_from(reader: &mut BufBinaryReader) -> (r: Result<RafMetadataItem, ReadError>) {
        let ghost start = reader@;
        reader.set_endianness(Endian::Big);
        let code: u16 = reader.read()?;
        let tag = RafMetadataTag::from(code);
        let size: u16 = reader.read()?;
        proof {
            let d = start.data;
            let p = start.pos;
            assert(d.subrange(p, p + 4).subrange(0, 2) =~= d.subrange(p, p + 2));
            assert(d.subrange(p, p + 4).subrange(2, 4) =~= d.subrange(p + 2, p + 4));
        }
        let buf = reader.read_bytes(size as usize)?;
        proof {
            let d = start.data;
            let p = start.pos;
            assert(d.subrange(p, p + 4 + size).subrange(4, 4 + size) =~= d.subrange(p + 4, p + 4 + size));
            assert(buf@ =~= d.subrange(p + 4, p + 4 + size));
        }
        let data = RafMetadataType::decode(tag, buf);
        Ok(RafMetadataItem { tag, data })
    }
}

/// The models of a sequence of records.
pub open spec fn item_views(items: Seq<RafMetadataItem>) -> Seq<MetadataItem> {
    items.map_values(|it: RafMetadataItem| it@)
}

/// Reading `n` metadata records one after the other.
pub open spec fn items_parse(r: ReaderView, n: nat) -> Outcome<Seq<MetadataItem>>
    decreases n,
{
    if n == 0 {
        Outcome::Value(Seq::empty(), r)
    } else {
        items_parse(r, (n - 1) as nat).and_then(
            |items: Seq<MetadataItem>, r1: ReaderView|
                item_parse(r1).map(|it: MetadataItem| items.push(it)),
        )
    }
}

/// Once a record cannot be read, no longer run of records can be read.
proof fn lemma_items_failure_persists(r: ReaderView, i: nat, n: nat)
    requires
        i <= n,
        !(items_parse(r, i) is Value),
    ensures
        items_parse(r, n) == items_parse(r, i),
    decreases n,
{
    if n > i {
        lemma_items_failure_persists(r, i, (n - 1) as nat);
    }
}

/// Reads `count` metadata records one after the other.
fn read_items(reader: &mut BufBinaryReader, count: u32) -> (r: Result<Vec<RafMetadataItem>, ReadError>)
    requires
        old(reader)@.valid(),
    ensures
        final(reader)@.valid(),
        final(reader)@.data == old(reader)@.data,
        match items_parse(old(reader)@, count as nat) {
            Outcome::Value(items, after) => r matches Ok(v) && item_views(v@) == items && final(reader)@ == after,
            Outcome::Failed(e, st) => r == Err::<Vec<RafMetadataItem>, ReadError>(e) && final(reader)@
                == st,
            Outcome::InvalidText(_, _) => false,
        },
        r matches Ok(v) ==> v@.len() == count,
{
    let ghost start = reader@;
    let mut metadata: Vec<RafMetadataItem> = Vec::new();
    let mut i: u32 = 0;
    assert(item_views(metadata@) =~= Seq::<MetadataItem>::empty());
    while i < count
        invariant
            reader@.valid(),
            reader@.data == start.data,
            start == old(reader)@,
            i <= count,
            metadata@.len() == i,
            items_parse(start, i as nat) == Outcome::Value(item_views(metadata@), reader@),
        decreases count - i,
    {
        let ghost before = metadata@;
        let item = match RafMetadataItem::read_from(reader) {
            Ok(item) => item,
            Err(e) => {
                proof {
                    assert(items_parse(start, (i + 1) as nat) == Outcome::<Seq<MetadataItem>>::Failed(
                        e,
                        reader@,
                    ));
                    lemma_items_failure_persists(start, (i + 1) as nat, count as nat);
                }
                return Err(e);
            },
        };
        metadata.push(item);
        assert(item_views(metadata@) =~= item_views(before).push(item@));
        i = i + 1;
    }
    Ok(metadata)
}


/// The metadata block of a RAF: a record count and the records.
pub struct RafMetadataContainer {
    count: u32,
    metadata: Vec<RafMetadataItem>,
}

/// What a `RafMetadataContainer` holds.
pub struct MetadataContainerModel {
    pub count: u32,
    pub items: Seq<MetadataItem>,
}

impl RafMetadataContainer {
    /// The block holds as many records as its count says.
    #[verifier::type_invariant]
    spec fn holds_count(self) -> bool {
        self.metadata@.len() == self.count
    }
}

impl View for RafMetadataContainer {
    type V = MetadataContainerModel;

    closed spec fn view(&self) -> MetadataContainerModel {
        MetadataContainerModel { count: self.count, items: item_views(self.metadata@) }
    }
}

impl RafMetadataContainer {
    /// The record count read from the block.
    pub fn count(&self) -> (r: u32)
        ensures
            r == self@.count,
    {
        self.count
    }

    /// The records, in the order read.
    pub fn metadata(&self) -> (r: &Vec<RafMetadataItem>)
        ensures
            item_views(r@) == self@.items,
    {
        &self.metadata
    }
}

/// Reading a metadata block, big-endian: a `u32` record count, then that
/// many records.
pub open spec fn container_parse(r: ReaderView) -> Outcome<MetadataContainerModel> {
    spec_read_u32(r.with_endian(Endian::Big)).and_then(
        |count: u32, r1: ReaderView|
            items_parse(r1, count as nat).map(
                |items: Seq<MetadataItem>| MetadataContainerModel { count: count, items: items },
            ),
    )
}

impl FromBinary for RafMetadataContainer {
    open spec fn parse(input: ReaderView) -> Outcome<MetadataContainerModel> {
        container_parse(input)
    }

    fn read_from(reader: &mut BufBinaryReader) -> (r: Result<RafMetadataContainer, ReadError>) {
        reader.set_endianness(Endian::Big);
        let count: u32 = reader.read()?;
        let metadata = read_items(reader, count)?;
        Ok(RafMetadataContainer { count, metadata })
    }
}

/// One image of an image sequence: the offset and size of its sensor data
/// and its metadata records.
pub struct RafImageSequenceImage {
    cfa_offset: u64,
    cfa_size: u64,
    metadata: Vec<RafMetadataItem>,
}

/// What a `RafImageSequenceImage` holds.
pub struct SequenceImageModel {
    pub cfa_offset: u64,
    pub cfa_size: u64,
    pub items: Seq<MetadataItem>,
}

impl View for RafImageSequenceImage {
    type V = SequenceImageModel;

    closed spec fn view(&self) -> SequenceImageModel {
        SequenceImageModel {
            cfa_offset: self.cfa_offset,
            cfa_size: self.cfa_size,
            items: item_views(self.metadata@),
        }
    }
}

impl RafImageSequenceImage {
    pub fn cfa_offset(&self) -> (r: u64)
        ensures
            r == self@.cfa_offset,
    {
        self.cfa_offset
    }

    pub fn cfa_size(&self) -> (r: u64)
        ensures
            r == self@.cfa_size,
    {
        self.cfa_size
    }

    pub fn metadata(&self) -> (r: &Vec<RafMetadataItem>)
        ensures
            item_views(r@) == self@.items,
    {
        &self.metadata
    }
}

/// Reading one image of a sequence: two `u64` in the reader's byte order,
/// the sensor data offset and size, then `count` records.
pub open spec fn image_parse(r: ReaderView, count: nat) -> Outcome<SequenceImageModel> {
    spec_read_u64(r).and_then(
        |cfa_offset: u64, r1: ReaderView|
            spec_read_u64(r1).and_then(
                |cfa_size: u64, r2: ReaderView|
                    items_parse(r2, count).map(
                        |items: Seq<MetadataItem>|
                            SequenceImageModel {
                                cfa_offset: cfa_offset,
                                cfa_size: cfa_size,
                                items: items,
                            },
                    ),
            ),
    )
}

/// The models of a sequence of images.
pub open spec fn image_views(images: Seq<RafImageSequenceImage>) -> Seq<SequenceImageModel> {
    images.map_values(|im: RafImageSequenceImage| im@)
}

/// Reading `n` images of `count` records each, one after the other.
pub open spec fn images_parse(r: ReaderView, n: nat, count: nat) -> Outcome<Seq<SequenceImageModel>>
    decreases n,
{
    if n == 0 {
        Outcome::Value(Seq::empty(), r)
    } else {
        images_parse(r, (n - 1) as nat, count).and_then(
            |images: Seq<SequenceImageModel>, r1: ReaderView|
                image_parse(r1, count).map(|im: SequenceImageModel| images.push(im)),
        )
    }
}

/// Once an image cannot be read, no longer run of images can be read.
proof fn lemma_images_failure_persists(r: ReaderView, i: nat, n: nat, count: nat)
    requires
        i <= n,
        !(images_parse(r, i, count) is Value),
    ensures
        images_parse(r, n, count) == images_parse(r, i, count),
    decreases n,
{
    if n > i {
        lemma_images_failure_persists(r, i, (n - 1) as nat, count);
    }
}

/// Reads `total` images of `count` records each.
fn read_images(reader: &mut BufBinaryReader, total: u32, count: u16) -> (r: Result<
    Vec<RafImageSequenceImage>,
    ReadError,
>)
    requires
        old(reader)@.valid(),
    ensures
        final(reader)@.valid(),
        final(reader)@.data == old(reader)@.data,
        match images_parse(old(reader)@, total as nat, count as nat) {
            Outcome::Value(images, after) => r matches Ok(v) && image_views(v@) == images
                && final(reader)@ == after,
            Outcome::Failed(e, st) => r == Err::<Vec<RafImageSequenceImage>, ReadError>(e)
                && final(reader)@ == st,
            Outcome::InvalidText(_, _) => false,
        },
        r matches Ok(v) ==> v@.len() == total && forall|k: int|
            0 <= k < v@.len() ==> (#[trigger] v@[k]).metadata@.len() == count,
{
    let ghost start = reader@;
    let mut images: Vec<RafImageSequenceImage> = Vec::new();
    let mut i: u32 = 0;
    assert(image_views(images@) =~= Seq::<SequenceImageModel>::empty());
    while i < total
        invariant
            reader@.valid(),
            reader@.data == start.data,
            start == old(reader)@,
            i <= total,
            images@.len() == i,
            forall|k: int| 0 <= k < images@.len() ==> (#[trigger] images@[k]).metadata@.len() == count,
            images_parse(start, i as nat, count as nat) == Outcome::Value(
                image_views(images@),
                reader@,
            ),
        decreases total - i,
    {
        let ghost before = images@;
        let image = match read_image(reader, count) {
            Ok(image) => image,
            Err(e) => {
                proof {
                    assert(images_parse(start, (i + 1) as nat, count as nat)
                        == Outcome::<Seq<SequenceImageModel>>::Failed(e, reader@));
                    lemma_images_failure_persists(start, (i + 1) as nat, total as nat, count as nat);
                }
                return Err(e);
            },
        };
        images.push(image);
        assert(image_views(images@) =~= image_views(before).push(image@));
        i = i + 1;
    }
    Ok(images)
}

/// Reads one image of a sequence with `count` records.
fn read_image(reader: &mut BufBinaryReader, count: u16) -> (r: Result<RafImageSequenceImage, ReadError>)
    requires
        old(reader)@.valid(),
    ensures
        final(reader)@.valid(),
        final(reader)@.data == old(reader)@.data,
        read_agrees(image_parse(old(reader)@, count as nat), r, final(reader)@),
        r matches Ok(im) ==> im.metadata@.len() == count,
{
    let cfa_offset: u64 = reader.read()?;
    let cfa_size: u64 = reader.read()?;
    let metadata = read_items(reader, count as u32)?;
    Ok(RafImageSequenceImage { cfa_size, cfa_offset, metadata })
}

/// The image-sequence block of a RAF that holds several exposures.
pub struct RafImageSequenceContainer {
    additional_image_count: u32,
    total_image_count: u32,
    version: String,
    image_sequence_metadata_size: u16,
    image_sequence_metadata_count: u16,
    image_sequence_images: Vec<RafImageSequenceImage>,
}

/// What a `RafImageSequenceContainer` holds.
pub struct SequenceContainerModel {
    pub additional_image_count: u32,
    pub total_image_count: u32,
    pub version: Seq<char>,
    pub metadata_size: u16,
    pub metadata_count: u16,
    pub images: Seq<SequenceImageModel>,
}

impl RafImageSequenceContainer {
    /// The block holds as many images as its total count says, each with as
    /// many records as its record count says.
    #[verifier::type_invariant]
    spec fn holds_counts(self) -> bool {
        &&& self.image_sequence_images@.len() == self.total_image_count
        &&& forall|k: int|
            0 <= k < self.image_sequence_images@.len() ==> (#[trigger] self.image_sequence_images@[k]).metadata@.len()
                == self.image_sequence_metadata_count
    }
}

impl View for RafImageSequenceContainer {
    type V = SequenceContainerModel;

    closed spec fn view(&self) -> SequenceContainerModel {
        SequenceContainerModel {
            additional_image_count: self.additional_image_count,
            total_image_count: self.total_image_count,
            version: self.version@,
            metadata_size: self.image_sequence_metadata_size,
            metadata_count: self.image_sequence_metadata_count,
            images: image_views(self.image_sequence_images@),
        }
    }
}

impl RafImageSequenceContainer {
    pub fn additional_image_count(&self) -> (r: u32)
        ensures
            r == self@.additional_image_count,
    {
        self.additional_image_count
    }

    pub fn total_image_count(&self) -> (r: u32)
        ensures
            r == self@.total_image_count,
    {
        self.total_image_count
    }

    pub fn version(&self) -> (r: &String)
        ensures
            r@ == self@.version,
    {
        &self.version
    }

    pub fn metadata_size(&self) -> (r: u16)
        ensures
            r == self@.metadata_size,
    {
        self.image_sequence_metadata_size
    }

    pub fn metadata_count(&self) -> (r: u16)
        ensures
            r == self@.metadata_count,
    {
        self.image_sequence_metadata_count
    }

    pub fn images(&self) -> (r: &Vec<RafImageSequenceImage>)
        ensures
            image_views(r@) == self@.images,
    {
        &self.image_sequence_images
    }
}

/// Reading an image-sequence block, big-endian: the additional and total
/// image counts (`u32`), a 12-byte UTF-8 version, the record block size and
/// the record count per image (`u16`), then the images.
pub open spec fn sequence_parse(r: ReaderView) -> Outcome<SequenceContainerModel> {
    spec_read_u32(r.with_endian(Endian::Big)).and_then(
        |additional: u32, r1: ReaderView|
            spec_read_u32(r1).and_then(
                |total: u32, r2: ReaderView|
                    spec_read_text(r2, 12).and_then(
                        |version: Seq<char>, r3: ReaderView|
                            spec_read_u16(r3).and_then(
                                |size: u16, r4: ReaderView|
                                    spec_read_u16(r4).and_then(
                                        |count: u16, r5: ReaderView|
                                            images_parse(r5, total as nat, count as nat).map(
                                                |images: Seq<SequenceImageModel>|
                                                    SequenceContainerModel {
                                                        additional_image_count: additional,
                                                        total_image_count: total,
                                                        version: version,
                                                        metadata_size: size,
                                                        metadata_count: count,
                                                        images: images,
                                                    },
                                            ),
                                    ),
                            ),
                    ),
            ),
    )
}

impl RafImageSequenceContainer {
    /// Reads an image-sequence block; where the version is not UTF-8 it
    /// reports the version bytes.
    pub fn try_read_from(reader: &mut BufBinaryReader) -> (r: Result<RafImageSequenceContainer, Fault>)
        requires
            old(reader)@.valid(),
        ensures
            final(reader)@.valid(),
            final(reader)@.data == old(reader)@.data,
            fault_agrees(sequence_parse(old(reader)@), r, final(reader)@),
    {
        reader.set_endianness(Endian::Big);
        let additional_image_count: u32 = match reader.read() {
            Ok(v) => v,
            Err(e) => return Err(Fault::Read(e)),
        };
        let total_image_count: u32 = match reader.read() {
            Ok(v) => v,
            Err(e) => return Err(Fault::Read(e)),
        };
        let version_bytes = match reader.read_bytes(12) {
            Ok(v) => v,
            Err(e) => return Err(Fault::Read(e)),
        };
        let version = match decode_text(version_bytes) {
            Ok(s) => s,
            Err(b) => return Err(Fault::InvalidText(b)),
        };
        let image_sequence_metadata_size: u16 = match reader.read() {
            Ok(v) => v,
            Err(e) => return Err(Fault::Read(e)),
        };
        let image_sequence_metadata_count: u16 = match reader.read() {
            Ok(v) => v,
            Err(e) => return Err(Fault::Read(e)),
        };
        let image_sequence_images = match read_images(
            reader,
            total_image_count,
            image_sequence_metadata_count,
        ) {
            Ok(v) => v,
            Err(e) => return Err(Fault::Read(e)),
        };
        Ok(RafImageSequenceContainer {
            additional_image_count,
            total_image_count,
            version,
            image_sequence_metadata_size,
            image_sequence_metadata_count,
            image_sequence_images,
        })
    }
}

impl FromBinary for RafImageSequenceContainer {
    open spec fn parse(input: ReaderView) -> Outcome<SequenceContainerModel> {
        sequence_parse(input)
    }

    fn read_from(reader: &mut BufBinaryReader) -> (r: Result<RafImageSequenceContainer, ReadError>) {
        match RafImageSequenceContainer::try_read_from(reader) {
            Ok(v) => Ok(v),
            Err(Fault::Read(e)) => Err(e),
            Err(Fault::InvalidText(_)) => {
                proof {
                    assert(false);
                }
                Err(ReadError::UnexpectedEof)
            },
        }
    }
}


/// The magic at the start of a RAF: "FUJIFILMCCD-RAW ".
pub open spec fn raf_magic() -> Seq<u8> {
    seq![0x46u8, 0x55u8, 0x4Au8, 0x49u8, 0x46u8, 0x49u8, 0x4Cu8, 0x4Du8, 0x43u8, 0x43u8, 0x44u8, 0x2Du8, 0x52u8, 0x41u8, 0x57u8, 0x20u8]
}

/// The magic of an image-sequence block: "FUJIFILMM-RAW   1.00".
pub open spec fn sequence_magic() -> Seq<u8> {
    seq![0x46u8, 0x55u8, 0x4Au8, 0x49u8, 0x46u8, 0x49u8, 0x4Cu8, 0x4Du8, 0x4Du8, 0x2Du8, 0x52u8, 0x41u8, 0x57u8, 0x20u8, 0x20u8, 0x20u8, 0x31u8, 0x2Eu8, 0x30u8, 0x30u8]
}

/// Whether two byte vectors hold the same bytes.
fn same_bytes(a: &Vec<u8>, b: &Vec<u8>) -> (r: bool)
    ensures
        r == (a@ == b@),
{
    if a.len() != b.len() {
        return false;
    }
    let mut i: usize = 0;
    while i < a.len()
        invariant
            a@.len() == b@.len(),
            i <= a@.len(),
            forall|j: int| 0 <= j < i ==> a@[j] == b@[j],
        decreases a.len() - i,
    {
        if a[i] != b[i] {
            return false;
        }
        i = i + 1;
    }
    assert(a@ =~= b@);
    true
}

fn is_raf_magic(b: &Vec<u8>) -> (r: bool)
    ensures
        r == (b@ == raf_magic()),
{
    let expected: Vec<u8> = vec![0x46u8, 0x55u8, 0x4Au8, 0x49u8, 0x46u8, 0x49u8, 0x4Cu8, 0x4Du8, 0x43u8, 0x43u8, 0x44u8, 0x2Du8, 0x52u8, 0x41u8, 0x57u8, 0x20u8];
    assert(expected@ =~= raf_magic());
    same_bytes(b, &expected)
}

fn is_sequence_magic(b: &Vec<u8>) -> (r: bool)
    ensures
        r == (b@ == sequence_magic()),
{
    let expected: Vec<u8> = vec![0x46u8, 0x55u8, 0x4Au8, 0x49u8, 0x46u8, 0x49u8, 0x4Cu8, 0x4Du8, 0x4Du8, 0x2Du8, 0x52u8, 0x41u8, 0x57u8, 0x20u8, 0x20u8, 0x20u8, 0x31u8, 0x2Eu8, 0x30u8, 0x30u8];
    assert(expected@ =~= sequence_magic());
    same_bytes(b, &expected)
}


/// A Fujifilm RAF file: the camera name, the format version, the Exif data of
/// the embedded JPEG, the image-sequence block where there is one, and the
/// metadata block.
pub struct Raf {
    camera: String,
    version: u32,
    exif_data: ExifData,
    image_sequence_metadata: Option<RafImageSequenceContainer>,
    metadata_container: RafMetadataContainer,
}

/// What a `Raf` holds.
pub struct RafModel {
    pub camera: Seq<char>,
    pub version: u32,
    pub exif: ExifModel,
    pub image_sequence: Option<SequenceContainerModel>,
    pub metadata: MetadataContainerModel,
}

impl View for Raf {
    type V = RafModel;

    closed spec fn view(&self) -> RafModel {
        RafModel {
            camera: self.camera@,
            version: self.version,
            exif: self.exif_data@,
            image_sequence: match self.image_sequence_metadata {
                Some(c) => Some(c@),
                None => None,
            },
            metadata: self.metadata_container@,
        }
    }
}

impl Raf {
    pub fn camera(&self) -> (r: &String)
        ensures
            r@ == self@.camera,
    {
        &self.camera
    }

    pub fn version(&self) -> (r: u32)
        ensures
            r == self@.version,
    {
        self.version
    }

    pub fn exif_data(&self) -> (r: &ExifData)
        ensures
            r@ == self@.exif,
    {
        &self.exif_data
    }

    pub fn image_sequence_metadata(&self) -> (r: &Option<RafImageSequenceContainer>)
        ensures
            match r {
                Some(c) => self@.image_sequence == Some(c@),
                None => self@.image_sequence is None,
            },
    {
        &self.image_sequence_metadata
    }

    pub fn metadata_container(&self) -> (r: &RafMetadataContainer)
        ensures
            r@ == self@.metadata,
    {
        &self.metadata_container
    }
}

/// The header fields of a RAF that reading goes on with.
pub struct RafHeader {
    pub camera: Seq<char>,
    pub version: u32,
    pub jpeg_offset: u32,
    pub jpeg_size: u32,
    pub meta_offset: u32,
}

/// Reading a RAF header: the 16-byte magic; then, big-endian, 12 bytes
/// skipped, the 32-byte UTF-8 camera name, the `u32` version, 20 bytes
/// skipped, and the `u32` JPEG offset, JPEG size and metadata offset.
pub open spec fn header_parse(r: ReaderView) -> Outcome<RafHeader> {
    spec_read_bytes(r, 16).and_then(
        |magic: Seq<u8>, r1: ReaderView|
            if magic != raf_magic() {
                Outcome::Failed(ReadError::InvalidRaf, r1)
            } else {
                spec_skip(r1.with_endian(Endian::Big), 12).and_then(
                    |u: (), r2: ReaderView|
                        spec_read_text(r2, 32).and_then(
                            |camera: Seq<char>, r3: ReaderView|
                                spec_read_u32(r3).and_then(
                                    |version: u32, r4: ReaderView|
                                        spec_skip(r4, 20).and_then(
                                            |w: (), r5: ReaderView|
                                                spec_read_u32(r5).and_then(
                                                    |jpeg_offset: u32, r6: ReaderView|
                                                        spec_read_u32(r6).and_then(
                                                            |jpeg_size: u32, r7: ReaderView|
                                                                spec_read_u32(r7).map(
                                                                    |meta_offset: u32|
                                                                        RafHeader {
                                                                            camera: camera,
                                                                            version: version,
                                                                            jpeg_offset: jpeg_offset,
                                                                            jpeg_size: jpeg_size,
                                                                            meta_offset: meta_offset,
                                                                        },
                                                                ),
                                                        ),
                                                ),
                                        ),
                                ),
                        ),
                )
            },
    )
}

/// Whether an image-sequence block follows the header: only where the
/// position is more than 60 bytes before the JPEG; then 40 bytes are skipped
/// (where they can be) and 20 bytes read, and the block follows only where
/// they are the image-sequence magic.
pub open spec fn sequence_probe(r: ReaderView, jpeg_offset: u32) -> Outcome<Option<SequenceContainerModel>> {
    if r.pos + 60 >= jpeg_offset {
        Outcome::Value(None, r)
    } else {
        spec_read_bytes(r.with_pos(pos_after_relative(r, 40)), 20).and_then(
            |magic: Seq<u8>, r1: ReaderView|
                if magic == sequence_magic() {
                    sequence_parse(r1).map(|c: SequenceContainerModel| Some(c))
                } else {
                    Outcome::Value(None, r1)
                },
        )
    }
}

/// Reading a RAF: the header; 12 bytes skipped where they can be; the
/// image-sequence block where there is one; the metadata block at the
/// metadata offset; and the Exif data of the JPEG at the JPEG offset.
pub open spec fn raf_parse(r: ReaderView) -> Outcome<RafModel> {
    header_parse(r).and_then(
        |h: RafHeader, r1: ReaderView|
            sequence_probe(r1.with_pos(pos_after_relative(r1, 12)), h.jpeg_offset).and_then(
                |image_sequence: Option<SequenceContainerModel>, r2: ReaderView|
                    container_parse(r2.with_pos(h.meta_offset as int)).and_then(
                        |metadata: MetadataContainerModel, r3: ReaderView|
                            exif_parse(r3.with_pos(h.jpeg_offset as int)).map(
                                |exif: ExifModel|
                                    RafModel {
                                        camera: h.camera,
                                        version: h.version,
                                        exif: exif,
                                        image_sequence: image_sequence,
                                        metadata: metadata,
                                    },
                            ),
                    ),
            ),
    )
}

/// The header fields that reading a RAF goes on with.
struct Header {
    camera: String,
    version: u32,
    jpeg_offset: u32,
    jpeg_size: u32,
    meta_offset: u32,
}

impl View for Header {
    type V = RafHeader;

    closed spec fn view(&self) -> RafHeader {
        RafHeader {
            camera: self.camera@,
            version: self.version,
            jpeg_offset: self.jpeg_offset,
            jpeg_size: self.jpeg_size,
            meta_offset: self.meta_offset,
        }
    }
}

/// Reads the header of a RAF.
fn read_header(reader: &mut BufBinaryReader) -> (r: Result<Header, Fault>)
    requires
        old(reader)@.valid(),
    ensures
        final(reader)@.valid(),
        final(reader)@.data == old(reader)@.data,
        fault_agrees(header_parse(old(reader)@), r, final(reader)@),
{
    let buf = match reader.read_bytes(16) {
        Ok(b) => b,
        Err(e) => return Err(Fault::Read(e)),
    };
    if !is_raf_magic(&buf) {
        return Err(Fault::Read(ReadError::InvalidRaf));
    }
    reader.set_endianness(Endian::Big);
    if let Err(e) = reader.skip_bytes(12) {
        return Err(Fault::Read(e));
    }
    let camera_bytes = match reader.read_bytes(32) {
        Ok(b) => b,
        Err(e) => return Err(Fault::Read(e)),
    };
    let camera = match decode_text(camera_bytes) {
        Ok(s) => s,
        Err(b) => return Err(Fault::InvalidText(b)),
    };
    let version: u32 = match reader.read() {
        Ok(v) => v,
        Err(e) => return Err(Fault::Read(e)),
    };
    if let Err(e) = reader.skip_bytes(20) {
        return Err(Fault::Read(e));
    }
    let jpeg_offset: u32 = match reader.read() {
        Ok(v) => v,
        Err(e) => return Err(Fault::Read(e)),
    };
    let jpeg_size: u32 = match reader.read() {
        Ok(v) => v,
        Err(e) => return Err(Fault::Read(e)),
    };
    let meta_offset: u32 = match reader.read() {
        Ok(v) => v,
        Err(e) => return Err(Fault::Read(e)),
    };
    Ok(Header { camera, version, jpeg_offset, jpeg_size, meta_offset })
}

/// Reads the image-sequence block after the header, where there is one.
fn read_sequence_block(reader: &mut BufBinaryReader, jpeg_offset: u32) -> (r: Result<
    Option<RafImageSequenceContainer>,
    Fault,
>)
    requires
        old(reader)@.valid(),
    ensures
        final(reader)@.valid(),
        final(reader)@.data == old(reader)@.data,
        match sequence_probe(old(reader)@, jpeg_offset) {
            Outcome::Value(v, after) => r matches Ok(x) && final(reader)@ == after && match x {
                Some(c) => v == Some(c@),
                None => v is None,
            },
            Outcome::Failed(e, st) => r matches Err(Fault::Read(x)) && x == e && final(reader)@ == st,
            Outcome::InvalidText(t, st) => r matches Err(Fault::InvalidText(b)) && b@ == t
                && final(reader)@ == st,
        },
{
    let position = match reader.stream_position() {
        Ok(p) => p,
        Err(e) => return Err(Fault::Read(e)),
    };
    if position + 60 >= jpeg_offset as u64 {
        Ok(None)
    } else {
        let _ = reader.skip_bytes(40);
        let buf = match reader.read_bytes(20) {
            Ok(b) => b,
            Err(e) => return Err(Fault::Read(e)),
        };
        if !is_sequence_magic(&buf) {
            Ok(None)
        } else {
            match RafImageSequenceContainer::try_read_from(reader) {
                Ok(c) => Ok(Some(c)),
                Err(f) => Err(f),
            }
        }
    }
}

impl Raf {
    /// Reads a RAF; where the camera name or the image-sequence version is
    /// not UTF-8 it reports those bytes.
    #[verifier::spinoff_prover]
    #[verifier::rlimit(30)]
    pub fn try_read_from(reader: &mut BufBinaryReader) -> (r: Result<Raf, Fault>)
        requires
            old(reader)@.valid(),
        ensures
            final(reader)@.valid(),
            final(reader)@.data == old(reader)@.data,
            fault_agrees(raf_parse(old(reader)@), r, final(reader)@),
    {
        let header = read_header(reader)?;
        let _ = reader.skip_bytes(12);
        let image_sequence_metadata = read_sequence_block(reader, header.jpeg_offset)?;
        let ghost at_meta = reader@.with_pos(header.meta_offset as int);
        if let Err(e) = reader.seek(SeekFrom::Start(header.meta_offset as u64)) {
            return Err(Fault::Read(e));
        }
        assert(reader@ == at_meta);
        proof {
            lemma_container_never_text(reader@);
        }
        let meta = match RafMetadataContainer::read_from(reader) {
            Ok(m) => m,
            Err(e) => return Err(Fault::Read(e)),
        };
        let ghost at_jpeg = reader@.with_pos(header.jpeg_offset as int);
        if let Err(e) = reader.seek(SeekFrom::Start(header.jpeg_offset as u64)) {
            return Err(Fault::Read(e));
        }
        assert(reader@ == at_jpeg);
        proof {
            lemma_exif_never_text(reader@);
        }
        let exif_data = match ExifData::read_from(reader) {
            Ok(x) => x,
            Err(e) => return Err(Fault::Read(e)),
        };
        let Header { camera, version, .. } = header;
        Ok(Raf { camera, version, exif_data, image_sequence_metadata, metadata_container: meta })
    }
}

/// No run of records holds text.
pub proof fn lemma_items_never_text(r: ReaderView, n: nat)
    ensures
        !(items_parse(r, n) is InvalidText),
    decreases n,
{
    if n > 0 {
        lemma_items_never_text(r, (n - 1) as nat);
    }
}

/// No metadata block holds text.
pub proof fn lemma_container_never_text(r: ReaderView)
    ensures
        !(container_parse(r) is InvalidText),
{
    if let Outcome::Value(count, r1) = spec_read_u32(r.with_endian(Endian::Big)) {
        lemma_items_never_text(r1, count as nat);
    }
}

impl FromBinary for Raf {
    open spec fn parse(input: ReaderView) -> Outcome<RafModel> {
        raf_parse(input)
    }

    fn read_from(reader: &mut BufBinaryReader) -> (r: Result<Raf, ReadError>) {
        match Raf::try_read_from(reader) {
            Ok(v) => Ok(v),
            Err(Fault::Read(e)) => Err(e),
            Err(Fault::InvalidText(_)) => {
                proof {
                    assert(false);
                }
                Err(ReadError::UnexpectedEof)
            },
        }
    }
}


/// A run of `n` records that is read holds `n` records.
pub proof fn items_parse_length(r: ReaderView, n: nat)
    ensures
        items_parse(r, n) matches Outcome::Value(items, _) ==> items.len() == n,
    decreases n,
{
    if n > 0 {
        items_parse_length(r, (n - 1) as nat);
    }
}

/// A metadata block that is read holds as many records as its count says.
pub proof fn container_holds_its_count(r: ReaderView)
    ensures
        container_parse(r) matches Outcome::Value(m, _) ==> m.items.len() == m.count,
{
    if let Outcome::Value(count, r1) = spec_read_u32(r.with_endian(Endian::Big)) {
        items_parse_length(r1, count as nat);
    }
}

/// A run of `n` images of `count` records each that is read holds `n`
/// images, each with `count` records.
pub proof fn images_parse_shape(r: ReaderView, n: nat, count: nat)
    ensures
        images_parse(r, n, count) matches Outcome::Value(images, _) ==> images.len() == n
            && forall|i: int| 0 <= i < n ==> (#[trigger] images[i]).items.len() == count,
    decreases n,
{
    if n > 0 {
        images_parse_shape(r, (n - 1) as nat, count);
        if let Outcome::Value(images, r1) = images_parse(r, (n - 1) as nat, count) {
            if let Outcome::Value(cfa_offset, r2) = spec_read_u64(r1) {
                if let Outcome::Value(cfa_size, r3) = spec_read_u64(r2) {
                    items_parse_length(r3, count);
                }
            }
        }
    }
}

/// An image-sequence block that is read holds as many images as its total
/// image count says, each with as many records as its record count says.
pub proof fn sequence_holds_its_counts(r: ReaderView)
    ensures
        sequence_parse(r) matches Outcome::Value(c, _) ==> c.images.len() == c.total_image_count
            && forall|i: int|
            0 <= i < c.images.len() ==> (#[trigger] c.images[i]).items.len() == c.metadata_count,
{
    let r0 = r.with_endian(Endian::Big);
    if let Outcome::Value(additional, r1) = spec_read_u32(r0) {
        if let Outcome::Value(total, r2) = spec_read_u32(r1) {
            if let Outcome::Value(version, r3) = spec_read_text(r2, 12) {
                if let Outcome::Value(size, r4) = spec_read_u16(r3) {
                    if let Outcome::Value(count, r5) = spec_read_u16(r4) {
                        images_parse_shape(r5, total as nat, count as nat);
                    }
                }
            }
        }
    }
}

/// A decoded shutter duration or aperture ratio never has a zero
/// denominator, and a decoded exposure bias has a denominator of at least 1.
pub proof fn decoded_fractions_have_nonzero_denominators(tag: RafMetadataTag, buf: Seq<u8>)
    ensures
        metadata_value(tag, buf) matches MetadataValue::ShutterDuration(f) ==> f.1 != 0,
        metadata_value(tag, buf) matches MetadataValue::ApertureRatio(f) ==> f.1 != 0,
        metadata_value(tag, buf) matches MetadataValue::ExposureBias(f) ==> f.1 >= 1,
{
}

/// A record is read from its own bytes alone: a reader over other data, at
/// the same position, that holds the same bytes where the record lies reads
/// the same record and ends at the same position.
pub proof fn item_parse_reads_only_its_bytes(r: ReaderView, other: ReaderView)
    requires
        item_parse(r) is Value,
        other.pos == r.pos,
        item_parse(r)->Value_1.pos <= other.data.len(),
        other.data.subrange(r.pos, item_parse(r)->Value_1.pos) == r.data.subrange(
            r.pos,
            item_parse(r)->Value_1.pos,
        ),
    ensures
        item_parse(other) is Value,
        item_parse(other)->Value_0 == item_parse(r)->Value_0,
        item_parse(other)->Value_1.pos == item_parse(r)->Value_1.pos,
{
    let p = r.pos;
    let end = item_parse(r)->Value_1.pos;
    let size = be_u16(r.data.subrange(p, p + 4).subrange(2, 4)) as int;
    assert(other.data.subrange(p, p + 4) =~= r.data.subrange(p, end).subrange(0, 4));
    assert(r.data.subrange(p, p + 4) =~= r.data.subrange(p, end).subrange(0, 4));
    assert(other.peek(4 + size) == r.peek(4 + size));
}

/// A RAF is read only from data that begins with the RAF magic; where 16
/// bytes remain that are not the magic, reading fails with `InvalidRaf` past
/// them, and where fewer remain, with `UnexpectedEof` where it was.
pub proof fn raf_starts_with_magic(r: ReaderView)
    ensures
        raf_parse(r) is Value ==> r.peek(16) == Some(raf_magic()),
        (r.peek(16) matches Some(m) && m != raf_magic()) ==> raf_parse(r)
            == Outcome::<RafModel>::Failed(ReadError::InvalidRaf, r.with_pos(r.pos + 16)),
        r.peek(16) is None ==> raf_parse(r) == Outcome::<RafModel>::Failed(
            ReadError::UnexpectedEof,
            r,
        ),
{
}

/// A RAF that is read holds a metadata block with as many records as its
/// count says and, where it has an image-sequence block, as many images as
/// that block's total count says, each with its record count of records.
pub proof fn raf_counts_match_contents(r: ReaderView)
    ensures
        raf_parse(r) matches Outcome::Value(m, _) ==> {
            &&& m.metadata.items.len() == m.metadata.count
            &&& m.image_sequence matches Some(c) ==> c.images.len() == c.total_image_count
                && forall|i: int|
                0 <= i < c.images.len() ==> (#[trigger] c.images[i]).items.len()
                    == c.metadata_count
        },
{
    if let Outcome::Value(h, r1) = header_parse(r) {
        let r1s = r1.with_pos(pos_after_relative(r1, 12));
        if r1s.pos + 60 < h.jpeg_offset {
            if let Outcome::Value(magic, rm) = spec_read_bytes(r1s.with_pos(pos_after_relative(r1s, 40)), 20) {
                sequence_holds_its_counts(rm);
            }
        }
        if let Outcome::Value(seq, r2) = sequence_probe(r1s, h.jpeg_offset) {
            container_holds_its_count(r2.with_pos(h.meta_offset as int));
        }
    }
}


/// The printed form of a record: a tab, the tag, a colon, the value and a
/// line break.
pub open spec fn item_text(it: MetadataItem) -> Seq<Part> {
    seq![Part::Literal("\t"@)] + tag_text(it.tag) + seq![Part::Literal(": "@)] + value_text(it.value)
        + seq![Part::Literal("\n"@)]
}

/// The printed form of the first `n` records, one after the other.
pub open spec fn items_text(items: Seq<MetadataItem>, n: nat) -> Seq<Part>
    decreases n,
{
    if n == 0 {
        Seq::empty()
    } else {
        items_text(items, (n - 1) as nat) + item_text(items[n - 1])
    }
}

/// The printed form of a metadata block: its first `count` records.
pub open spec fn container_text(m: MetadataContainerModel) -> Seq<Part> {
    items_text(m.items, m.count as nat)
}

/// The printed form of one image of a sequence: its sensor data offset and
/// size, each on a line, then its records.
pub open spec fn image_text(im: SequenceImageModel) -> Seq<Part> {
    seq![
        Part::Literal("\tCFA Offset: "@),
        Part::Decimal(im.cfa_offset),
        Part::Literal("\n"@),
        Part::Literal("\tCFA Size: "@),
        Part::Decimal(im.cfa_size),
        Part::Literal("\n"@),
    ] + items_text(im.items, im.items.len())
}

/// The printed form of the first `n` images, each headed by its number
/// counted from 1.
pub open spec fn images_text(images: Seq<SequenceImageModel>, n: nat) -> Seq<Part>
    decreases n,
{
    if n == 0 {
        Seq::empty()
    } else {
        images_text(images, (n - 1) as nat) + seq![
            Part::Literal("Image "@),
            Part::Decimal(n as u64),
            Part::Literal(":\n"@),
        ] + image_text(images[n - 1])
    }
}

/// The printed form of an image-sequence block: the total image count, the
/// record count and the version, each on a line, then the images.
pub open spec fn sequence_text(c: SequenceContainerModel) -> Seq<Part> {
    seq![
        Part::Literal("\tTotal Images in Sequence: "@),
        Part::Decimal(c.total_image_count as u64),
        Part::Literal("\n"@),
        Part::Literal("\tTag count: "@),
        Part::Decimal(c.metadata_count as u64),
        Part::Literal("\n"@),
        Part::Literal("\tVersion: "@),
        Part::Text(c.version),
        Part::Literal("\n"@),
    ] + images_text(c.images, c.total_image_count as nat)
}

/// The printed form of a RAF: the camera name; the version as the text of
/// its four big-endian bytes, in decimal and in hexadecimal; the
/// image-sequence block where there is one; and the metadata block.
pub open spec fn raf_text(m: RafModel) -> Seq<Part> {
    seq![
        Part::Literal("Camera: "@),
        Part::Text(m.camera),
        Part::Literal("\n"@),
        Part::Literal("Version: \""@),
        Part::Utf8(be_bytes_u32(m.version)),
        Part::Literal("\" "@),
        Part::Decimal(m.version as u64),
        Part::Literal(" 0x"@),
        Part::UpperHex(m.version as u64),
        Part::Literal("\n"@),
    ] + (match m.image_sequence {
        Some(c) => seq![Part::Literal("Image Sequence Metadata:\n"@)] + sequence_text(c),
        None => Seq::empty(),
    }) + seq![Part::Literal("Metadata: \n"@)] + container_text(m.metadata)
}

impl RafMetadataItem {
    /// Appends the printed form of this record.
    pub fn push_text(&self, parts: &mut Vec<TextPart>)
        ensures
            parts_view(final(parts)@) == parts_view(old(parts)@) + item_text(self@),
    {
        let ghost start = parts_view(parts@);
        push_literal(parts, "\t");
        push_tag(parts, self.tag);
        push_literal(parts, ": ");
        push_value(parts, &self.data);
        push_literal(parts, "\n");
        assert(parts_view(parts@) =~= start + item_text(self@));
    }
}

/// Appends the printed form of the first `n` records of `items`.
fn push_items_text(parts: &mut Vec<TextPart>, items: &Vec<RafMetadataItem>, n: usize)
    requires
        n <= items@.len(),
    ensures
        parts_view(final(parts)@) == parts_view(old(parts)@) + items_text(item_views(items@), n as nat),
{
    let ghost start = parts_view(parts@);
    let mut i: usize = 0;
    while i < n
        invariant
            i <= n <= items@.len(),
            parts_view(parts@) == start + items_text(item_views(items@), i as nat),
        decreases n - i,
    {
        items[i].push_text(parts);
        assert(item_views(items@)[i as int] == items@[i as int]@);
        assert(parts_view(parts@) =~= start + items_text(item_views(items@), (i + 1) as nat));
        i = i + 1;
    }
}

impl RafMetadataContainer {
    /// Appends the printed form of this block.
    pub fn push_text(&self, parts: &mut Vec<TextPart>)
        ensures
            parts_view(final(parts)@) == parts_view(old(parts)@) + container_text(self@),
    {
        proof {
            use_type_invariant(self);
        }
        push_items_text(parts, &self.metadata, self.count as usize);
    }
}

impl RafImageSequenceImage {
    /// Appends the printed form of this image.
    pub fn push_text(&self, parts: &mut Vec<TextPart>)
        ensures
            parts_view(final(parts)@) == parts_view(old(parts)@) + image_text(self@),
    {
        let ghost start = parts_view(parts@);
        push_literal(parts, "\tCFA Offset: ");
        push_part(parts, TextPart::Decimal(self.cfa_offset));
        push_literal(parts, "\n");
        push_literal(parts, "\tCFA Size: ");
        push_part(parts, TextPart::Decimal(self.cfa_size));
        push_literal(parts, "\n");
        push_items_text(parts, &self.metadata, self.metadata.len());
        assert(parts_view(parts@) =~= start + image_text(self@));
    }
}

impl RafImageSequenceContainer {
    /// Appends the printed form of this block.
    pub fn push_text(&self, parts: &mut Vec<TextPart>)
        ensures
            parts_view(final(parts)@) == parts_view(old(parts)@) + sequence_text(self@),
    {
        proof {
            use_type_invariant(self);
        }
        let ghost start = parts_view(parts@);
        push_literal(parts, "\tTotal Images in Sequence: ");
        push_part(parts, TextPart::Decimal(self.total_image_count as u64));
        push_literal(parts, "\n");
        push_literal(parts, "\tTag count: ");
        push_part(parts, TextPart::Decimal(self.image_sequence_metadata_count as u64));
        push_literal(parts, "\n");
        push_literal(parts, "\tVersion: ");
        push_part(parts, TextPart::Text(self.version.clone()));
        push_literal(parts, "\n");
        let ghost head = parts_view(parts@);
        let ghost images = image_views(self.image_sequence_images@);
        let total = self.total_image_count as usize;
        let mut i: usize = 0;
        while i < total
            invariant
                i <= total == self.total_image_count,
                self.image_sequence_images@.len() == self.total_image_count,
                images == image_views(self.image_sequence_images@),
                parts_view(parts@) == head + images_text(images, i as nat),
            decreases total - i,
        {
            push_literal(parts, "Image ");
            push_part(parts, TextPart::Decimal(i as u64 + 1));
            push_literal(parts, ":\n");
            self.image_sequence_images[i].push_text(parts);
            assert(images[i as int] == self.image_sequence_images@[i as int]@);
            assert(parts_view(parts@) =~= head + images_text(images, (i + 1) as nat));
            i = i + 1;
        }
        assert(parts_view(parts@) =~= start + sequence_text(self@));
    }
}

impl Raf {
    /// The printed form of this RAF.
    pub fn text_parts(&self) -> (r: Vec<TextPart>)
        ensures
            parts_view(r@) == raf_text(self@),
    {
        let mut parts: Vec<TextPart> = Vec::new();
        push_literal(&mut parts, "Camera: ");
        push_part(&mut parts, TextPart::Text(self.camera.clone()));
        push_literal(&mut parts, "\n");
        push_literal(&mut parts, "Version: \"");
        let v = self.version;
        let bytes: Vec<u8> = vec![
            (v / 0x100_0000) as u8,
            (v / 0x1_0000 % 0x100) as u8,
            (v / 0x100 % 0x100) as u8,
            (v % 0x100) as u8,
        ];
        assert(bytes@ =~= be_bytes_u32(v));
        push_part(&mut parts, TextPart::Utf8(bytes));
        push_literal(&mut parts, "\" ");
        push_part(&mut parts, TextPart::Decimal(v as u64));
        push_literal(&mut parts, " 0x");
        push_part(&mut parts, TextPart::UpperHex(v as u64));
        push_literal(&mut parts, "\n");
        match &self.image_sequence_metadata {
            Some(c) => {
                push_literal(&mut parts, "Image Sequence Metadata:\n");
                c.push_text(&mut parts);
            },
            None => {},
        }
        push_literal(&mut parts, "Metadata: \n");
        self.metadata_container.push_text(&mut parts);
        assert(parts_view(parts@) =~= raf_text(self@));
        parts
    }
}

} // verus!
