//! The Exif segment of a JPEG image: the search for the APP1 segment that
//! carries the Exif magic, and the TIFF byte-order mark that follows it.

use vstd::prelude::*;
use vstd::std_specs::convert::FromSpecImpl;

use crate::binary::{
    pos_after_relative, spec_read_bytes, spec_read_u16, BufBinaryReader, FromBinary, Outcome, ReadError,
    ReaderView, SeekFrom,
};

verus! {

/// The TIFF byte-order mark "II" (0x4949).
pub const INTEL_MARK: u16 = 0x4949;

/// The TIFF byte-order mark "MM" (0x4D4D).
pub const MOTOROLA_MARK: u16 = 0x4D4D;

/// The byte-order mark at the head of the Exif TIFF header.
#[derive(Clone, Copy, Debug, PartialEq, Eq, Structural)]
pub enum ByteOrder {
    Unknown(u16),
    Intel,
    Motorola,
}

/// The byte order that a mark names; any other mark is kept as `Unknown`.
pub open spec fn byte_order_of(value: u16) -> ByteOrder {
    if value == INTEL_MARK {
        ByteOrder::Intel
    } else if value == MOTOROLA_MARK {
        ByteOrder::Motorola
    } else {
        ByteOrder::Unknown(value)
    }
}

/// The mark of a byte order.
pub open spec fn byte_order_mark(order: ByteOrder) -> u16 {
    match order {
        ByteOrder::Unknown(value) => value,
        ByteOrder::Intel => INTEL_MARK,
        ByteOrder::Motorola => MOTOROLA_MARK,
    }
}

impl ByteOrder {
    /// The mark that this byte order is read from.
    pub fn mark(&self) -> (r: u16)
        ensures
            r == byte_order_mark(*self),
    {
        match self {
            ByteOrder::Unknown(value) => *value,
            ByteOrder::Intel => INTEL_MARK,
            ByteOrder::Motorola => MOTOROLA_MARK,
        }
    }
}

impl From<u16> for ByteOrder {
    fn from(value: u16) -> (r: ByteOrder) {
        if value == INTEL_MARK {
            ByteOrder::Intel
        } else if value == MOTOROLA_MARK {
            ByteOrder::Motorola
        } else {
            ByteOrder::Unknown(value)
        }
    }
}

impl FromSpecImpl<u16> for ByteOrder {
    open spec fn obeys_from_spec() -> bool {
        true
    }

    open spec fn from_spec(value: u16) -> ByteOrder {
        byte_order_of(value)
    }
}

/// Reading a byte order from its mark keeps the mark: no two marks give the
/// same byte order.
pub proof fn byte_order_mark_round_trip(value: u16)
    ensures
        byte_order_mark(byte_order_of(value)) == value,
{
}

/// A tag of an Exif directory entry.
#[allow(dead_code)]
pub(crate) enum EXIFTag {
    Unknown(u16),
}

/// The value of an Exif directory entry. Floating-point values are held as
/// their IEEE 754 bit patterns.
#[allow(dead_code)]
pub(crate) enum EXIFDataType {
    UnsignedByte(u8),
    ASCIIString(Vec<u8>),
    UnsignedShort(u16),
    UnsignedLong(u32),
    UnsignedRational(u32, u32),
    SignedByte(i8),
    Unknown(Vec<u8>),
    SignedShort(i16),
    SignedLong(i32),
    SignedRational(i32, u32),
    SingleFloat(u32),
    DoubleFloat(u64),
}

#[allow(dead_code)]
pub(crate) struct ImageFileDirectoryEntry {
    tag: EXIFTag,
    data: EXIFDataType,
}

#[allow(dead_code)]
pub(crate) struct ImageFileDirectory {
    entries: Vec<ImageFileDirectoryEntry>,
}

/// The Exif segment of a JPEG: the APP1 segment length, the TIFF byte-order
/// mark and the image file directories.
pub struct ExifData {
    size: u16,
    byte_order: ByteOrder,
    image_file_directories: Vec<ImageFileDirectory>,
}

/// What an `ExifData` holds: the segment length, the byte order and the
/// number of directories.
pub struct ExifModel {
    pub size: u16,
    pub byte_order: ByteOrder,
    pub directory_count: nat,
}

impl View for ExifData {
    type V = ExifModel;

    closed spec fn view(&self) -> ExifModel {
        ExifModel {
            size: self.size,
            byte_order: self.byte_order,
            directory_count: self.image_file_directories@.len(),
        }
    }
}

impl ExifData {
    /// The length field of the Exif APP1 segment.
    pub fn size(&self) -> (r: u16)
        ensures
            r == self@.size,
    {
        self.size
    }

    /// The byte order named by the TIFF header.
    pub fn byte_order(&self) -> (r: ByteOrder)
        ensures
            r == self@.byte_order,
    {
        self.byte_order
    }

    /// The number of image file directories that were read.
    pub fn directory_count(&self) -> (r: usize)
        ensures
            r == self@.directory_count,
    {
        self.image_file_directories.len()
    }
}

/// The six bytes after the APP1 length that mark an Exif segment: "Exif\0\0".
pub open spec fn exif_magic() -> Seq<u8> {
    seq![0x45u8, 0x78u8, 0x69u8, 0x66u8, 0x00u8, 0x00u8]
}

/// Markers of segments that carry a length and are skipped: SOF0 to SOF15,
/// DQT, DNL, DRI, DHP, EXP, APP0 and APP2 to APP15.
pub open spec fn is_skipped_segment(marker: u8) -> bool {
    (0xC0 <= marker <= 0xCF) || (0xDB <= marker <= 0xDF) || marker == 0xE0 || (0xE2 <= marker
        <= 0xEF)
}

/// Markers without a length: RST0 to RST7, SOI and COM.
pub open spec fn is_bare_marker(marker: u8) -> bool {
    (0xD0 <= marker <= 0xD8) || marker == 0xFE
}

/// The number of bytes from the position to the end, or zero past it.
pub open spec fn remaining(r: ReaderView) -> nat {
    if r.pos <= r.data.len() {
        (r.data.len() - r.pos) as nat
    } else {
        0
    }
}

/// One step of the segment search from the state just past a marker.
pub enum SearchStep {
    /// The Exif segment, with its length; the reader is just past the magic.
    Found(u16, ReaderView),
    /// Skip this many bytes from this state, then read the next marker.
    Skip(ReaderView, int),
    /// The search ends with this outcome.
    Stop(Outcome<u16>),
}

pub open spec fn search_step(r: ReaderView, marker: u8) -> SearchStep {
    if is_skipped_segment(marker) {
        match spec_read_u16(r) {
            Outcome::Value(len, r1) => SearchStep::Skip(r1, len as int),
            Outcome::Failed(e, st) => SearchStep::Stop(Outcome::Failed(e, st)),
            Outcome::InvalidText(t, st) => SearchStep::Stop(Outcome::InvalidText(t, st)),
        }
    } else if is_bare_marker(marker) {
        SearchStep::Skip(r, 0)
    } else if marker == 0xE1 {
        match spec_read_u16(r) {
            Outcome::Value(len, r1) => if len >= 6 {
                match spec_read_bytes(r1, 6) {
                    Outcome::Value(magic, r2) => if magic == exif_magic() {
                        SearchStep::Found(len, r2)
                    } else {
                        SearchStep::Skip(r2, len - 6)
                    },
                    Outcome::Failed(e, st) => SearchStep::Stop(Outcome::Failed(e, st)),
                    Outcome::InvalidText(t, st) => SearchStep::Stop(Outcome::InvalidText(t, st)),
                }
            } else {
                SearchStep::Skip(r1, len as int)
            },
            Outcome::Failed(e, st) => SearchStep::Stop(Outcome::Failed(e, st)),
            Outcome::InvalidText(t, st) => SearchStep::Stop(Outcome::InvalidText(t, st)),
        }
    } else if marker == 0xD9 || marker == 0xDA {
        SearchStep::Stop(Outcome::Failed(ReadError::MissingApp1, r))
    } else {
        SearchStep::Stop(Outcome::Failed(ReadError::UnknownSection, r))
    }
}

pub proof fn lemma_search_step_forward(r: ReaderView, marker: u8)
    ensures
        search_step(r, marker) matches SearchStep::Skip(s, k) ==> s.pos >= r.pos && k >= 0
            && s.data == r.data,
{
}

/// The search for the Exif APP1 segment from the state just past the marker
/// byte `marker`: skipped segments are jumped over by their length (a jump
/// that cannot be made is not made), and the next two bytes give the next
/// marker in their second byte.
pub open spec fn exif_search(r: ReaderView, marker: u8) -> Outcome<u16>
    decreases remaining(r),
{
    match search_step(r, marker) {
        SearchStep::Found(size, after) => Outcome::Value(size, after),
        SearchStep::Stop(o) => o,
        SearchStep::Skip(s, k) => {
            let s2 = s.with_pos(pos_after_relative(s, k));
            match s2.peek(2) {
                Some(b) => {
                    proof {
                        lemma_search_step_forward(r, marker);
                    }
                    exif_search(s2.with_pos(s2.pos + 2), b[1])
                },
                None => Outcome::Failed(ReadError::UnexpectedEof, s2),
            }
        },
    }
}

/// What follows the Exif magic: the byte-order mark and the directory entry
/// count, both in the reader's byte order.
pub open spec fn exif_after_search(found: Outcome<u16>) -> Outcome<ExifModel> {
    found.and_then(
        |size: u16, r2: ReaderView|
            spec_read_u16(r2).and_then(
                |mark: u16, r3: ReaderView|
                    spec_read_u16(r3).map(
                        |count: u16|
                            ExifModel {
                                size: size,
                                byte_order: byte_order_of(mark),
                                directory_count: 0,
                            },
                    ),
            ),
    )
}

/// Reading the Exif data of a JPEG that starts at the position: a marker
/// byte 0xFF, the search for the Exif segment, the byte-order mark and the
/// directory entry count.
pub open spec fn exif_parse(r: ReaderView) -> Outcome<ExifModel> {
    spec_read_bytes(r, 2).and_then(
        |b: Seq<u8>, r1: ReaderView|
            if b[0] != 0xFF {
                Outcome::Failed(ReadError::InvalidJpeg, r1)
            } else {
                exif_after_search(exif_search(r1, b[1]))
            },
    )
}

/// The segment search meets no text.
pub proof fn lemma_search_never_text(r: ReaderView, marker: u8)
    ensures
        !(exif_search(r, marker) is InvalidText),
    decreases remaining(r),
{
    lemma_search_step_forward(r, marker);
    if let SearchStep::Skip(s, k) = search_step(r, marker) {
        let s2 = s.with_pos(pos_after_relative(s, k));
        if let Some(b) = s2.peek(2) {
            lemma_search_never_text(s2.with_pos(s2.pos + 2), b[1]);
        }
    }
}

/// Reading Exif data meets no text.
pub proof fn lemma_exif_never_text(r: ReaderView)
    ensures
        !(exif_parse(r) is InvalidText),
{
    if let Outcome::Value(b, r1) = spec_read_bytes(r, 2) {
        lemma_search_never_text(r1, b[1]);
    }
}

impl FromBinary for Vec<ImageFileDirectory> {
    /// The directory entry count is read; no directory is kept.
    open spec fn parse(input: ReaderView) -> Outcome<Seq<ImageFileDirectory>> {
        match spec_read_u16(input) {
            Outcome::Value(_, after) => Outcome::Value(Seq::empty(), after),
            Outcome::Failed(e, st) => Outcome::Failed(e, st),
            Outcome::InvalidText(t, st) => Outcome::InvalidText(t, st),
        }
    }

    fn read_from(reader: &mut BufBinaryReader) -> (r: Result<Vec<ImageFileDirectory>, ReadError>) {
        let _entry_count: u16 = reader.read()?;
        let entries: Vec<ImageFileDirectory> = Vec::new();
        Ok(entries)
    }
}

impl FromBinary for ExifData {
    open spec fn parse(input: ReaderView) -> Outcome<ExifModel> {
        exif_parse(input)
    }

    fn read_from(reader: &mut BufBinaryReader) -> (r: Result<ExifData, ReadError>) {
        let mut buf = reader.read_bytes(2)?;
        if buf[0] != 0xFF {
            return Err(ReadError::InvalidJpeg);
        }
        let ghost start = old(reader)@;
        let ghost target = exif_search(reader@, buf@[1]);
        let mut size: u16 = 0;
        let mut done: bool = false;
        while !done
            invariant
                reader@.valid(),
                reader@.data == start.data,
                start == old(reader)@,
                buf@.len() == 2,
                exif_parse(start) == exif_after_search(target),
                !done ==> exif_search(reader@, buf@[1]) == target,
                done ==> target == Outcome::Value(size, reader@),
            decreases remaining(reader@) + (if done { 0int } else { 1int }),
        {
            let marker = buf[1];
            if (0xC0 <= marker && marker <= 0xCF) || (0xDB <= marker && marker <= 0xDF) || marker
                == 0xE0 || (0xE2 <= marker && marker <= 0xEF) {
                let len: u16 = reader.read()?;
                reader.seek(SeekFrom::Current(len as i64))?;
                buf = reader.read_bytes(2)?;
            } else if (0xD0 <= marker && marker <= 0xD8) || marker == 0xFE {
                buf = reader.read_bytes(2)?;
            } else if marker == 0xE1 {
                let len: u16 = reader.read()?;
                if len >= 6 {
                    let magic = reader.read_bytes(6)?;
                    let is_exif = magic[0] == 0x45 && magic[1] == 0x78 && magic[2] == 0x69
                        && magic[3] == 0x66 && magic[4] == 0x00 && magic[5] == 0x00;
                    assert(is_exif <==> magic@ == exif_magic()) by {
                        if is_exif {
                            assert(magic@ =~= exif_magic());
                        }
                    }
                    if is_exif {
                        size = len;
                        done = true;
                    } else {
                        reader.seek(SeekFrom::Current((len - 6) as i64))?;
                        buf = reader.read_bytes(2)?;
                    }
                } else {
                    reader.seek(SeekFrom::Current(len as i64))?;
                    buf = reader.read_bytes(2)?;
                }
            } else if marker == 0xD9 || marker == 0xDA {
                return Err(ReadError::MissingApp1);
            } else {
                return Err(ReadError::UnknownSection);
            }
        }
        let byte_order = ByteOrder::from(reader.read::<u16>()?);
        let image_file_directories = Vec::<ImageFileDirectory>::read_from(reader)?;
        Ok(ExifData { size, byte_order, image_file_directories })
    }
}


/// The Exif segment is found only just past an Exif magic, with a segment
/// length of at least 6.
pub proof fn exif_found_after_magic(r: ReaderView, marker: u8)
    ensures
        exif_search(r, marker) matches Outcome::Value(size, after) ==> size >= 6 && after.data
            == r.data && 6 <= after.pos <= after.data.len() && after.data.subrange(
            after.pos - 6,
            after.pos,
        ) == exif_magic(),
    decreases remaining(r),
{
    lemma_search_step_forward(r, marker);
    if let SearchStep::Skip(s, k) = search_step(r, marker) {
        let s2 = s.with_pos(pos_after_relative(s, k));
        if let Some(b) = s2.peek(2) {
            exif_found_after_magic(s2.with_pos(s2.pos + 2), b[1]);
        }
    }
}

} // verus!
