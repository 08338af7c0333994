//! A positioned reader over a byte image, with big- or little-endian integer
//! reads, and the specification language in which every parser of this crate
//! states what it reads.

use vstd::prelude::*;
use vstd::utf8::*;

verus! {

/// Byte order in which multi-byte integers are read.
#[derive(Clone, Copy, Debug, PartialEq, Eq, Structural)]
pub enum Endian {
    Big,
    Little,
}

/// Why a read failed.
#[derive(Clone, Copy, Debug, PartialEq, Eq, Structural)]
pub enum ReadError {
    /// Fewer bytes remain after the position than the read asks for.
    UnexpectedEof,
    /// A seek would move before the first byte or past the largest position.
    InvalidSeek,
    /// The data does not begin with the RAF magic.
    InvalidRaf,
    /// The embedded JPEG does not begin with a marker byte.
    InvalidJpeg,
    /// Start-of-scan or end-of-image came before an Exif APP1 segment.
    MissingApp1,
    /// The JPEG holds a marker that is not a known segment.
    UnknownSection,
}

/// A failed read of a record that holds text: either a read error, or a
/// text field whose bytes are not UTF-8 (the bytes are handed back).
#[derive(Debug)]
pub enum Fault {
    Read(ReadError),
    InvalidText(Vec<u8>),
}

/// Where a seek goes: from the first byte, from the end, or from the position.
#[derive(Clone, Copy, Debug, PartialEq, Eq, Structural)]
pub enum SeekFrom {
    Start(u64),
    End(i64),
    Current(i64),
}

/// The mathematical state of a reader: all of its bytes, its position and
/// its byte order. The position may lie past the last byte.
pub struct ReaderView {
    pub data: Seq<u8>,
    pub pos: int,
    pub endian: Endian,
}

impl ReaderView {
    /// Every reader keeps its data and its position within the range of `i64`.
    /// Positions are file offsets, which are signed 64-bit numbers: as with a
    /// file, a seek or skip to a position above `i64::MAX` fails with
    /// `InvalidSeek` and leaves the reader where it was.
    pub open spec fn valid(self) -> bool {
        &&& self.data.len() <= i64::MAX
        &&& 0 <= self.pos <= i64::MAX
    }

    pub open spec fn with_pos(self, pos: int) -> ReaderView {
        ReaderView { data: self.data, pos: pos, endian: self.endian }
    }

    pub open spec fn with_endian(self, endian: Endian) -> ReaderView {
        ReaderView { data: self.data, pos: self.pos, endian: endian }
    }

    /// The `n` bytes at the position, where that many remain; no bytes are
    /// always there, even past the end.
    pub open spec fn peek(self, n: int) -> Option<Seq<u8>> {
        if n == 0 {
            Some(Seq::empty())
        } else if 0 <= self.pos && 0 < n && self.pos + n <= self.data.len() {
            Some(self.data.subrange(self.pos, self.pos + n))
        } else {
            None
        }
    }

    /// The reader moved by `delta` bytes, where the new position is in range.
    pub open spec fn moved(self, delta: int) -> Option<ReaderView> {
        if 0 <= self.pos + delta <= i64::MAX {
            Some(self.with_pos(self.pos + delta))
        } else {
            None
        }
    }
}

/// What a read does from a given reader state: it yields a value, or fails
/// with an error, or meets a text field that is not UTF-8 (on which the
/// reading functions of this crate are not called); each with the state of
/// the reader after it.
pub enum Outcome<V> {
    Value(V, ReaderView),
    Failed(ReadError, ReaderView),
    InvalidText(Seq<u8>, ReaderView),
}

impl<V> Outcome<V> {
    /// The same outcome with its value, if any, replaced by `f` of it.
    pub open spec fn map<W>(self, f: spec_fn(V) -> W) -> Outcome<W> {
        match self {
            Outcome::Value(v, after) => Outcome::Value(f(v), after),
            Outcome::Failed(e, st) => Outcome::Failed(e, st),
            Outcome::InvalidText(t, st) => Outcome::InvalidText(t, st),
        }
    }

    /// The outcome of reading on with `next` from the value and the state
    /// that this outcome yields, or this outcome's failure.
    pub open spec fn and_then<W>(self, next: spec_fn(V, ReaderView) -> Outcome<W>) -> Outcome<W> {
        match self {
            Outcome::Value(v, after) => next(v, after),
            Outcome::Failed(e, st) => Outcome::Failed(e, st),
            Outcome::InvalidText(t, st) => Outcome::InvalidText(t, st),
        }
    }
}

/// `r` and the state `after` are what the outcome `o` describes.
pub open spec fn read_agrees<T: View>(o: Outcome<T::V>, r: Result<T, ReadError>, after: ReaderView) -> bool {
    match o {
        Outcome::Value(v, st) => r matches Ok(x) && x@ == v && after == st,
        Outcome::Failed(e, st) => r == Err::<T, ReadError>(e) && after == st,
        Outcome::InvalidText(_, _) => false,
    }
}

/// As `read_agrees`, for reads that report text that is not UTF-8.
pub open spec fn fault_agrees<T: View>(o: Outcome<T::V>, r: Result<T, Fault>, after: ReaderView) -> bool {
    match o {
        Outcome::Value(v, st) => r matches Ok(x) && x@ == v && after == st,
        Outcome::Failed(e, st) => r matches Err(Fault::Read(x)) && x == e && after == st,
        Outcome::InvalidText(t, st) => r matches Err(Fault::InvalidText(b)) && b@ == t && after
            == st,
    }
}

/// A big-endian `u16` from two bytes.
pub open spec fn be_u16(b: Seq<u8>) -> u16 {
    (b[0] * 256 + b[1]) as u16
}

/// A little-endian `u16` from two bytes.
pub open spec fn le_u16(b: Seq<u8>) -> u16 {
    (b[1] * 256 + b[0]) as u16
}

/// A big-endian `u32` from four bytes.
pub open spec fn be_u32(b: Seq<u8>) -> u32 {
    (((b[0] * 256 + b[1]) * 256 + b[2]) * 256 + b[3]) as u32
}

/// A little-endian `u32` from four bytes.
pub open spec fn le_u32(b: Seq<u8>) -> u32 {
    (((b[3] * 256 + b[2]) * 256 + b[1]) * 256 + b[0]) as u32
}

/// A big-endian `u64` from eight bytes.
pub open spec fn be_u64(b: Seq<u8>) -> u64 {
    (be_u32(b.subrange(0, 4)) * 0x1_0000_0000 + be_u32(b.subrange(4, 8))) as u64
}

/// A little-endian `u64` from eight bytes.
pub open spec fn le_u64(b: Seq<u8>) -> u64 {
    (le_u32(b.subrange(4, 8)) * 0x1_0000_0000 + le_u32(b.subrange(0, 4))) as u64
}

pub open spec fn u16_in(b: Seq<u8>, endian: Endian) -> u16 {
    match endian {
        Endian::Big => be_u16(b),
        Endian::Little => le_u16(b),
    }
}

pub open spec fn u32_in(b: Seq<u8>, endian: Endian) -> u32 {
    match endian {
        Endian::Big => be_u32(b),
        Endian::Little => le_u32(b),
    }
}

pub open spec fn u64_in(b: Seq<u8>, endian: Endian) -> u64 {
    match endian {
        Endian::Big => be_u64(b),
        Endian::Little => le_u64(b),
    }
}

/// Reading `n` bytes: the bytes at the position, and the position moved past them.
pub open spec fn spec_read_bytes(r: ReaderView, n: int) -> Outcome<Seq<u8>> {
    match r.peek(n) {
        Some(b) => Outcome::Value(b, r.with_pos(r.pos + n)),
        None => Outcome::Failed(ReadError::UnexpectedEof, r),
    }
}

pub open spec fn spec_read_u16(r: ReaderView) -> Outcome<u16> {
    spec_read_bytes(r, 2).map(|b: Seq<u8>| u16_in(b, r.endian))
}

pub open spec fn spec_read_u32(r: ReaderView) -> Outcome<u32> {
    spec_read_bytes(r, 4).map(|b: Seq<u8>| u32_in(b, r.endian))
}

pub open spec fn spec_read_u64(r: ReaderView) -> Outcome<u64> {
    spec_read_bytes(r, 8).map(|b: Seq<u8>| u64_in(b, r.endian))
}

/// Reading `n` bytes of UTF-8 text: the text they encode, or, where they are
/// not UTF-8, the bytes.
pub open spec fn spec_read_text(r: ReaderView, n: int) -> Outcome<Seq<char>> {
    spec_read_bytes(r, n).and_then(
        |b: Seq<u8>, after: ReaderView|
            if valid_utf8(b) {
                Outcome::Value(decode_utf8(b), after)
            } else {
                Outcome::InvalidText(b, after)
            },
    )
}

/// Skipping `bytes`: the reader moved, where the new position is in range.
pub open spec fn spec_skip(r: ReaderView, bytes: int) -> Outcome<()> {
    match r.moved(bytes) {
        Some(after) => Outcome::Value((), after),
        None => Outcome::Failed(ReadError::InvalidSeek, r),
    }
}

/// The position after a seek from the current position, whose own failure
/// leaves the position where it was.
pub open spec fn pos_after_relative(r: ReaderView, offset: int) -> int {
    match r.moved(offset) {
        Some(after) => after.pos,
        None => r.pos,
    }
}

/// The distance from the position to the start offset, as the seek computes
/// it from both numbers taken as `i64`.
pub open spec fn start_distance(r: ReaderView, offset: u64) -> int {
    (offset as i64) - r.pos
}

/// A seek neither overflows nor underflows the arithmetic of its result.
pub open spec fn seek_in_range(r: ReaderView, target: SeekFrom) -> bool {
    match target {
        SeekFrom::Start(offset) => i64::MIN <= start_distance(r, offset) <= i64::MAX,
        SeekFrom::End(_) => true,
        SeekFrom::Current(offset) => pos_after_relative(r, offset as int) + (offset as u64) <= u64::MAX,
    }
}

/// A seek: from the start it reports the distance moved; from the end it
/// reports the new position; from the current position it moves if it can
/// and reports the new position plus the offset.
pub open spec fn spec_seek(r: ReaderView, target: SeekFrom) -> Outcome<u64> {
    match target {
        SeekFrom::Start(offset) => {
            let d = start_distance(r, offset);
            match r.moved(d) {
                Some(after) => Outcome::Value(d as u64, after),
                None => Outcome::Failed(ReadError::InvalidSeek, r),
            }
        },
        SeekFrom::End(offset) => {
            let p = r.data.len() + offset;
            if 0 <= p <= i64::MAX {
                Outcome::Value(p as u64, r.with_pos(p))
            } else {
                Outcome::Failed(ReadError::InvalidSeek, r)
            }
        },
        SeekFrom::Current(offset) => {
            let p = pos_after_relative(r, offset as int);
            Outcome::Value((p + (offset as u64)) as u64, r.with_pos(p))
        },
    }
}

/// A value that can be read from a reader: `parse` states from each reader
/// state what `read_from` yields and where it leaves the reader.
pub trait FromBinary: Sized + View {
    spec fn parse(input: ReaderView) -> Outcome<Self::V>;

    fn read_from(reader: &mut BufBinaryReader) -> (r: Result<Self, ReadError>)
        requires
            old(reader)@.valid(),
            !(Self::parse(old(reader)@) is InvalidText),
        ensures
            final(reader)@.valid(),
            final(reader)@.data == old(reader)@.data,
            read_agrees(Self::parse(old(reader)@), r, final(reader)@),
    ;
}

/// A reader over a byte image held in memory, with a position and a byte order.
/// It seeks as a file does: its position may lie past the last byte (reads
/// there fail, except of zero bytes), but never before the first byte nor
/// above `i64::MAX`, the largest file offset.
pub struct BufBinaryReader {
    inner: Vec<u8>,
    pos: u64,
    endianness: Endian,
}

impl View for BufBinaryReader {
    type V = ReaderView;

    closed spec fn view(&self) -> ReaderView {
        ReaderView { data: self.inner@, pos: self.pos as int, endian: self.endianness }
    }
}

impl BufBinaryReader {
    /// A reader at the first byte of `reader`.
    pub fn new(reader: Vec<u8>, endianness: Endian) -> (r: BufBinaryReader)
        requires
            reader.len() <= i64::MAX,
        ensures
            r@ == (ReaderView { data: reader@, pos: 0, endian: endianness }),
            r@.valid(),
    {
        BufBinaryReader { inner: reader, pos: 0, endianness }
    }

    pub fn set_endianness(&mut self, endianness: Endian)
        ensures
            final(self)@ == old(self)@.with_endian(endianness),
    {
        self.endianness = endianness;
    }

    pub fn stream_position(&mut self) -> (r: Result<u64, ReadError>)
        ensures
            final(self)@ == old(self)@,
            r == Ok::<u64, ReadError>(old(self)@.pos as u64),
    {
        Ok(self.pos)
    }

    /// Seeks as `spec_seek` states; a target before the first byte or above
    /// `i64::MAX` fails with `InvalidSeek` and leaves the reader unchanged.
    pub fn seek(&mut self, pos: SeekFrom) -> (r: Result<u64, ReadError>)
        requires
            old(self)@.valid(),
            seek_in_range(old(self)@, pos),
        ensures
            final(self)@.valid(),
            final(self)@.data == old(self)@.data,
            read_agrees(spec_seek(old(self)@, pos), r, final(self)@),
    {
        match pos {
            SeekFrom::Start(offset) => {
                let current = self.stream_position()?;
                let diff = offset as i64 - current as i64;
                self.skip_bytes(diff)?;
                Ok(diff as u64)
            },
            SeekFrom::End(offset) => {
                let len = self.inner.len() as i128;
                let p = len + offset as i128;
                if 0 <= p && p <= i64::MAX as i128 {
                    self.pos = p as u64;
                    Ok(p as u64)
                } else {
                    Err(ReadError::InvalidSeek)
                }
            },
            SeekFrom::Current(offset) => {
                let _ = self.skip_bytes(offset);
                let current = self.stream_position()?;
                Ok(current + offset as u64)
            },
        }
    }

    /// Moves the position by `bytes`; a move before the first byte or above
    /// `i64::MAX` fails with `InvalidSeek` and leaves the position unchanged.
    pub fn skip_bytes(&mut self, bytes: i64) -> (r: Result<(), ReadError>)
        requires
            old(self)@.valid(),
        ensures
            final(self)@.valid(),
            final(self)@.data == old(self)@.data,
            read_agrees(spec_skip(old(self)@, bytes as int), r, final(self)@),
            r is Err ==> final(self)@ == old(self)@,
    {
        let p = self.pos as i128 + bytes as i128;
        if 0 <= p && p <= i64::MAX as i128 {
            self.pos = p as u64;
            Ok(())
        } else {
            Err(ReadError::InvalidSeek)
        }
    }

    pub fn read<T: FromBinary>(&mut self) -> (r: Result<T, ReadError>)
        requires
            old(self)@.valid(),
            !(T::parse(old(self)@) is InvalidText),
        ensures
            final(self)@.valid(),
            final(self)@.data == old(self)@.data,
            read_agrees(T::parse(old(self)@), r, final(self)@),
    {
        T::read_from(self)
    }

    pub fn read_bytes(&mut self, size: usize) -> (r: Result<Vec<u8>, ReadError>)
        requires
            old(self)@.valid(),
        ensures
            final(self)@.valid(),
            final(self)@.data == old(self)@.data,
            read_agrees(spec_read_bytes(old(self)@, size as int), r, final(self)@),
            r is Err ==> final(self)@ == old(self)@,
    {
        let mut buf = vec![0u8; size];
        self.read_exact(buf.as_mut_slice())?;
        Ok(buf)
    }

    /// Fills `buf` with the bytes at the position and moves past them.
    fn read_exact(&mut self, buf: &mut [u8]) -> (r: Result<(), ReadError>)
        requires
            old(self)@.valid(),
        ensures
            final(self)@.valid(),
            final(buf)@.len() == old(buf)@.len(),
            match spec_read_bytes(old(self)@, old(buf)@.len() as int) {
                Outcome::Value(b, after) => r is Ok && final(buf)@ == b && final(self)@ == after,
                _ => r == Err::<(), ReadError>(ReadError::UnexpectedEof) && final(self)@ == old(self)@,
            },
    {
        let len = self.inner.len();
        let n = buf.len();
        if n == 0 {
            assert(buf@ =~= Seq::<u8>::empty());
            return Ok(());
        }
        if self.pos > len as u64 || (n as u64) > (len as u64) - self.pos {
            return Err(ReadError::UnexpectedEof);
        }
        let start = self.pos as usize;
        let mut i: usize = 0;
        while i < n
            invariant
                n == buf@.len(),
                start + n <= len,
                len == self.inner@.len(),
                0 <= i <= n,
                forall|j: int| 0 <= j < i ==> buf@[j] == self.inner@[start + j],
            decreases n - i,
        {
            buf[i] = self.inner[start + i];
            i = i + 1;
        }
        assert(buf@ =~= self.inner@.subrange(start as int, start + n));
        self.pos = self.pos + n as u64;
        Ok(())
    }

    fn read_u16(&mut self) -> (r: Result<u16, ReadError>)
        requires
            old(self)@.valid(),
        ensures
            final(self)@.valid(),
            final(self)@.data == old(self)@.data,
            read_agrees(spec_read_u16(old(self)@), r, final(self)@),
    {
        let mut buf = [0u8; 2];
        self.read_exact(&mut buf)?;
        let (b0, b1) = (buf[0] as u16, buf[1] as u16);
        match self.endianness {
            Endian::Big => Ok(b0 * 256 + b1),
            Endian::Little => Ok(b1 * 256 + b0),
        }
    }

    fn read_u32(&mut self) -> (r: Result<u32, ReadError>)
        requires
            old(self)@.valid(),
        ensures
            final(self)@.valid(),
            final(self)@.data == old(self)@.data,
            read_agrees(spec_read_u32(old(self)@), r, final(self)@),
    {
        let mut buf = [0u8; 4];
        self.read_exact(&mut buf)?;
        let (b0, b1, b2, b3) = (buf[0] as u32, buf[1] as u32, buf[2] as u32, buf[3] as u32);
        match self.endianness {
            Endian::Big => Ok(((b0 * 256 + b1) * 256 + b2) * 256 + b3),
            Endian::Little => Ok(((b3 * 256 + b2) * 256 + b1) * 256 + b0),
        }
    }

    fn read_u64(&mut self) -> (r: Result<u64, ReadError>)
        requires
            old(self)@.valid(),
        ensures
            final(self)@.valid(),
            final(self)@.data == old(self)@.data,
            read_agrees(spec_read_u64(old(self)@), r, final(self)@),
    {
        let mut buf = [0u8; 8];
        self.read_exact(&mut buf)?;
        let ghost bytes = buf@;
        let hi = ((buf[0] as u64 * 256 + buf[1] as u64) * 256 + buf[2] as u64) * 256 + buf[3] as u64;
        let lo = ((buf[4] as u64 * 256 + buf[5] as u64) * 256 + buf[6] as u64) * 256 + buf[7] as u64;
        let hi_le = ((buf[7] as u64 * 256 + buf[6] as u64) * 256 + buf[5] as u64) * 256 + buf[4] as u64;
        let lo_le = ((buf[3] as u64 * 256 + buf[2] as u64) * 256 + buf[1] as u64) * 256 + buf[0] as u64;
        assert(bytes.subrange(0, 4)[3] == bytes[3] && bytes.subrange(4, 8)[3] == bytes[7]);
        match self.endianness {
            Endian::Big => Ok(hi * 0x1_0000_0000 + lo),
            Endian::Little => Ok(hi_le * 0x1_0000_0000 + lo_le),
        }
    }
}

impl FromBinary for u16 {
    open spec fn parse(input: ReaderView) -> Outcome<u16> {
        spec_read_u16(input)
    }

    fn read_from(reader: &mut BufBinaryReader) -> (r: Result<u16, ReadError>) {
        reader.read_u16()
    }
}

impl FromBinary for u32 {
    open spec fn parse(input: ReaderView) -> Outcome<u32> {
        spec_read_u32(input)
    }

    fn read_from(reader: &mut BufBinaryReader) -> (r: Result<u32, ReadError>) {
        reader.read_u32()
    }
}

impl FromBinary for u64 {
    open spec fn parse(input: ReaderView) -> Outcome<u64> {
        spec_read_u64(input)
    }

    fn read_from(reader: &mut BufBinaryReader) -> (r: Result<u64, ReadError>) {
        reader.read_u64()
    }
}

/// The text that `bytes` encode in UTF-8, or the bytes themselves where they
/// are not UTF-8. Trusted: calls `String::from_utf8`, which the standard
/// library documents to succeed exactly on valid UTF-8 and to keep the bytes
/// as the string's encoding, and `FromUtf8Error::into_bytes`, documented to
/// give back the bytes that were passed in.
#[verifier::external_body]
pub(crate) fn decode_text(bytes: Vec<u8>) -> (r: Result<String, Vec<u8>>)
    ensures
        r is Ok <==> valid_utf8(bytes@),
        r matches Ok(s) ==> s@ == decode_utf8(bytes@),
        r matches Err(b) ==> b@ == bytes@,
{
    match String::from_utf8(bytes) {
        Ok(s) => Ok(s),
        Err(e) => Err(e.into_bytes()),
    }
}


/// A seek from the start to an offset within the range of positions puts the
/// reader at that offset.
pub proof fn seek_start_lands_on_offset(r: ReaderView, offset: u64)
    requires
        r.valid(),
        offset <= i64::MAX,
    ensures
        seek_in_range(r, SeekFrom::Start(offset)),
        spec_seek(r, SeekFrom::Start(offset)) matches Outcome::Value(_, after) && after == r.with_pos(
            offset as int,
        ),
{
}

/// Two skips that each stay in range are one skip by their sum.
pub proof fn skips_compose(r: ReaderView, a: int, b: int)
    requires
        r.moved(a) is Some,
        r.moved(a)->0.moved(b) is Some,
    ensures
        r.moved(a + b) == r.moved(a)->0.moved(b),
{
}

/// A little-endian number is the big-endian number of the same bytes in
/// reverse order.
pub proof fn little_endian_reverses_big_endian(b: Seq<u8>)
    ensures
        b.len() == 2 ==> le_u16(b) == be_u16(b.reverse()),
        b.len() == 4 ==> le_u32(b) == be_u32(b.reverse()),
        b.len() == 8 ==> le_u64(b) == be_u64(b.reverse()),
{
    if b.len() == 8 {
        assert(b.reverse().subrange(0, 4) =~= b.subrange(4, 8).reverse());
        assert(b.reverse().subrange(4, 8) =~= b.subrange(0, 4).reverse());
    }
}


/// The two big-endian bytes of a `u16`.
pub open spec fn be_bytes_u16(v: u16) -> Seq<u8> {
    seq![(v / 0x100) as u8, (v % 0x100) as u8]
}

/// The four big-endian bytes of a `u32`.
pub open spec fn be_bytes_u32(v: u32) -> Seq<u8> {
    seq![
        (v / 0x100_0000) as u8,
        (v / 0x1_0000 % 0x100) as u8,
        (v / 0x100 % 0x100) as u8,
        (v % 0x100) as u8,
    ]
}

/// The eight big-endian bytes of a `u64`.
pub open spec fn be_bytes_u64(v: u64) -> Seq<u8> {
    be_bytes_u32((v / 0x1_0000_0000) as u32) + be_bytes_u32((v % 0x1_0000_0000) as u32)
}

/// A `u16` with its bytes in reverse order.
pub open spec fn swap_u16(v: u16) -> u16 {
    be_u16(be_bytes_u16(v).reverse())
}

/// A `u32` with its bytes in reverse order.
pub open spec fn swap_u32(v: u32) -> u32 {
    be_u32(be_bytes_u32(v).reverse())
}

/// A `u64` with its bytes in reverse order.
pub open spec fn swap_u64(v: u64) -> u64 {
    be_u64(be_bytes_u64(v).reverse())
}

/// The big-endian bytes of the number that two bytes make are those bytes.
pub proof fn be_bytes_u16_round_trip(b: Seq<u8>)
    requires
        b.len() == 2,
    ensures
        be_bytes_u16(be_u16(b)) == b,
{
    let (b0, b1) = (b[0] as int, b[1] as int);
    let v = be_u16(b) as int;
    assert(v / 0x100 == b0 && v % 0x100 == b1) by (nonlinear_arith)
        requires
            v == b0 * 0x100 + b1,
            0 <= b0 < 256,
            0 <= b1 < 256,
    ;
    assert(be_bytes_u16(be_u16(b)) =~= b);
}

/// The big-endian bytes of the number that four bytes make are those bytes;
/// so the version of a RAF is printed as the four bytes it was read from.
pub proof fn be_bytes_u32_round_trip(b: Seq<u8>)
    requires
        b.len() == 4,
    ensures
        be_bytes_u32(be_u32(b)) == b,
{
    let (b0, b1, b2, b3) = (b[0] as int, b[1] as int, b[2] as int, b[3] as int);
    let v = be_u32(b) as int;
    assert(v == b0 * 0x100_0000 + b1 * 0x1_0000 + b2 * 0x100 + b3);
    assert(v / 0x100_0000 == b0 && v / 0x1_0000 % 0x100 == b1 && v / 0x100 % 0x100 == b2 && v
        % 0x100 == b3) by (nonlinear_arith)
        requires
            v == b0 * 0x100_0000 + b1 * 0x1_0000 + b2 * 0x100 + b3,
            0 <= b0 < 256,
            0 <= b1 < 256,
            0 <= b2 < 256,
            0 <= b3 < 256,
    ;
    assert(be_bytes_u32(be_u32(b)) =~= b);
}

/// The big-endian bytes of the number that eight bytes make are those bytes.
pub proof fn be_bytes_u64_round_trip(b: Seq<u8>)
    requires
        b.len() == 8,
    ensures
        be_bytes_u64(be_u64(b)) == b,
{
    let hi = be_u32(b.subrange(0, 4));
    let lo = be_u32(b.subrange(4, 8));
    let v = be_u64(b) as int;
    assert(v / 0x1_0000_0000 == hi && v % 0x1_0000_0000 == lo) by (nonlinear_arith)
        requires
            v == hi * 0x1_0000_0000 + lo,
            0 <= lo < 0x1_0000_0000,
            0 <= hi,
    ;
    be_bytes_u32_round_trip(b.subrange(0, 4));
    be_bytes_u32_round_trip(b.subrange(4, 8));
    assert(be_bytes_u64(be_u64(b)) =~= b);
}

/// Reading a number little-endian gives the number read big-endian from the
/// same position with its bytes swapped; both reads end at the same position,
/// and both fail, with the same error, where too few bytes remain.
pub proof fn little_endian_read_swaps_big_endian_read(r: ReaderView)
    ensures
        match (spec_read_u16(r.with_endian(Endian::Little)), spec_read_u16(r.with_endian(Endian::Big))) {
            (Outcome::Value(a, s1), Outcome::Value(b, s2)) => a == swap_u16(b) && s1.pos == s2.pos,
            (Outcome::Failed(e1, _), Outcome::Failed(e2, _)) => e1 == e2,
            _ => false,
        },
        match (spec_read_u32(r.with_endian(Endian::Little)), spec_read_u32(r.with_endian(Endian::Big))) {
            (Outcome::Value(a, s1), Outcome::Value(b, s2)) => a == swap_u32(b) && s1.pos == s2.pos,
            (Outcome::Failed(e1, _), Outcome::Failed(e2, _)) => e1 == e2,
            _ => false,
        },
        match (spec_read_u64(r.with_endian(Endian::Little)), spec_read_u64(r.with_endian(Endian::Big))) {
            (Outcome::Value(a, s1), Outcome::Value(b, s2)) => a == swap_u64(b) && s1.pos == s2.pos,
            (Outcome::Failed(e1, _), Outcome::Failed(e2, _)) => e1 == e2,
            _ => false,
        },
{
    if let Some(b) = r.peek(2) {
        be_bytes_u16_round_trip(b);
        little_endian_reverses_big_endian(b);
    }
    if let Some(b) = r.peek(4) {
        be_bytes_u32_round_trip(b);
        little_endian_reverses_big_endian(b);
    }
    if let Some(b) = r.peek(8) {
        be_bytes_u64_round_trip(b);
        little_endian_reverses_big_endian(b);
    }
}

} // verus!
