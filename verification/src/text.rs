//! The printed form of the values of this crate, as a list of parts: fixed
//! text, integers, text, and the floating-point quantities that the caller
//! formats (this crate holds them as integers).

use vstd::prelude::*;

use crate::binary::{be_u16, be_u32};
use crate::raf::{u16_at, u32_at, MetadataValue, RafMetadataType};
use crate::tags::{tag_code, tag_name, RafMetadataTag};

verus! {

/// One part of a printed value.
#[derive(Debug)]
pub enum TextPart {
    /// Fixed text.
    Literal(&'static str),
    /// An integer in decimal.
    Decimal(u64),
    /// An integer in upper-case hexadecimal.
    UpperHex(u64),
    /// An integer in upper-case hexadecimal with at least four digits.
    UpperHex4(u16),
    /// Text.
    Text(String),
    /// Bytes printed as the UTF-8 text that they must be.
    Utf8(Vec<u8>),
    /// Bytes printed as UTF-8 text, with a replacement character for each
    /// invalid sequence.
    Lossy(Vec<u8>),
    /// The `f32` with this bit pattern, in its shortest decimal form.
    Float32(u32),
    /// The `f32` with this bit pattern, with eight decimals.
    Float32Fixed8(u32),
    /// The `f32` quotient of the two numbers, signed, with two decimals.
    SignedQuotient((i16, u16)),
    /// The `f64` quotient of the two numbers, with two decimals.
    Quotient((u32, u32)),
}

/// What a `TextPart` holds, with text and bytes as sequences.
pub enum Part {
    Literal(Seq<char>),
    Decimal(u64),
    UpperHex(u64),
    UpperHex4(u16),
    Text(Seq<char>),
    Utf8(Seq<u8>),
    Lossy(Seq<u8>),
    Float32(u32),
    Float32Fixed8(u32),
    SignedQuotient((i16, u16)),
    Quotient((u32, u32)),
}

impl View for TextPart {
    type V = Part;

    open spec fn view(&self) -> Part {
        match self {
            TextPart::Literal(s) => Part::Literal(s@),
            TextPart::Decimal(n) => Part::Decimal(*n),
            TextPart::UpperHex(n) => Part::UpperHex(*n),
            TextPart::UpperHex4(n) => Part::UpperHex4(*n),
            TextPart::Text(s) => Part::Text(s@),
            TextPart::Utf8(b) => Part::Utf8(b@),
            TextPart::Lossy(b) => Part::Lossy(b@),
            TextPart::Float32(b) => Part::Float32(*b),
            TextPart::Float32Fixed8(b) => Part::Float32Fixed8(*b),
            TextPart::SignedQuotient(q) => Part::SignedQuotient(*q),
            TextPart::Quotient(q) => Part::Quotient(*q),
        }
    }
}

/// The models of a list of parts.
pub open spec fn parts_view(parts: Seq<TextPart>) -> Seq<Part> {
    parts.map_values(|p: TextPart| p@)
}

/// Appends one part.
pub fn push_part(parts: &mut Vec<TextPart>, part: TextPart)
    ensures
        parts_view(final(parts)@) == parts_view(old(parts)@).push(part@),
{
    let ghost before = parts@;
    parts.push(part);
    assert(parts_view(parts@) =~= parts_view(before).push(part@));
}

/// Appends fixed text.
pub fn push_literal(parts: &mut Vec<TextPart>, text: &'static str)
    ensures
        parts_view(final(parts)@) == parts_view(old(parts)@).push(Part::Literal(text@)),
{
    push_part(parts, TextPart::Literal(text));
}

/// The entries of a list of numbers, separated by ", ".
pub open spec fn list_entries(values: Seq<u64>) -> Seq<Part>
    decreases values.len(),
{
    if values.len() == 0 {
        Seq::empty()
    } else {
        let init = values.drop_last();
        list_entries(init) + (if init.len() == 0 {
            Seq::empty()
        } else {
            seq![Part::Literal(", "@)]
        }) + seq![Part::Decimal(values.last())]
    }
}

/// A list of numbers in brackets, as `[1, 2, 3]`.
pub open spec fn number_list(values: Seq<u64>) -> Seq<Part> {
    seq![Part::Literal("["@)] + list_entries(values) + seq![Part::Literal("]"@)]
}

/// The bytes as numbers.
pub open spec fn byte_values(bytes: Seq<u8>) -> Seq<u64> {
    bytes.map_values(|b: u8| b as u64)
}

/// Appends the first `n` bytes of `bytes` as a list of numbers.
fn push_byte_list(parts: &mut Vec<TextPart>, bytes: &Vec<u8>, n: usize)
    requires
        n <= bytes@.len(),
    ensures
        parts_view(final(parts)@) == parts_view(old(parts)@) + number_list(
            byte_values(bytes@.take(n as int)),
        ),
{
    let ghost start = parts_view(parts@);
    push_literal(parts, "[");
    let mut i: usize = 0;
    while i < n
        invariant
            i <= n <= bytes@.len(),
            parts_view(parts@) == start + seq![Part::Literal("["@)] + list_entries(
                byte_values(bytes@.take(i as int)),
            ),
        decreases n - i,
    {
        let ghost before = parts_view(parts@);
        if i > 0 {
            push_literal(parts, ", ");
        }
        push_part(parts, TextPart::Decimal(bytes[i] as u64));
        proof {
            let values = byte_values(bytes@.take(i + 1));
            assert(values.drop_last() =~= byte_values(bytes@.take(i as int)));
            assert(values.last() == bytes@[i as int] as u64);
            assert(parts_view(parts@) =~= start + seq![Part::Literal("["@)] + list_entries(values));
        }
        i = i + 1;
    }
    push_literal(parts, "]");
    assert(parts_view(parts@) =~= start + number_list(byte_values(bytes@.take(n as int))));
}

/// Appends two numbers as a list.
fn push_pair(parts: &mut Vec<TextPart>, a: u64, b: u64)
    ensures
        parts_view(final(parts)@) == parts_view(old(parts)@) + number_list(seq![a, b]),
{
    let ghost start = parts_view(parts@);
    push_literal(parts, "[");
    push_part(parts, TextPart::Decimal(a));
    push_literal(parts, ", ");
    push_part(parts, TextPart::Decimal(b));
    push_literal(parts, "]");
    assert(seq![a, b].drop_last() =~= seq![a]);
    assert(seq![a].drop_last() =~= Seq::<u64>::empty());
    assert(list_entries(Seq::<u64>::empty()) =~= Seq::<Part>::empty());
    assert(list_entries(seq![a]) =~= seq![Part::Decimal(a)]);
    assert(list_entries(seq![a, b]) =~= seq![
        Part::Decimal(a),
        Part::Literal(", "@),
        Part::Decimal(b),
    ]);
    assert(parts_view(parts@) =~= start + number_list(seq![a, b]));
}

/// The printed form of a metadata value. A payload of unknown meaning is
/// printed as its bytes, followed, for two, four and eight bytes, by the
/// numbers they make; a payload of 64 or more bytes is cut to its first 64.
/// A shutter duration longer than a second is printed as a quotient, a
/// shorter one as a fraction.
pub open spec fn value_text(v: MetadataValue) -> Seq<Part> {
    match v {
        MetadataValue::Unknown(b) => if b.len() == 2 {
            number_list(byte_values(b)) + seq![
                Part::Literal(" u16: "@),
                Part::Decimal(be_u16(b) as u64),
            ]
        } else if b.len() == 4 {
            number_list(byte_values(b)) + seq![
                Part::Literal(" u32: "@),
                Part::Decimal(be_u32(b) as u64),
                Part::Literal(" [u16; 2]: "@),
            ] + number_list(
                seq![be_u16(b.subrange(0, 2)) as u64, be_u16(b.subrange(2, 4)) as u64],
            ) + seq![Part::Literal(" f32: "@), Part::Float32Fixed8(be_u32(b))]
        } else if b.len() == 8 {
            number_list(byte_values(b)) + seq![Part::Literal(" [u32; 2]: "@)] + number_list(
                seq![be_u32(b.subrange(0, 4)) as u64, be_u32(b.subrange(4, 8)) as u64],
            )
        } else if b.len() < 64 {
            number_list(byte_values(b))
        } else {
            number_list(byte_values(b.take(64))) + seq![Part::Literal(" trimmed for size..."@)]
        },
        MetadataValue::Dimensions((x, y)) => seq![
            Part::Decimal(x as u64),
            Part::Literal(" x "@),
            Part::Decimal(y as u64),
        ],
        MetadataValue::Position((x, y)) => seq![
            Part::Decimal(x as u64),
            Part::Literal(" "@),
            Part::Decimal(y as u64),
        ],
        MetadataValue::Kelvin(k) => seq![Part::Decimal(k as u64), Part::Literal("K"@)],
        MetadataValue::ExposureValue(bits) => seq![Part::Float32(bits), Part::Literal(" EV"@)],
        MetadataValue::Number(n) => seq![Part::Decimal(n as u64)],
        MetadataValue::AspectRatio((a, b)) => seq![
            Part::Decimal(a as u64),
            Part::Literal(":"@),
            Part::Decimal(b as u64),
        ],
        MetadataValue::ASCIIText(b) => seq![Part::Lossy(b)],
        MetadataValue::ExposureBias(q) => seq![Part::SignedQuotient(q), Part::Literal("EV"@)],
        MetadataValue::ShutterDuration((n, d)) => if n > d {
            seq![Part::Quotient((n, d)), Part::Literal("s"@)]
        } else {
            seq![
                Part::Decimal(n as u64),
                Part::Literal("/"@),
                Part::Decimal(d as u64),
                Part::Literal("s"@),
            ]
        },
        MetadataValue::ApertureRatio(q) => seq![Part::Literal("f/"@), Part::Quotient(q)],
    }
}

/// The printed form of a tag: its name, or its code in hexadecimal.
pub open spec fn tag_text(tag: RafMetadataTag) -> Seq<Part> {
    match tag_name(tag) {
        Some(name) => seq![Part::Literal(name)],
        None => seq![
            Part::Literal("Unknown(0x"@),
            Part::UpperHex4(tag_code(tag)),
            Part::Literal(")"@),
        ],
    }
}

/// Appends the printed form of a tag.
pub fn push_tag(parts: &mut Vec<TextPart>, tag: RafMetadataTag)
    ensures
        parts_view(final(parts)@) == parts_view(old(parts)@) + tag_text(tag),
{
    let ghost start = parts_view(parts@);
    match tag.name() {
        Some(name) => push_literal(parts, name),
        None => {
            push_literal(parts, "Unknown(0x");
            push_part(parts, TextPart::UpperHex4(tag.code()));
            push_literal(parts, ")");
        },
    }
    assert(parts_view(parts@) =~= start + tag_text(tag));
}


/// Appends the printed form of a metadata value.
pub fn push_value(parts: &mut Vec<TextPart>, value: &RafMetadataType)
    ensures
        parts_view(final(parts)@) == parts_view(old(parts)@) + value_text(value@),
{
    let ghost start = parts_view(parts@);
    match value {
        RafMetadataType::Unknown(b) => {
            let n = b.len();
            assert(b@.take(n as int) =~= b@);
            if n == 2 {
                push_byte_list(parts, b, n);
                push_literal(parts, " u16: ");
                assert(b@.subrange(0, 2) =~= b@);
                push_part(parts, TextPart::Decimal(u16_at(b, 0) as u64));
            } else if n == 4 {
                push_byte_list(parts, b, n);
                push_literal(parts, " u32: ");
                assert(b@.subrange(0, 4) =~= b@);
                push_part(parts, TextPart::Decimal(u32_at(b, 0) as u64));
                push_literal(parts, " [u16; 2]: ");
                push_pair(parts, u16_at(b, 0) as u64, u16_at(b, 2) as u64);
                push_literal(parts, " f32: ");
                push_part(parts, TextPart::Float32Fixed8(u32_at(b, 0)));
            } else if n == 8 {
                push_byte_list(parts, b, n);
                push_literal(parts, " [u32; 2]: ");
                push_pair(parts, u32_at(b, 0) as u64, u32_at(b, 4) as u64);
            } else if n < 64 {
                push_byte_list(parts, b, n);
            } else {
                push_byte_list(parts, b, 64);
                push_literal(parts, " trimmed for size...");
            }
        },
        RafMetadataType::Dimensions((x, y)) => {
            push_part(parts, TextPart::Decimal(*x as u64));
            push_literal(parts, " x ");
            push_part(parts, TextPart::Decimal(*y as u64));
        },
        RafMetadataType::Position((x, y)) => {
            push_part(parts, TextPart::Decimal(*x as u64));
            push_literal(parts, " ");
            push_part(parts, TextPart::Decimal(*y as u64));
        },
        RafMetadataType::Kelvin(k) => {
            push_part(parts, TextPart::Decimal(*k as u64));
            push_literal(parts, "K");
        },
        RafMetadataType::ExposureValue(bits) => {
            push_part(parts, TextPart::Float32(*bits));
            push_literal(parts, " EV");
        },
        RafMetadataType::Number(n) => {
            push_part(parts, TextPart::Decimal(*n as u64));
        },
        RafMetadataType::AspectRatio((a, b)) => {
            push_part(parts, TextPart::Decimal(*a as u64));
            push_literal(parts, ":");
            push_part(parts, TextPart::Decimal(*b as u64));
        },
        RafMetadataType::ASCIIText(b) => {
            push_part(parts, TextPart::Lossy(b.clone()));
        },
        RafMetadataType::ExposureBias(q) => {
            push_part(parts, TextPart::SignedQuotient(*q));
            push_literal(parts, "EV");
        },
        RafMetadataType::ShutterDuration((n, d)) => {
            if *n > *d {
                push_part(parts, TextPart::Quotient((*n, *d)));
                push_literal(parts, "s");
            } else {
                push_part(parts, TextPart::Decimal(*n as u64));
                push_literal(parts, "/");
                push_part(parts, TextPart::Decimal(*d as u64));
                push_literal(parts, "s");
            }
        },
        RafMetadataType::ApertureRatio(q) => {
            push_literal(parts, "f/");
            push_part(parts, TextPart::Quotient(*q));
        },
    }
    assert(parts_view(parts@) =~= start + value_text(value@));
}

} // verus!
