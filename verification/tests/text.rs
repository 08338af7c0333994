use rafinfo::binary::{BufBinaryReader, Endian, FromBinary};
use rafinfo::raf::{Raf, RafMetadataContainer, RafMetadataItem, RafMetadataType};
use rafinfo::tags::RafMetadataTag;
use rafinfo::text::{push_tag, push_value, TextPart};

fn render(parts: &[TextPart]) -> String {
    let mut out = String::new();
    for part in parts {
        match part {
            TextPart::Literal(text) => out.push_str(text),
            TextPart::Decimal(n) => out.push_str(&format!("{}", n)),
            TextPart::UpperHex(n) => out.push_str(&format!("{:X}", n)),
            TextPart::UpperHex4(n) => out.push_str(&format!("{:04X}", n)),
            TextPart::Text(text) => out.push_str(text),
            TextPart::Utf8(bytes) => out.push_str(std::str::from_utf8(bytes).unwrap()),
            TextPart::Lossy(bytes) => out.push_str(&String::from_utf8_lossy(bytes)),
            TextPart::Float32(bits) => out.push_str(&format!("{}", f32::from_bits(*bits))),
            TextPart::Float32Fixed8(bits) => out.push_str(&format!("{:.8}", f32::from_bits(*bits))),
            TextPart::SignedQuotient((a, b)) => out.push_str(&format!("{:+.02}", *a as f32 / *b as f32)),
            TextPart::Quotient((n, d)) => out.push_str(&format!("{:.02}", *n as f64 / *d as f64)),
        }
    }
    out
}

fn value_text(value: &RafMetadataType) -> String {
    let mut parts = Vec::new();
    push_value(&mut parts, value);
    render(&parts)
}

fn tag_text(tag: RafMetadataTag) -> String {
    let mut parts = Vec::new();
    push_tag(&mut parts, tag);
    render(&parts)
}

#[test]
fn tags_print_their_names_or_codes() {
    assert_eq!(tag_text(RafMetadataTag::ImageSequenceApetureRatio), "ImageSequenceApetureRatio");
    assert_eq!(tag_text(RafMetadataTag::from(0x2ff0u16)), "CameraMultiplier");
    assert_eq!(tag_text(RafMetadataTag::Unknown(0xab)), "Unknown(0x00AB)");
}

#[test]
fn values_print_in_their_layouts() {
    assert_eq!(value_text(&RafMetadataType::Dimensions((4000, 6000))), "4000 x 6000");
    assert_eq!(value_text(&RafMetadataType::Position((4, 8))), "4 8");
    assert_eq!(value_text(&RafMetadataType::Kelvin(5200)), "5200K");
    assert_eq!(value_text(&RafMetadataType::ExposureValue(0.5f32.to_bits())), "0.5 EV");
    assert_eq!(value_text(&RafMetadataType::Number(7)), "7");
    assert_eq!(value_text(&RafMetadataType::AspectRatio((3, 2))), "3:2");
    assert_eq!(value_text(&RafMetadataType::ASCIIText(b"X-T\xff".to_vec())), "X-T\u{fffd}");
    assert_eq!(value_text(&RafMetadataType::ExposureBias((-2, 3))), "-0.67EV");
    assert_eq!(value_text(&RafMetadataType::ExposureBias((1, 1))), "+1.00EV");
    assert_eq!(value_text(&RafMetadataType::ApertureRatio((28, 10))), "f/2.80");
}

#[test]
fn shutter_durations_print_as_fraction_up_to_one_second() {
    assert_eq!(value_text(&RafMetadataType::ShutterDuration((1, 250))), "1/250s");
    assert_eq!(value_text(&RafMetadataType::ShutterDuration((2, 2))), "2/2s");
    assert_eq!(value_text(&RafMetadataType::ShutterDuration((5, 2))), "2.50s");
}

#[test]
fn unknown_payloads_print_their_bytes_and_numbers() {
    assert_eq!(value_text(&RafMetadataType::Unknown(vec![1, 2])), "[1, 2] u16: 258");
    assert_eq!(
        value_text(&RafMetadataType::Unknown(vec![0x3F, 0x80, 0, 0])),
        "[63, 128, 0, 0] u32: 1065353216 [u16; 2]: [16256, 0] f32: 1.00000000"
    );
    assert_eq!(
        value_text(&RafMetadataType::Unknown(vec![0, 0, 0, 1, 0, 0, 0, 2])),
        "[0, 0, 0, 1, 0, 0, 0, 2] [u32; 2]: [1, 2]"
    );
    assert_eq!(value_text(&RafMetadataType::Unknown(vec![])), "[]");
    assert_eq!(value_text(&RafMetadataType::Unknown(vec![9, 8, 7])), "[9, 8, 7]");
    let long = vec![1u8; 70];
    let mut expected = format!("{:?}", &long[0..64]);
    expected.push_str(" trimmed for size...");
    assert_eq!(value_text(&RafMetadataType::Unknown(long)), expected);
}

#[test]
fn records_and_blocks_print_one_line_per_record() {
    let mut bytes = 2u32.to_be_bytes().to_vec();
    bytes.extend_from_slice(&[0x01, 0x00, 0x00, 0x04, 0x0F, 0xA0, 0x17, 0x70]);
    bytes.extend_from_slice(&[0x77, 0x77, 0x00, 0x02, 0x00, 0x05]);
    let block = RafMetadataContainer::read_from(&mut BufBinaryReader::new(bytes, Endian::Big)).unwrap();
    let mut parts = Vec::new();
    block.push_text(&mut parts);
    assert_eq!(
        render(&parts),
        "\tSensorDimensions: 4000 x 6000\n\tUnknown(0x7777): [0, 5] u16: 5\n"
    );
    let mut one = Vec::new();
    let item: &RafMetadataItem = &block.metadata()[0];
    item.push_text(&mut one);
    assert_eq!(render(&one), "\tSensorDimensions: 4000 x 6000\n");
}

#[test]
fn a_raf_prints_camera_version_sequence_and_metadata() {
    let mut v = b"FUJIFILMCCD-RAW ".to_vec();
    v.extend_from_slice(&[0u8; 12]);
    let mut name = [0u8; 32];
    name[..4].copy_from_slice(b"X-T5");
    v.extend_from_slice(&name);
    v.extend_from_slice(b"0100");
    v.extend_from_slice(&[0u8; 20]);
    v.extend_from_slice(&[0u8; 24]);
    v.extend_from_slice(&[0u8; 40]);
    v.extend_from_slice(b"FUJIFILMM-RAW   1.00");
    v.extend_from_slice(&1u32.to_be_bytes());
    v.extend_from_slice(&1u32.to_be_bytes());
    v.extend_from_slice(b"0100\0\0\0\0\0\0\0\0");
    v.extend_from_slice(&8u16.to_be_bytes());
    v.extend_from_slice(&1u16.to_be_bytes());
    v.extend_from_slice(&4096u64.to_be_bytes());
    v.extend_from_slice(&512u64.to_be_bytes());
    v.extend_from_slice(&[0x20, 0x07, 0x00, 0x04, 0x00, 0x00, 0x19, 0x00]);
    let meta = v.len() as u32;
    v.extend_from_slice(&1u32.to_be_bytes());
    v.extend_from_slice(&[0x10, 0x02, 0x00, 0x04, 0x00, 0x00, 0x15, 0x7C]);
    let jpeg = v.len() as u32;
    v.extend_from_slice(&[0xFF, 0xD8, 0xFF, 0xE1, 0x00, 0x08]);
    v.extend_from_slice(b"Exif\0\0MM\0\0");
    v[84..88].copy_from_slice(&jpeg.to_be_bytes());
    v[92..96].copy_from_slice(&meta.to_be_bytes());
    let raf = BufBinaryReader::new(v, Endian::Big).read::<Raf>().unwrap();
    let expected = format!(
        "Camera: X-T5{}\nVersion: \"0100\" 808529968 0x30313030\n\
         Image Sequence Metadata:\n\
         \tTotal Images in Sequence: 1\n\tTag count: 1\n\tVersion: 0100{}\n\
         Image 1:\n\tCFA Offset: 4096\n\tCFA Size: 512\n\tImageSequenceISO: 6400\n\
         Metadata: \n\tWhiteBalancePreset: 5500K\n",
        "\0".repeat(28),
        "\0".repeat(8)
    );
    assert_eq!(render(&raf.text_parts()), expected);
}
