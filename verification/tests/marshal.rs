use frei0r_rs::error::Violation;
use frei0r_rs::kinds::ParamType;
use frei0r_rs::marshal::{
    check_host_text, decode, decode_bool, decode_text, encode, encode_bool, encode_text, kind_matches, ParamValue,
    RawSlot, HALF_BITS, INFINITY_BITS, ONE_BITS, ZERO_BITS,
};

fn kinds() -> Vec<ParamType> {
    vec![ParamType::Bool, ParamType::Double, ParamType::Color, ParamType::Position, ParamType::String]
}

fn round_trip(value: ParamValue) -> Result<ParamValue, Violation> {
    let mut slot = RawSlot::Scalar(12345);
    encode(&value, &mut slot);
    decode(value.kind(), &slot)
}

#[test]
fn the_constants_are_the_bits_of_the_numbers() {
    assert_eq!(HALF_BITS, 0.5f64.to_bits());
    assert_eq!(ONE_BITS, 1.0f64.to_bits());
    assert_eq!(ZERO_BITS, 0.0f64.to_bits());
    assert_eq!(INFINITY_BITS, f64::INFINITY.to_bits());
}

#[test]
fn one_half_decodes_to_true() {
    assert!(decode_bool(0.5f64.to_bits()));
    assert_eq!(decode(ParamType::Bool, &RawSlot::Scalar(0.5f64.to_bits())), Ok(ParamValue::Bool(true)));
}

#[test]
fn just_below_one_half_decodes_to_false() {
    assert!(!decode_bool(0.49999f64.to_bits()));
    assert_eq!(decode(ParamType::Bool, &RawSlot::Scalar(0.49999f64.to_bits())), Ok(ParamValue::Bool(false)));
    let below = f64::from_bits(0.5f64.to_bits() - 1);
    assert!(below < 0.5);
    assert!(!decode_bool(below.to_bits()));
}

#[test]
fn decode_bool_is_the_comparison_with_one_half() {
    let samples = [
        0.0f64,
        -0.0,
        0.25,
        0.49999,
        0.5,
        0.50001,
        0.75,
        1.0,
        2.0,
        -0.5,
        -1.0,
        1e300,
        -1e300,
        f64::MAX,
        f64::MIN,
        f64::MIN_POSITIVE,
        f64::EPSILON,
        5e-324,
        f64::INFINITY,
        f64::NEG_INFINITY,
        f64::NAN,
        -f64::NAN,
        f64::from_bits(0x7FF0_0000_0000_0001),
        f64::from_bits(0x7FFF_FFFF_FFFF_FFFF),
        f64::from_bits(0xFFF0_0000_0000_0001),
        f64::from_bits(u64::MAX),
        f64::from_bits(0x3FE0_0000_0000_0001),
        f64::from_bits(0x3FDF_FFFF_FFFF_FFFF),
    ];
    for value in samples {
        assert_eq!(decode_bool(value.to_bits()), value >= 0.5, "value {value:?}");
    }
}

#[test]
fn a_boolean_is_written_as_one_or_zero() {
    assert_eq!(f64::from_bits(encode_bool(true)), 1.0);
    assert_eq!(f64::from_bits(encode_bool(false)), 0.0);
    let mut slot = RawSlot::String(vec![1, 2, 3]);
    encode(&ParamValue::Bool(true), &mut slot);
    assert_eq!(slot, RawSlot::Scalar(1.0f64.to_bits()));
    encode(&ParamValue::Bool(false), &mut slot);
    assert_eq!(slot, RawSlot::Scalar(0.0f64.to_bits()));
}

#[test]
fn a_double_passes_bit_for_bit() {
    for bits in [0u64, 1, 0.75f64.to_bits(), (-3.5f64).to_bits(), f64::NAN.to_bits(), 0x7FF0_0000_0000_0001, u64::MAX] {
        assert_eq!(decode(ParamType::Double, &RawSlot::Scalar(bits)), Ok(ParamValue::Double(bits)));
        let mut slot = RawSlot::Scalar(99);
        encode(&ParamValue::Double(bits), &mut slot);
        assert_eq!(slot, RawSlot::Scalar(bits));
    }
}

#[test]
fn a_color_is_copied_channel_by_channel_without_clamping() {
    let r = 0.25f32.to_bits();
    let g = (-7.0f32).to_bits();
    let b = 300.0f32.to_bits();
    assert_eq!(decode(ParamType::Color, &RawSlot::Color { r, g, b }), Ok(ParamValue::Color { r, g, b }));
    let mut slot = RawSlot::Scalar(0);
    encode(&ParamValue::Color { r, g, b }, &mut slot);
    assert_eq!(slot, RawSlot::Color { r, g, b });
}

#[test]
fn a_position_is_copied_coordinate_by_coordinate() {
    let x = 0.125f64.to_bits();
    let y = (-2.5f64).to_bits();
    assert_eq!(decode(ParamType::Position, &RawSlot::Position { x, y }), Ok(ParamValue::Position { x, y }));
    let mut slot = RawSlot::Scalar(0);
    encode(&ParamValue::Position { x, y }, &mut slot);
    assert_eq!(slot, RawSlot::Position { x, y });
}

#[test]
fn a_text_ends_at_the_first_zero_byte() {
    assert_eq!(decode_text(&b"hi\0junk\0".to_vec()), Some(b"hi".to_vec()));
    assert_eq!(decode_text(&b"\0".to_vec()), Some(Vec::new()));
    assert_eq!(decode_text(&b"\0\0abc".to_vec()), Some(Vec::new()));
    assert_eq!(
        decode(ParamType::String, &RawSlot::String(b"label\0".to_vec())),
        Ok(ParamValue::String(b"label".to_vec()))
    );
}

#[test]
fn a_text_without_a_zero_byte_is_unterminated() {
    assert_eq!(decode_text(&b"hi".to_vec()), None);
    assert_eq!(decode_text(&Vec::new()), None);
    assert_eq!(decode(ParamType::String, &RawSlot::String(b"hi".to_vec())), Err(Violation::Unterminated));
    assert_eq!(decode(ParamType::String, &RawSlot::String(Vec::new())), Err(Violation::Unterminated));
}

#[test]
fn a_text_is_written_with_a_terminator() {
    assert_eq!(encode_text(&b"hi".to_vec()), b"hi\0".to_vec());
    assert_eq!(encode_text(&Vec::new()), vec![0u8]);
    let mut slot = RawSlot::Scalar(0);
    encode(&ParamValue::String(b"label".to_vec()), &mut slot);
    assert_eq!(slot, RawSlot::String(b"label\0".to_vec()));
}

#[test]
fn a_slot_of_another_layout_is_refused() {
    let slots = [
        RawSlot::Scalar(1.0f64.to_bits()),
        RawSlot::Color { r: 0, g: 0, b: 0 },
        RawSlot::Position { x: 0, y: 0 },
        RawSlot::String(b"x\0".to_vec()),
    ];
    for kind in kinds() {
        for (place, slot) in slots.iter().enumerate() {
            let fits = match kind {
                ParamType::Bool | ParamType::Double => place == 0,
                ParamType::Color => place == 1,
                ParamType::Position => place == 2,
                ParamType::String => place == 3,
            };
            let decoded = decode(kind, slot);
            if fits {
                assert_eq!(decoded.map(|value| value.kind()), Ok(kind));
            } else {
                assert_eq!(decoded, Err(Violation::SlotLayout));
            }
        }
    }
}

#[test]
fn every_kind_round_trips() {
    let values = vec![
        ParamValue::Bool(true),
        ParamValue::Bool(false),
        ParamValue::Double(0.75f64.to_bits()),
        ParamValue::Double(f64::NAN.to_bits()),
        ParamValue::Double((-0.0f64).to_bits()),
        ParamValue::Color { r: 0.1f32.to_bits(), g: 0.2f32.to_bits(), b: f32::NAN.to_bits() },
        ParamValue::Position { x: 0.3f64.to_bits(), y: f64::INFINITY.to_bits() },
        ParamValue::String(Vec::new()),
        ParamValue::String(b"some text".to_vec()),
        ParamValue::String(vec![255, 1, 128]),
    ];
    for value in values {
        assert_eq!(round_trip(value.clone()), Ok(value));
    }
}

#[test]
fn a_text_with_a_zero_byte_reads_back_as_its_head() {
    assert_eq!(round_trip(ParamValue::String(b"ab\0cd".to_vec())), Ok(ParamValue::String(b"ab".to_vec())));
}

#[test]
fn kinds_match_only_themselves() {
    for declared in kinds() {
        for actual in kinds() {
            assert_eq!(kind_matches(declared, actual), declared == actual);
        }
    }
}

#[test]
fn the_kind_of_a_value_is_its_variant() {
    assert_eq!(ParamValue::Bool(true).kind(), ParamType::Bool);
    assert_eq!(ParamValue::Double(0).kind(), ParamType::Double);
    assert_eq!(ParamValue::Color { r: 0, g: 0, b: 0 }.kind(), ParamType::Color);
    assert_eq!(ParamValue::Position { x: 0, y: 0 }.kind(), ParamType::Position);
    assert_eq!(ParamValue::String(Vec::new()).kind(), ParamType::String);
}

#[test]
fn a_text_for_the_host_ends_with_its_only_zero_byte() {
    assert!(check_host_text(b"\0"));
    assert!(check_host_text(b"name\0"));
    assert!(check_host_text(&encode_text(&b"written".to_vec())));
    assert!(!check_host_text(b""));
    assert!(!check_host_text(b"name"));
    assert!(!check_host_text(b"na\0me\0"));
    assert!(!check_host_text(b"\0name"));
    assert!(!check_host_text(b"\0\0"));
    for bytes in [&b"name\0"[..], &b"\0"[..]] {
        assert_eq!(decode_text(&bytes.to_vec()), Some(bytes[..bytes.len() - 1].to_vec()));
    }
}

#[test]
fn what_is_read_back_decodes_to_what_was_written() {
    let slots = [
        (ParamType::Bool, RawSlot::Scalar(0.7f64.to_bits())),
        (ParamType::Bool, RawSlot::Scalar(f64::NAN.to_bits())),
        (ParamType::Double, RawSlot::Scalar(0.7f64.to_bits())),
        (ParamType::Color, RawSlot::Color { r: 1, g: 2, b: 3 }),
        (ParamType::Position, RawSlot::Position { x: 4, y: 5 }),
        (ParamType::String, RawSlot::String(b"text\0and more".to_vec())),
    ];
    for (kind, slot) in slots {
        let value = decode(kind, &slot).unwrap();
        let mut back = RawSlot::Scalar(0);
        encode(&value, &mut back);
        assert_eq!(decode(kind, &back), Ok(value));
    }
}
