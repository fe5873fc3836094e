use coral_drivers::regmap_cache::format::{
    format_word, pack_combined, pack_separate, parse_word, Endian, FormatError, PackedFormat,
    Width,
};

fn width_bits(w: Width) -> u32 {
    match w {
        Width::Bits8 => 8,
        Width::Bits16 => 16,
        Width::Bits24 => 24,
        Width::Bits32 => 32,
    }
}

#[test]
fn a_formatted_word_parses_back_in_big_and_little_order() {
    let cases = [
        (Width::Bits8, Endian::Big),
        (Width::Bits8, Endian::Little),
        (Width::Bits16, Endian::Big),
        (Width::Bits16, Endian::Little),
        (Width::Bits24, Endian::Big),
        (Width::Bits32, Endian::Big),
        (Width::Bits32, Endian::Little),
    ];
    for (w, e) in cases {
        let bits = width_bits(w);
        let max = if bits == 32 { u32::MAX } else { (1u32 << bits) - 1 };
        for v in [0, 1, 0x5a & max, 0x1234_5678 & max, max] {
            let mut out = [0u8; 4];
            let n = format_word(w, e, v, 0, &mut out).unwrap();
            assert_eq!(n as u32, bits / 8);
            assert_eq!(parse_word(w, e, &out[..n]), Ok(v), "{w:?} {e:?} {v:#x}");
        }
    }
}

#[test]
fn native_order_is_the_machines_own() {
    let mut out = [0u8; 4];
    format_word(Width::Bits16, Endian::Native, 0x1234, 0, &mut out).unwrap();
    assert_eq!(&out[..2], &0x1234u16.to_ne_bytes());
    assert!(out[..2] == [0x12, 0x34] || out[..2] == [0x34, 0x12]);
    format_word(Width::Bits32, Endian::Native, 0x1234_5678, 0, &mut out).unwrap();
    assert_eq!(out, 0x1234_5678u32.to_ne_bytes());
    assert_eq!(parse_word(Width::Bits16, Endian::Native, &[0x12, 0x34]), Ok(u16::from_ne_bytes([0x12, 0x34]) as u32));
    assert_eq!(
        parse_word(Width::Bits32, Endian::Native, &[0x12, 0x34, 0x56, 0x78]),
        Ok(u32::from_ne_bytes([0x12, 0x34, 0x56, 0x78]))
    );
    let got = parse_word(Width::Bits32, Endian::Native, &[0x12, 0x34, 0x56, 0x78]).unwrap();
    assert!(got == 0x1234_5678 || got == 0x7856_3412);
}

#[test]
fn formatting_touches_only_the_words_bytes() {
    let mut out = [0xee; 6];
    assert_eq!(format_word(Width::Bits16, Endian::Little, 0xabcd, 0, &mut out), Ok(2));
    assert_eq!(out, [0xcd, 0xab, 0xee, 0xee, 0xee, 0xee]);
    let mut out = [0xee; 6];
    assert_eq!(pack_combined(PackedFormat::Reg7Val9, 0x35, 0x1aa, &mut out), Ok(2));
    assert_eq!(out, [0x6b, 0xaa, 0xee, 0xee, 0xee, 0xee]);
}

#[test]
fn a_refused_format_leaves_the_buffer_alone() {
    let mut out = [0xee; 4];
    assert_eq!(
        format_word(Width::Bits16, Endian::Big, 0x8000, 1, &mut out),
        Err(FormatError::ValueOutOfRange { field: "value", value: 0x8000, bits: 15 })
    );
    assert_eq!(
        format_word(Width::Bits16, Endian::Default, 0, 0, &mut out),
        Err(FormatError::UnsupportedEndian { bits: 16, endian: Endian::Default })
    );
    let mut short = [0xee; 2];
    assert_eq!(
        format_word(Width::Bits24, Endian::Big, 1, 0, &mut short),
        Err(FormatError::BufferTooSmall { supplied: 2, required: 3 })
    );
    assert_eq!(short, [0xee, 0xee]);
    assert_eq!(
        pack_combined(PackedFormat::Reg12Val20, 0x1000, 0, &mut out),
        Err(FormatError::ValueOutOfRange { field: "register", value: 0x1000, bits: 12 })
    );
    assert_eq!(out, [0xee; 4]);
}

#[test]
fn a_shift_moves_the_word_before_its_bytes_are_laid_out() {
    let mut out = [0u8; 4];
    format_word(Width::Bits16, Endian::Little, 0x1234, 3, &mut out).unwrap();
    assert_eq!(&out[..2], &[0xa0, 0x91]);
    format_word(Width::Bits32, Endian::Big, 0x7fff_ffff, 1, &mut out).unwrap();
    assert_eq!(out, [0xff, 0xff, 0xff, 0xfe]);
}

#[test]
fn a_register_refusal_after_zeroing_leaves_the_zeroed_buffer() {
    let mut out = [0xff; 6];
    assert_eq!(
        pack_separate(15, 16, 9, Endian::Default, Endian::Little, 0x1234, 0xabcd, &mut out),
        Err(FormatError::UnsupportedEndian { bits: 16, endian: Endian::Default })
    );
    assert_eq!(out, [0, 0, 0, 0, 0, 0xff]);
    let mut out = [0xff; 5];
    assert_eq!(
        pack_separate(8, 16, 0, Endian::Big, Endian::Big, 0x12, 0x1_0000, &mut out),
        Err(FormatError::ValueOutOfRange { field: "value", value: 0x1_0000, bits: 16 })
    );
    assert_eq!(out, [0x12, 0, 0, 0xff, 0xff]);
    let mut short = [0xff; 2];
    assert_eq!(
        pack_separate(8, 16, 0, Endian::Big, Endian::Big, 0, 0, &mut short),
        Err(FormatError::BufferTooSmall { supplied: 2, required: 3 })
    );
    assert_eq!(short, [0xff, 0xff]);
    assert_eq!(
        pack_separate(8, 12, 0, Endian::Big, Endian::Big, 0, 0, &mut out),
        Err(FormatError::UnsupportedWidth { bits: 12 })
    );
}

#[test]
fn parsing_refuses_an_unsupported_order_and_a_short_input() {
    assert_eq!(
        parse_word(Width::Bits24, Endian::Native, &[1, 2, 3]),
        Err(FormatError::UnsupportedEndian { bits: 24, endian: Endian::Native })
    );
    assert_eq!(
        parse_word(Width::Bits16, Endian::Little, &[1]),
        Err(FormatError::BufferTooSmall { supplied: 1, required: 2 })
    );
    assert_eq!(parse_word(Width::Bits8, Endian::Default, &[0x7f]), Ok(0x7f));
}
