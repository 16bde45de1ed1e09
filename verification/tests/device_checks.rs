use rtl8152_led_ctrl::device::{
    byte_byte_mask, byte_lane, chunk_lens, chunk_payload, check_bound, dword_align, extract_byte,
    extract_word, le_bytes_of, splice_chunk, u32_from_le, word_byte_mask, word_lane, Align,
    RegType, Version, CTRL_READ_LIMIT, CTRL_WRITE_LIMIT,
};
use rtl8152_led_ctrl::errors::CtrlError;
use rtl8152_led_ctrl::products::is_supported_product;

#[test]
fn reg_type_selectors() {
    assert_eq!(RegType::Usb.to_raw(), 0x0000);
    assert_eq!(RegType::Pla.to_raw(), 0x0100);
}

#[test]
fn alignment_predicates() {
    assert!(Align::Word.is_aligned(0));
    assert!(Align::Word.is_aligned(2));
    assert!(!Align::Word.is_aligned(3));
    assert!(Align::Dword.is_aligned(8));
    assert!(!Align::Dword.is_aligned(2));
    assert!(!Align::Dword.is_aligned(0xdd91));
}

#[test]
fn dword_align_clears_low_bits() {
    assert_eq!(dword_align(0xdd93), 0xdd90);
    assert_eq!(dword_align(0xdd90), 0xdd90);
    assert_eq!(dword_align(0), 0);
    assert_eq!(dword_align(0xffff), 0xfffc);
}

#[test]
fn bound_check_rejects_misalignment_before_bounds() {
    assert!(check_bound(0, 8).is_ok());
    assert!(check_bound(0xdd90, 4).is_ok());
    assert!(matches!(check_bound(2, 4), Err(CtrlError::Align)));
    assert!(matches!(check_bound(4, 6), Err(CtrlError::Align)));
    assert!(matches!(check_bound(0xfffe, 3), Err(CtrlError::Align)));
    assert!(matches!(check_bound(0xfffc, 4), Err(CtrlError::Bound)));
    assert!(matches!(check_bound(0, 65536), Err(CtrlError::Bound)));
    assert!(check_bound(0xfff8, 4).is_ok());
    assert!(check_bound(0, 0).is_ok());
}

#[test]
fn chunk_schedule_read_limit() {
    assert_eq!(chunk_lens(130, CTRL_READ_LIMIT), vec![64, 64, 2]);
    assert_eq!(chunk_lens(64, CTRL_READ_LIMIT), vec![64]);
    assert_eq!(chunk_lens(63, CTRL_READ_LIMIT), vec![63]);
    assert_eq!(chunk_lens(0, CTRL_READ_LIMIT), Vec::<usize>::new());
    assert_eq!(chunk_lens(129, CTRL_READ_LIMIT), vec![64, 64, 1]);
}

#[test]
fn chunk_schedule_write_limit() {
    assert_eq!(chunk_lens(1024, CTRL_WRITE_LIMIT), vec![512, 512]);
    assert_eq!(chunk_lens(700, CTRL_WRITE_LIMIT), vec![512, 188]);
    assert_eq!(chunk_lens(512, CTRL_WRITE_LIMIT), vec![512]);
    assert_eq!(chunk_lens(4, CTRL_WRITE_LIMIT), vec![4]);
}

#[test]
fn chunk_boundaries_fall_on_limit_multiples() {
    let lens = chunk_lens(1000, 64);
    let mut total = 0usize;
    for (i, len) in lens.iter().enumerate() {
        assert!(*len > 0 && *len <= 64);
        if i + 1 < lens.len() {
            assert_eq!(*len, 64);
        }
        assert_eq!(total % 64, 0);
        total += len;
    }
    assert_eq!(total, 1000);
}

#[test]
fn lane_extraction_undoes_placement() {
    assert_eq!(extract_word(0xaabb_ccdd, 0), 0xccdd);
    assert_eq!(extract_word(0xaabb_ccdd, 2), 0xaabb);
    // Only the two low bits of the offset pick the lane position.
    assert_eq!(extract_word(0xaabb_ccdd, 0xdd92), 0xaabb);
    assert_eq!(word_lane(0x1234, 0), 0x0000_1234);
    assert_eq!(word_lane(0x1234, 2), 0x1234_0000);
    assert_eq!(extract_byte(0xaabb_ccdd, 1), 0xcc);
    assert_eq!(extract_byte(0xaabb_ccdd, 3), 0xaa);
    assert_eq!(byte_lane(0x7f, 3), 0x7f00_0000);
    assert_eq!(byte_lane(0x7f, 0), 0x0000_007f);
    for off in [0u16, 2, 0x1234, 0xdd90] {
        assert_eq!(extract_word(word_lane(0xbeef, off), off), 0xbeef);
    }
    for off in 0u16..8 {
        assert_eq!(extract_byte(byte_lane(0x5a, off), off), 0x5a);
    }
}

#[test]
fn byte_enable_masks_shift_into_position() {
    assert_eq!(word_byte_mask(0xdd90), 0x33);
    assert_eq!(word_byte_mask(0xdd92), 0xcc);
    assert_eq!(byte_byte_mask(0), 0x11);
    assert_eq!(byte_byte_mask(1), 0x22);
    assert_eq!(byte_byte_mask(2), 0x44);
    assert_eq!(byte_byte_mask(3), 0x88);
}

#[test]
fn little_endian_lane_codec() {
    assert_eq!(le_bytes_of(0x0102_0304), vec![0x04, 0x03, 0x02, 0x01]);
    assert_eq!(u32_from_le(&vec![0x04, 0x03, 0x02, 0x01]), 0x0102_0304);
    assert_eq!(u32_from_le(&le_bytes_of(0xdead_beef)), 0xdead_beef);
    assert_eq!(le_bytes_of(0), vec![0, 0, 0, 0]);
}

#[test]
fn chunk_payload_and_splice_move_exact_spans() {
    let data: Vec<u8> = (0u8..10).collect();
    assert_eq!(chunk_payload(&data, 2, 3), vec![2, 3, 4]);
    assert_eq!(chunk_payload(&data, 0, 10), data);
    assert_eq!(chunk_payload(&data, 7, 0), Vec::<u8>::new());
    let mut target: Vec<u8> = vec![9; 8];
    splice_chunk(&mut target, 3, &vec![1, 2, 3]);
    assert_eq!(target, vec![9, 9, 9, 1, 2, 3, 9, 9]);
    splice_chunk(&mut target, 0, &vec![5]);
    assert_eq!(target, vec![5, 9, 9, 1, 2, 3, 9, 9]);
}

#[test]
fn version_table_classifies_known_codes() {
    let known = [
        (0x4c00, Version::V1),
        (0x4c10, Version::V2),
        (0x5c00, Version::V3),
        (0x5c10, Version::V4),
        (0x5c20, Version::V5),
        (0x5c30, Version::V6),
        (0x4800, Version::V7),
        (0x6000, Version::V8),
        (0x6010, Version::V9),
        (0x7010, Version::Test1),
        (0x7020, Version::V10),
        (0x7030, Version::V11),
        (0x7400, Version::V12),
        (0x7410, Version::V13),
        (0x6400, Version::V14),
        (0x7420, Version::V15),
    ];
    for (code, version) in known {
        assert_eq!(Version::from_raw(code), version);
    }
}

#[test]
fn version_register_shift_and_mask() {
    // The code is the upper half of the dword, masked with 0x7cf0.
    assert_eq!(Version::from_dword(0x6400_0000), Version::V14);
    assert_eq!(Version::from_dword(0x6401_ffff), Version::V14);
    assert_eq!(Version::from_dword(0x7010_0000), Version::Test1);
    assert_eq!(Version::from_dword(0xffff_0000), Version::Unknown(0x7cf0));
    assert_eq!(Version::from_dword(0), Version::Unknown(0));
}

#[test]
fn unknown_version_code_is_rejected() {
    assert_eq!(Version::from_raw(0x1234), Version::Unknown(0x1234));
    assert_eq!(Version::from_raw(0), Version::Unknown(0));
    assert!(Version::from_raw(0x4c00).check_known().is_ok());
    assert!(matches!(
        Version::Unknown(0x1234).check_known(),
        Err(CtrlError::UnknownDevice)
    ));
}

#[test]
fn product_allow_list() {
    assert!(is_supported_product(0x0bda, 0x8152));
    assert!(is_supported_product(0x0bda, 0x8153));
    assert!(is_supported_product(0x17ef, 0x720c));
    assert!(is_supported_product(0x0b05, 0x1976));
    assert!(is_supported_product(0x2357, 0x0601));
    assert!(!is_supported_product(0x0bda, 0x9999));
    assert!(!is_supported_product(0x1234, 0x8152));
    assert!(!is_supported_product(0x045e, 0x0000));
}
