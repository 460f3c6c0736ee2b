use sysprobe::text::decode_utf16_lossy;

#[test]
fn empty_input_decodes_to_empty_text() {
    assert_eq!(decode_utf16_lossy(&[]), "");
}

#[test]
fn plain_code_units_decode_one_for_one() {
    assert_eq!(decode_utf16_lossy(&[0x48, 0x65, 0x6C, 0x6C, 0x6F]), "Hello");
    assert_eq!(decode_utf16_lossy(&[0x00]), "\u{0}");
    assert_eq!(decode_utf16_lossy(&[0xD7FF]), "\u{D7FF}");
    assert_eq!(decode_utf16_lossy(&[0xE000]), "\u{E000}");
    assert_eq!(decode_utf16_lossy(&[0xFFFF]), "\u{FFFF}");
    assert_eq!(decode_utf16_lossy(&[0x20AC, 0x4E2D]), "\u{20AC}\u{4E2D}");
}

#[test]
fn surrogate_pairs_decode_to_one_character() {
    assert_eq!(decode_utf16_lossy(&[0xD83D, 0xDE00]), "\u{1F600}");
    assert_eq!(decode_utf16_lossy(&[0xD800, 0xDC00]), "\u{10000}");
    assert_eq!(decode_utf16_lossy(&[0xDBFF, 0xDFFF]), "\u{10FFFF}");
    assert_eq!(decode_utf16_lossy(&[0xD834, 0xDD1E]), "\u{1D11E}");
    assert_eq!(decode_utf16_lossy(&[0x61, 0xD83D, 0xDE00, 0x62]), "a\u{1F600}b");
}

#[test]
fn unpaired_surrogates_become_the_replacement_character() {
    assert_eq!(decode_utf16_lossy(&[0xD800]), "\u{FFFD}");
    assert_eq!(decode_utf16_lossy(&[0xDBFF]), "\u{FFFD}");
    assert_eq!(decode_utf16_lossy(&[0xDC00]), "\u{FFFD}");
    assert_eq!(decode_utf16_lossy(&[0xDFFF]), "\u{FFFD}");
    assert_eq!(decode_utf16_lossy(&[0xDC00, 0xD800]), "\u{FFFD}\u{FFFD}");
    assert_eq!(decode_utf16_lossy(&[0xD800, 0x41]), "\u{FFFD}A");
    assert_eq!(decode_utf16_lossy(&[0xD800, 0xD800, 0xDC00]), "\u{FFFD}\u{10000}");
    assert_eq!(decode_utf16_lossy(&[0xD800, 0xDC00, 0xDC00]), "\u{10000}\u{FFFD}");
}

#[test]
fn mixed_text_with_stray_surrogates() {
    let units = [0xD834, 0xDD1E, 0x006D, 0x0075, 0x0073, 0xDD1E, 0x0069, 0x0063, 0xD834];
    assert_eq!(decode_utf16_lossy(&units), "\u{1D11E}mus\u{FFFD}ic\u{FFFD}");
}

#[test]
fn decoded_length_lies_between_half_and_all_of_the_code_units() {
    let inputs: [&[u16]; 5] = [
        &[],
        &[0x41, 0x42, 0x43],
        &[0xD83D, 0xDE00, 0xD83D, 0xDE00],
        &[0xD83D, 0xD83D, 0xDE00],
        &[0xDE00, 0xDE00, 0xDE00],
    ];
    let expected = [0usize, 3, 2, 2, 3];
    for (units, count) in inputs.iter().zip(expected) {
        let decoded = decode_utf16_lossy(units).chars().count();
        assert_eq!(decoded, count);
        assert!(decoded <= units.len() && units.len() <= 2 * decoded);
    }
}

#[test]
fn every_single_code_unit_decodes_as_std_does() {
    for unit in 0..=u16::MAX {
        assert_eq!(decode_utf16_lossy(&[unit]), String::from_utf16_lossy(&[unit]));
    }
}

#[test]
fn code_unit_sequences_decode_as_std_does() {
    let samples = [
        0x0000u16, 0x0041, 0x00E9, 0xD7FF, 0xD800, 0xD801, 0xDBFF, 0xDC00, 0xDC01, 0xDFFF, 0xE000,
        0xFFFD, 0xFFFF,
    ];
    for a in samples {
        for b in samples {
            assert_eq!(decode_utf16_lossy(&[a, b]), String::from_utf16_lossy(&[a, b]));
            for c in samples {
                for d in samples {
                    let units = [a, b, c, d];
                    assert_eq!(decode_utf16_lossy(&units), String::from_utf16_lossy(&units));
                }
            }
        }
    }
}
