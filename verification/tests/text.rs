use thumbor::{decode_text, encode_text, DecodeError, Filter, ImageSpec, SampleFilter, Spec};

#[test]
fn text_round_trip() {
    let bytes: Vec<u8> = vec![0, 1, 2, 253, 254, 255, 63, 62];
    let token = encode_text(&bytes);
    assert_eq!(decode_text(&token).unwrap(), bytes);
}

#[test]
fn text_round_trip_all_lengths_mod_three() {
    for n in 0..9usize {
        let bytes: Vec<u8> = (0..n as u8).collect();
        let token = encode_text(&bytes);
        assert_eq!(decode_text(&token).unwrap(), bytes);
    }
}

#[test]
fn encode_text_has_known_value() {
    // The URL-safe, padding-free encoding of the bytes 1, 2, 3.
    assert_eq!(encode_text(&[1, 2, 3]), "AQID");
    // Bytes that the standard alphabet would render as '+' and '/' come out
    // as '-' and '_'.
    assert_eq!(encode_text(&[251, 255]), "-_8");
}

#[test]
fn token_avoids_url_hostile_characters() {
    // 0xfb 0xef ... exercise the sextets that map to '+' and '/' in the
    // standard alphabet, and the lengths that would call for '=' padding.
    let bytes: Vec<u8> = vec![251, 239, 190, 250, 1, 2, 3, 4, 5];
    for n in 0..bytes.len() {
        let token = encode_text(&bytes[..n]);
        assert!(!token.contains('+'));
        assert!(!token.contains('/'));
        assert!(!token.contains('='));
    }
}

#[test]
fn pipeline_token_avoids_url_hostile_characters() {
    let p = ImageSpec::new(vec![
        Spec::new_resize(600, 600, SampleFilter::CatmullRom),
        Spec::new_filter(Filter::Marine),
        Spec::new_watermark(4095, 4094),
    ]);
    let token = p.to_token();
    assert!(token.is_ascii());
    assert!(!token.contains('+'));
    assert!(!token.contains('/'));
    assert!(!token.contains('='));
}

#[test]
fn bad_token_fails_with_invalid_encoding() {
    let err = decode_text("not!valid$$base64").unwrap_err();
    assert_eq!(err, DecodeError::InvalidEncoding);
}

#[test]
fn bad_token_fails_end_to_end() {
    let err = ImageSpec::from_token("not!valid$$base64").unwrap_err();
    assert_eq!(err, DecodeError::InvalidEncoding);
}

#[test]
fn end_to_end_round_trip() {
    let p = ImageSpec::new(vec![
        Spec::new_resize_seam_crave(100, 200),
        Spec::new_filter(Filter::Islands),
        Spec::new_watermark(0, 4294967295),
    ]);
    let token = p.to_token();
    let q = ImageSpec::from_token(token.as_str()).unwrap();
    assert_eq!(p, q);
}
