use thumbor::{DecodeError, Filter, ImageSpec, SampleFilter, Spec};

#[test]
fn encoded_spec_could_be_decoded() {
    let spec1 = Spec::new_resize(600, 600, SampleFilter::CatmullRom);
    let spec2 = Spec::new_filter(Filter::Marine);
    let image_spec = ImageSpec::new(vec![spec1, spec2]);
    let s: String = image_spec.to_token();
    assert_eq!(image_spec, ImageSpec::from_token(s.as_str()).unwrap());
}

#[test]
fn binary_round_trip_resize_and_filter() {
    let p = ImageSpec::new(vec![
        Spec::new_resize(600, 600, SampleFilter::CatmullRom),
        Spec::new_filter(Filter::Marine),
    ]);
    let bytes = p.encode();
    let q = ImageSpec::decode(&bytes).unwrap();
    assert_eq!(p, q);
}

#[test]
fn watermark_round_trips_binary_and_text() {
    let p = ImageSpec::new(vec![Spec::new_watermark(10, 20)]);
    let bytes = p.encode();
    assert_eq!(ImageSpec::decode(&bytes).unwrap(), p);
    let token = p.to_token();
    assert_eq!(ImageSpec::from_token(token.as_str()).unwrap(), p);
}

#[test]
fn seam_carve_round_trips() {
    let p = ImageSpec::new(vec![Spec::new_resize_seam_crave(320, 240)]);
    let bytes = p.encode();
    assert_eq!(ImageSpec::decode(&bytes).unwrap(), p);
}

#[test]
fn empty_pipeline_round_trips() {
    let p = ImageSpec::new(vec![]);
    let bytes = p.encode();
    assert_eq!(bytes.len(), 0);
    assert_eq!(ImageSpec::decode(&bytes).unwrap(), p);
}

#[test]
fn encoding_is_deterministic_and_exact() {
    let p = ImageSpec::new(vec![
        Spec::new_resize(600, 600, SampleFilter::CatmullRom),
        Spec::new_filter(Filter::Marine),
        Spec::new_watermark(10, 20),
    ]);
    let a = p.encode();
    let b = p.encode();
    assert_eq!(a, b);
    let expected: Vec<u8> = vec![
        1, 10, 88, 2, 0, 0, 88, 2, 0, 0, 0, 3, // resize 600x600, normal, catmull-rom
        2, 1, 3, // filter marine
        3, 8, 10, 0, 0, 0, 20, 0, 0, 0, // watermark at (10, 20)
    ];
    assert_eq!(a, expected);
}

#[test]
fn truncated_resize_fails_with_truncated() {
    let p = ImageSpec::new(vec![Spec::new_resize(600, 600, SampleFilter::CatmullRom)]);
    let bytes = p.encode();
    let err = ImageSpec::decode(&bytes[..3]).unwrap_err();
    assert_eq!(err, DecodeError::Truncated);
}

#[test]
fn missing_length_byte_fails_with_truncated() {
    let err = ImageSpec::decode(&[1]).unwrap_err();
    assert_eq!(err, DecodeError::Truncated);
}

#[test]
fn unknown_tag_fails_with_unknown_variant() {
    let err = ImageSpec::decode(&[9, 1, 0]).unwrap_err();
    assert_eq!(err, DecodeError::UnknownVariant);
}

#[test]
fn wrong_length_byte_fails_with_malformed_field() {
    let err = ImageSpec::decode(&[2, 2, 0, 0]).unwrap_err();
    assert_eq!(err, DecodeError::MalformedField);
}

#[test]
fn out_of_range_enum_bytes_fall_back_to_defaults() {
    // A filter byte outside the declared kinds resolves to Unspecified.
    let p = ImageSpec::decode(&[2, 1, 9]).unwrap();
    assert_eq!(p, ImageSpec::new(vec![Spec::new_filter(Filter::Unspecified)]));
    // Resize-type and sampling-filter bytes out of range resolve to
    // Normal and Undefined.
    let q = ImageSpec::decode(&[1, 10, 1, 0, 0, 0, 2, 0, 0, 0, 7, 9]).unwrap();
    assert_eq!(q, ImageSpec::new(vec![Spec::new_resize(1, 2, SampleFilter::Undefined)]));
}

#[test]
fn trailing_garbage_after_valid_operation_fails() {
    let p = ImageSpec::new(vec![Spec::new_filter(Filter::Oceanic)]);
    let mut bytes = p.encode();
    bytes.push(9);
    let err = ImageSpec::decode(&bytes).unwrap_err();
    assert_eq!(err, DecodeError::UnknownVariant);
}
