use thumbor::{Filter, SampleFilter, SamplingFilter};

#[test]
fn sampling_filter_adapter_is_total() {
    assert_eq!(SamplingFilter::from(SampleFilter::Undefined), SamplingFilter::Nearest);
    assert_eq!(SamplingFilter::from(SampleFilter::Nearest), SamplingFilter::Nearest);
    assert_eq!(SamplingFilter::from(SampleFilter::Triangle), SamplingFilter::Triangle);
    assert_eq!(SamplingFilter::from(SampleFilter::CatmullRom), SamplingFilter::CatmullRom);
    assert_eq!(SamplingFilter::from(SampleFilter::Gaussian), SamplingFilter::Gaussian);
    assert_eq!(SamplingFilter::from(SampleFilter::Lanczos3), SamplingFilter::Lanczos3);
}

#[test]
fn filter_display_names() {
    assert_eq!(Filter::Unspecified.to_str(), None);
    assert_eq!(Filter::Oceanic.to_str(), Some("oceanic"));
    assert_eq!(Filter::Islands.to_str(), Some("islands"));
    assert_eq!(Filter::Marine.to_str(), Some("marine"));
}
