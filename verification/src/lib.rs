//! A compact, deterministic, URL-embeddable encoding for an ordered pipeline
//! of image-transformation operations (resize, filter, watermark).
//!
//! A pipeline is serialized to a tagged-length-value byte layout by the
//! binary codec, and the bytes are wrapped in a URL-safe, padding-free
//! textual token by the textual codec. Both directions are exact: decoding
//! an encoded pipeline yields the same pipeline.

pub mod adapter;
pub mod codec;
pub mod kv;
pub mod ops;
pub mod text;

pub use adapter::SamplingFilter;
pub use codec::DecodeError;
pub use kv::KvError;
pub use kv::KvPair;
pub use kv::parse_kv_pair;
pub use ops::Data;
pub use ops::Filter;
pub use ops::ImageSpec;
pub use ops::Resize;
pub use ops::ResizeType;
pub use ops::SampleFilter;
pub use ops::Spec;
pub use ops::Watermark;
pub use text::decode_text;
pub use text::encode_text;
