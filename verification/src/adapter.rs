//! The sampling-filter adapter: a total mapping from the schema's sampling
//! filters to the rendering engine's native filter set.
//!
//! The engine's set has no `Undefined` member, so the schema's `Undefined`
//! maps to nearest-neighbour; every other variant maps to its namesake. The
//! match is exhaustive on purpose: a new schema variant forces an explicit
//! choice here, never a silent default.

use vstd::prelude::*;
use crate::ops::SampleFilter;

verus! {

/// The rendering engine's native sampling-filter set, as the adapter hands
/// it on. Code that drives the engine converts this one-for-one to the
/// engine's own type.
#[derive(Clone, Copy, Debug, PartialEq, Eq, Structural)]
pub enum SamplingFilter {
    Nearest,
    Triangle,
    CatmullRom,
    Gaussian,
    Lanczos3,
}

/// The native filter each schema variant maps to.
pub open spec fn native_of(v: SampleFilter) -> SamplingFilter {
    match v {
        SampleFilter::Undefined => SamplingFilter::Nearest,
        SampleFilter::Nearest => SamplingFilter::Nearest,
        SampleFilter::Triangle => SamplingFilter::Triangle,
        SampleFilter::CatmullRom => SamplingFilter::CatmullRom,
        SampleFilter::Gaussian => SamplingFilter::Gaussian,
        SampleFilter::Lanczos3 => SamplingFilter::Lanczos3,
    }
}

impl From<SampleFilter> for SamplingFilter {
    fn from(v: SampleFilter) -> (r: SamplingFilter) {
        match v {
            SampleFilter::Undefined => SamplingFilter::Nearest,
            SampleFilter::Nearest => SamplingFilter::Nearest,
            SampleFilter::Triangle => SamplingFilter::Triangle,
            SampleFilter::CatmullRom => SamplingFilter::CatmullRom,
            SampleFilter::Gaussian => SamplingFilter::Gaussian,
            SampleFilter::Lanczos3 => SamplingFilter::Lanczos3,
        }
    }
}

impl vstd::std_specs::convert::FromSpecImpl<SampleFilter> for SamplingFilter {
    open spec fn obeys_from_spec() -> bool {
        true
    }

    open spec fn from_spec(v: SampleFilter) -> SamplingFilter {
        native_of(v)
    }
}

} // verus!
