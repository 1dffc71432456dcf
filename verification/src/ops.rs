//! The operation model: one transformation step (`Spec`) and an ordered
//! pipeline of steps (`ImageSpec`).

use vstd::prelude::*;

verus! {

/// How a resize is carried out.
#[derive(Clone, Copy, Debug, PartialEq, Eq, Structural)]
pub enum ResizeType {
    Normal,
    SeamCarve,
}

/// The interpolation algorithm used during a resize.
#[derive(Clone, Copy, Debug, PartialEq, Eq, Structural)]
pub enum SampleFilter {
    Undefined,
    Nearest,
    Triangle,
    CatmullRom,
    Gaussian,
    Lanczos3,
}

/// The kind of colour filter to apply.
#[derive(Clone, Copy, Debug, PartialEq, Eq, Structural)]
pub enum Filter {
    Unspecified,
    Oceanic,
    Islands,
    Marine,
}

/// A resize step: target size, resize strategy and sampling filter.
#[derive(Clone, Copy, Debug, PartialEq, Eq, Structural)]
pub struct Resize {
    pub width: u32,
    pub height: u32,
    pub rtype: ResizeType,
    pub filter: SampleFilter,
}

/// A watermark step: the position where the watermark is placed.
#[derive(Clone, Copy, Debug, PartialEq, Eq, Structural)]
pub struct Watermark {
    pub x: u32,
    pub y: u32,
}

/// The closed set of operation variants.
#[derive(Clone, Copy, Debug, PartialEq, Eq, Structural)]
pub enum Data {
    Resize(Resize),
    Filter(Filter),
    Watermark(Watermark),
}

/// One transformation step of a pipeline.
#[derive(Clone, Copy, Debug, PartialEq, Eq, Structural)]
pub struct Spec {
    pub data: Data,
}

/// An ordered pipeline of transformation steps. Order is meaningful and is
/// preserved exactly through every encode/decode cycle.
#[derive(Clone, Debug)]
pub struct ImageSpec {
    pub specs: Vec<Spec>,
}

impl View for ImageSpec {
    type V = Seq<Spec>;

    open spec fn view(&self) -> Seq<Spec> {
        self.specs@
    }
}

impl ImageSpec {
    /// Stores the given steps verbatim, preserving order.
    pub fn new(specs: Vec<Spec>) -> (r: ImageSpec)
        ensures
            r@ == specs@,
    {
        ImageSpec { specs }
    }
}

impl PartialEq for ImageSpec {
    fn eq(&self, other: &ImageSpec) -> (r: bool) {
        if self.specs.len() != other.specs.len() {
            return false;
        }
        let n = self.specs.len();
        for i in 0..n
            invariant
                n == self.specs.len(),
                n == other.specs.len(),
                forall|j: int| 0 <= j < i ==> self.specs@[j] == other.specs@[j],
        {
            if self.specs[i] != other.specs[i] {
                return false;
            }
        }
        proof {
            assert(self.specs@ =~= other.specs@);
        }
        true
    }
}

impl vstd::std_specs::cmp::PartialEqSpecImpl for ImageSpec {
    open spec fn obeys_eq_spec() -> bool {
        true
    }

    open spec fn eq_spec(&self, other: &ImageSpec) -> bool {
        self.specs@ == other.specs@
    }
}

impl Spec {
    /// A resize step that uses seam carving; the sampling filter is forced
    /// to `Undefined`, which seam carving ignores.
    pub fn new_resize_seam_crave(width: u32, height: u32) -> (r: Spec)
        ensures
            r == (Spec {
                data: Data::Resize(Resize {
                    width,
                    height,
                    rtype: ResizeType::SeamCarve,
                    filter: SampleFilter::Undefined,
                }),
            }),
    {
        Spec {
            data: Data::Resize(Resize {
                width,
                height,
                rtype: ResizeType::SeamCarve,
                filter: SampleFilter::Undefined,
            }),
        }
    }

    /// A normal resize step with the given sampling filter.
    pub fn new_resize(width: u32, height: u32, filter: SampleFilter) -> (r: Spec)
        ensures
            r == (Spec {
                data: Data::Resize(Resize {
                    width,
                    height,
                    rtype: ResizeType::Normal,
                    filter,
                }),
            }),
    {
        Spec {
            data: Data::Resize(Resize { width, height, rtype: ResizeType::Normal, filter }),
        }
    }

    /// A colour-filter step.
    pub fn new_filter(filter: Filter) -> (r: Spec)
        ensures
            r == (Spec { data: Data::Filter(filter) }),
    {
        Spec { data: Data::Filter(filter) }
    }

    /// A watermark step at the given position.
    pub fn new_watermark(x: u32, y: u32) -> (r: Spec)
        ensures
            r == (Spec { data: Data::Watermark(Watermark { x, y }) }),
    {
        Spec { data: Data::Watermark(Watermark { x, y }) }
    }
}

impl Filter {
    /// The display name of a filter kind; `Unspecified` has none.
    pub fn to_str(&self) -> (r: Option<&'static str>)
        ensures
            *self == Filter::Unspecified ==> r is None,
            *self == Filter::Oceanic ==> (r matches Some(s) && s@ == "oceanic"@),
            *self == Filter::Islands ==> (r matches Some(s) && s@ == "islands"@),
            *self == Filter::Marine ==> (r matches Some(s) && s@ == "marine"@),
    {
        match self {
            Filter::Unspecified => None,
            Filter::Oceanic => Some("oceanic"),
            Filter::Islands => Some("islands"),
            Filter::Marine => Some("marine"),
        }
    }
}

} // verus!
