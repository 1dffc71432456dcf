//! The binary schema codec: a fixed tagged-length-value byte layout for a
//! pipeline of operations, deterministic and round-trip exact.
//!
//! Each operation is laid out as one tag byte, one length byte, and a
//! payload of exactly that length; a pipeline is the concatenation of its
//! operations' layouts. Unknown enum values inside a known field fall back
//! to the schema's default variant, while an unknown tag byte is a hard
//! decode error.

use vstd::prelude::*;
use vstd::bytes::*;
use crate::ops::{Data, Filter, ImageSpec, Resize, ResizeType, SampleFilter, Spec, Watermark};

verus! {

/// Why a token or a byte sequence was rejected.
#[derive(Clone, Copy, Debug, PartialEq, Eq, Structural)]
pub enum DecodeError {
    /// The textual token holds a character outside the URL-safe alphabet or
    /// has invalid structure.
    InvalidEncoding,
    /// The byte sequence ends before a field or message is complete.
    Truncated,
    /// A field's length is inconsistent with the schema.
    MalformedField,
    /// A tag byte does not match any declared operation kind.
    UnknownVariant,
}

/// The wire byte of a resize type.
pub open spec fn resize_type_byte(t: ResizeType) -> u8 {
    match t {
        ResizeType::Normal => 0,
        ResizeType::SeamCarve => 1,
    }
}

/// The resize type a wire byte resolves to; out-of-range bytes fall back to
/// the default `Normal`.
pub open spec fn resize_type_of_byte(b: u8) -> ResizeType {
    if b == 1 {
        ResizeType::SeamCarve
    } else {
        ResizeType::Normal
    }
}

/// The wire byte of a sampling filter.
pub open spec fn sample_filter_byte(f: SampleFilter) -> u8 {
    match f {
        SampleFilter::Undefined => 0,
        SampleFilter::Nearest => 1,
        SampleFilter::Triangle => 2,
        SampleFilter::CatmullRom => 3,
        SampleFilter::Gaussian => 4,
        SampleFilter::Lanczos3 => 5,
    }
}

/// The sampling filter a wire byte resolves to; out-of-range bytes fall
/// back to the default `Undefined`.
pub open spec fn sample_filter_of_byte(b: u8) -> SampleFilter {
    if b == 1 {
        SampleFilter::Nearest
    } else if b == 2 {
        SampleFilter::Triangle
    } else if b == 3 {
        SampleFilter::CatmullRom
    } else if b == 4 {
        SampleFilter::Gaussian
    } else if b == 5 {
        SampleFilter::Lanczos3
    } else {
        SampleFilter::Undefined
    }
}

/// The wire byte of a filter kind.
pub open spec fn filter_byte(f: Filter) -> u8 {
    match f {
        Filter::Unspecified => 0,
        Filter::Oceanic => 1,
        Filter::Islands => 2,
        Filter::Marine => 3,
    }
}

/// The filter kind a wire byte resolves to; out-of-range bytes fall back to
/// the default `Unspecified`.
pub open spec fn filter_of_byte(b: u8) -> Filter {
    if b == 1 {
        Filter::Oceanic
    } else if b == 2 {
        Filter::Islands
    } else if b == 3 {
        Filter::Marine
    } else {
        Filter::Unspecified
    }
}

/// The tag byte of an operation variant.
pub open spec fn op_tag(s: Spec) -> u8 {
    match s.data {
        Data::Resize(_) => 1,
        Data::Filter(_) => 2,
        Data::Watermark(_) => 3,
    }
}

/// The payload length the schema fixes for a tag (meaningful for tags 1-3).
pub open spec fn payload_len(tag: u8) -> int {
    if tag == 1 {
        10
    } else if tag == 2 {
        1
    } else {
        8
    }
}

/// The byte layout of one operation: tag, length, payload.
pub open spec fn spec_encode_op(s: Spec) -> Seq<u8> {
    match s.data {
        Data::Resize(r) => seq![1u8, 10u8] + spec_u32_to_le_bytes(r.width) + spec_u32_to_le_bytes(
            r.height,
        ) + seq![resize_type_byte(r.rtype), sample_filter_byte(r.filter)],
        Data::Filter(f) => seq![2u8, 1u8, filter_byte(f)],
        Data::Watermark(w) => seq![3u8, 8u8] + spec_u32_to_le_bytes(w.x) + spec_u32_to_le_bytes(
            w.y,
        ),
    }
}

/// The byte layout of a pipeline: the operations' layouts in order.
pub open spec fn spec_encode_ops(specs: Seq<Spec>) -> Seq<u8>
    decreases specs.len(),
{
    if specs.len() == 0 {
        Seq::empty()
    } else {
        spec_encode_op(specs[0]) + spec_encode_ops(specs.skip(1))
    }
}

/// The operation a payload of the fixed length resolves to, for tags 1-3.
/// Total: enum bytes out of range fall back to their default variant.
pub open spec fn spec_decode_payload(tag: u8, p: Seq<u8>) -> Spec
    recommends
        tag == 1 || tag == 2 || tag == 3,
        p.len() == payload_len(tag),
{
    if tag == 1 {
        Spec {
            data: Data::Resize(Resize {
                width: spec_u32_from_le_bytes(p.subrange(0, 4)),
                height: spec_u32_from_le_bytes(p.subrange(4, 8)),
                rtype: resize_type_of_byte(p[8]),
                filter: sample_filter_of_byte(p[9]),
            }),
        }
    } else if tag == 2 {
        Spec { data: Data::Filter(filter_of_byte(p[0])) }
    } else {
        Spec {
            data: Data::Watermark(Watermark {
                x: spec_u32_from_le_bytes(p.subrange(0, 4)),
                y: spec_u32_from_le_bytes(p.subrange(4, 8)),
            }),
        }
    }
}

/// What decoding a byte sequence yields: the operations in order, or the
/// first error met reading left to right.
pub open spec fn spec_decode_ops(b: Seq<u8>) -> Result<Seq<Spec>, DecodeError>
    decreases b.len(),
{
    if b.len() == 0 {
        Ok(Seq::empty())
    } else {
        let tag = b[0];
        if !(tag == 1 || tag == 2 || tag == 3) {
            Err(DecodeError::UnknownVariant)
        } else if b.len() < 2 {
            Err(DecodeError::Truncated)
        } else if b[1] != payload_len(tag) {
            Err(DecodeError::MalformedField)
        } else if b.len() < 2 + payload_len(tag) {
            Err(DecodeError::Truncated)
        } else {
            let op = spec_decode_payload(tag, b.subrange(2, 2 + payload_len(tag)));
            match spec_decode_ops(b.skip(2 + payload_len(tag))) {
                Ok(rest) => Ok(seq![op] + rest),
                Err(e) => Err(e),
            }
        }
    }
}

/// The layout of a concatenation of pipelines is the concatenation of their
/// layouts.
pub proof fn lemma_encode_ops_concat(a: Seq<Spec>, b: Seq<Spec>)
    ensures
        spec_encode_ops(a + b) == spec_encode_ops(a) + spec_encode_ops(b),
    decreases a.len(),
{
    if a.len() == 0 {
        assert(a + b =~= b);
        assert(spec_encode_ops(a) + spec_encode_ops(b) =~= spec_encode_ops(b));
    } else {
        assert((a + b).skip(1) =~= a.skip(1) + b);
        lemma_encode_ops_concat(a.skip(1), b);
        assert((a + b)[0] == a[0]);
        assert(spec_encode_op(a[0]) + (spec_encode_ops(a.skip(1)) + spec_encode_ops(b)) =~= (
        spec_encode_op(a[0]) + spec_encode_ops(a.skip(1))) + spec_encode_ops(b));
    }
}

/// One operation's layout decodes back to that operation: the tag and
/// length bytes are in place and the payload resolves to the operation.
proof fn lemma_op_layout(s: Spec)
    ensures
        spec_encode_op(s).len() == 2 + payload_len(op_tag(s)),
        spec_encode_op(s)[0] == op_tag(s),
        spec_encode_op(s)[1] == payload_len(op_tag(s)) as u8,
        spec_decode_payload(op_tag(s), spec_encode_op(s).subrange(2, spec_encode_op(s).len() as int))
            == s,
{
    lemma_auto_spec_u32_to_from_le_bytes();
    let e = spec_encode_op(s);
    let tag = op_tag(s);
    let p = e.subrange(2, e.len() as int);
    match s.data {
        Data::Resize(r) => {
            let wb = spec_u32_to_le_bytes(r.width);
            let hb = spec_u32_to_le_bytes(r.height);
            assert(e == seq![1u8, 10u8] + wb + hb + seq![
                resize_type_byte(r.rtype),
                sample_filter_byte(r.filter),
            ]);
            assert(p.subrange(0, 4) =~= wb);
            assert(p.subrange(4, 8) =~= hb);
            assert(p[8] == resize_type_byte(r.rtype));
            assert(p[9] == sample_filter_byte(r.filter));
        },
        Data::Filter(f) => {
            assert(p[0] == filter_byte(f));
        },
        Data::Watermark(w) => {
            let xb = spec_u32_to_le_bytes(w.x);
            let yb = spec_u32_to_le_bytes(w.y);
            assert(e == seq![3u8, 8u8] + xb + yb);
            assert(p.subrange(0, 4) =~= xb);
            assert(p.subrange(4, 8) =~= yb);
        },
    }
}

/// Cutting the layout of a resize operation down to its first three bytes
/// leaves the payload incomplete, and decoding reports exactly that:
/// `Truncated`, never a panic or a mangled operation.
pub proof fn lemma_truncated_resize(r: Resize)
    ensures
        spec_decode_ops(spec_encode_op(Spec { data: Data::Resize(r) }).take(3))
            == Err::<Seq<Spec>, DecodeError>(DecodeError::Truncated),
{
    lemma_op_layout(Spec { data: Data::Resize(r) });
    let e = spec_encode_op(Spec { data: Data::Resize(r) });
    let b = e.take(3);
    assert(b[0] == e[0]);
    assert(b[1] == e[1]);
    assert(b.len() == 3);
}

/// Round trip of the binary codec: decoding the layout of any pipeline
/// yields exactly that pipeline — same operation count, order and fields.
pub proof fn lemma_decode_encode_ops(specs: Seq<Spec>)
    ensures
        spec_decode_ops(spec_encode_ops(specs)) == Ok::<Seq<Spec>, DecodeError>(specs),
    decreases specs.len(),
{
    if specs.len() == 0 {
        assert(specs =~= Seq::<Spec>::empty());
    } else {
        let s = specs[0];
        let rest = specs.skip(1);
        let e1 = spec_encode_op(s);
        let erest = spec_encode_ops(rest);
        let b = e1 + erest;
        assert(spec_encode_ops(specs) == b);
        lemma_op_layout(s);
        lemma_decode_encode_ops(rest);
        let tag = op_tag(s);
        let plen = payload_len(tag);
        assert(b[0] == tag);
        assert(b[1] == plen as u8);
        assert(b.len() >= 2 + plen);
        assert(b.subrange(2, 2 + plen) =~= e1.subrange(2, e1.len() as int));
        assert(b.skip(2 + plen) =~= erest);
        assert(seq![s] + rest =~= specs);
    }
}

fn resize_type_to_byte(t: ResizeType) -> (r: u8)
    ensures
        r == resize_type_byte(t),
{
    match t {
        ResizeType::Normal => 0,
        ResizeType::SeamCarve => 1,
    }
}

fn resize_type_from_byte(b: u8) -> (r: ResizeType)
    ensures
        r == resize_type_of_byte(b),
{
    if b == 1 {
        ResizeType::SeamCarve
    } else {
        ResizeType::Normal
    }
}

fn sample_filter_to_byte(f: SampleFilter) -> (r: u8)
    ensures
        r == sample_filter_byte(f),
{
    match f {
        SampleFilter::Undefined => 0,
        SampleFilter::Nearest => 1,
        SampleFilter::Triangle => 2,
        SampleFilter::CatmullRom => 3,
        SampleFilter::Gaussian => 4,
        SampleFilter::Lanczos3 => 5,
    }
}

fn sample_filter_from_byte(b: u8) -> (r: SampleFilter)
    ensures
        r == sample_filter_of_byte(b),
{
    if b == 1 {
        SampleFilter::Nearest
    } else if b == 2 {
        SampleFilter::Triangle
    } else if b == 3 {
        SampleFilter::CatmullRom
    } else if b == 4 {
        SampleFilter::Gaussian
    } else if b == 5 {
        SampleFilter::Lanczos3
    } else {
        SampleFilter::Undefined
    }
}

fn filter_to_byte(f: Filter) -> (r: u8)
    ensures
        r == filter_byte(f),
{
    match f {
        Filter::Unspecified => 0,
        Filter::Oceanic => 1,
        Filter::Islands => 2,
        Filter::Marine => 3,
    }
}

fn filter_from_byte(b: u8) -> (r: Filter)
    ensures
        r == filter_of_byte(b),
{
    if b == 1 {
        Filter::Oceanic
    } else if b == 2 {
        Filter::Islands
    } else if b == 3 {
        Filter::Marine
    } else {
        Filter::Unspecified
    }
}

/// Appends the layout of one operation to `out`.
fn encode_op_into(s: &Spec, out: &mut Vec<u8>)
    ensures
        final(out)@ == old(out)@ + spec_encode_op(*s),
{
    match &s.data {
        Data::Resize(r) => {
            out.push(1);
            out.push(10);
            let mut wb = u32_to_le_bytes(r.width);
            out.append(&mut wb);
            let mut hb = u32_to_le_bytes(r.height);
            out.append(&mut hb);
            out.push(resize_type_to_byte(r.rtype));
            out.push(sample_filter_to_byte(r.filter));
            proof {
                assert(out@ =~= old(out)@ + spec_encode_op(*s));
            }
        },
        Data::Filter(f) => {
            out.push(2);
            out.push(1);
            out.push(filter_to_byte(*f));
            proof {
                assert(out@ =~= old(out)@ + spec_encode_op(*s));
            }
        },
        Data::Watermark(w) => {
            out.push(3);
            out.push(8);
            let mut xb = u32_to_le_bytes(w.x);
            out.append(&mut xb);
            let mut yb = u32_to_le_bytes(w.y);
            out.append(&mut yb);
            proof {
                assert(out@ =~= old(out)@ + spec_encode_op(*s));
            }
        },
    }
}

impl ImageSpec {
    /// Serializes the pipeline to its byte layout. The result is a function
    /// of the pipeline alone, so encoding the same pipeline twice yields
    /// byte-identical output.
    pub fn encode(&self) -> (r: Vec<u8>)
        ensures
            r@ == spec_encode_ops(self@),
    {
        let mut out: Vec<u8> = Vec::new();
        let n: usize = self.specs.len();
        let mut i: usize = 0;
        while i < n
            invariant
                n == self.specs.len(),
                i <= n,
                out@ == spec_encode_ops(self.specs@.take(i as int)),
            decreases n - i,
        {
            encode_op_into(&self.specs[i], &mut out);
            proof {
                let pre = self.specs@.take(i as int);
                let one = seq![self.specs@[i as int]];
                assert(self.specs@.take(i + 1 as int) =~= pre + one);
                lemma_encode_ops_concat(pre, one);
                assert(one.skip(1) =~= Seq::<Spec>::empty());
                assert(spec_encode_ops(one) == spec_encode_op(one[0]) + spec_encode_ops(
                    one.skip(1),
                ));
                assert(spec_encode_ops(Seq::<Spec>::empty()) == Seq::<u8>::empty());
                assert(spec_encode_ops(one) =~= spec_encode_op(self.specs@[i as int]));
            }
            i = i + 1;
        }
        proof {
            assert(self.specs@.take(n as int) =~= self.specs@);
        }
        out
    }

    /// Deserializes a byte layout back to a pipeline, or reports the first
    /// error met: `Truncated` where the bytes end mid-field, `MalformedField`
    /// where a length byte is inconsistent with the schema, and
    /// `UnknownVariant` where a tag matches no declared operation kind.
    pub fn decode(data: &[u8]) -> (r: Result<ImageSpec, DecodeError>)
        ensures
            (match r {
                Ok(img) => spec_decode_ops(data@) == Ok::<Seq<Spec>, DecodeError>(img@),
                Err(e) => spec_decode_ops(data@) == Err::<Seq<Spec>, DecodeError>(e),
            }),
    {
        let mut specs: Vec<Spec> = Vec::new();
        let mut idx: usize = 0;
        proof {
            assert(data@.skip(0) =~= data@);
            match spec_decode_ops(data@) {
                Ok(rest) => {
                    assert(Seq::<Spec>::empty() + rest =~= rest);
                },
                Err(e) => {},
            }
        }
        while idx < data.len()
            invariant
                idx <= data.len(),
                spec_decode_ops(data@) == (match spec_decode_ops(data@.skip(idx as int)) {
                    Ok(rest) => Ok::<Seq<Spec>, DecodeError>(specs@ + rest),
                    Err(e) => Err::<Seq<Spec>, DecodeError>(e),
                }),
            decreases data@.len() - idx,
        {
            let ghost s = data@.skip(idx as int);
            proof {
                assert(s.len() == data@.len() - idx);
                assert(s[0] == data@[idx as int]);
            }
            let tag = data[idx];
            if !(tag == 1 || tag == 2 || tag == 3) {
                return Err(DecodeError::UnknownVariant);
            }
            let plen: usize = if tag == 1 {
                10
            } else if tag == 2 {
                1
            } else {
                8
            };
            if data.len() - idx < 2 {
                return Err(DecodeError::Truncated);
            }
            proof {
                assert(s[1] == data@[idx + 1 as int]);
            }
            if data[idx + 1] != (plen as u8) {
                return Err(DecodeError::MalformedField);
            }
            if data.len() - idx - 2 < plen {
                return Err(DecodeError::Truncated);
            }
            let ghost p = s.subrange(2, 2 + plen as int);
            proof {
                assert(p =~= data@.subrange(idx + 2 as int, idx + 2 + plen as int));
            }
            let op: Spec = if tag == 1 {
                let width = u32_from_le_bytes(vstd::slice::slice_subrange(data, idx + 2, idx + 6));
                let height = u32_from_le_bytes(vstd::slice::slice_subrange(data, idx + 6, idx + 10));
                let rtype = resize_type_from_byte(data[idx + 10]);
                let filter = sample_filter_from_byte(data[idx + 11]);
                proof {
                    assert(p.subrange(0, 4) =~= data@.subrange(idx + 2 as int, idx + 6 as int));
                    assert(p.subrange(4, 8) =~= data@.subrange(idx + 6 as int, idx + 10 as int));
                    assert(p[8] == data@[idx + 10 as int]);
                    assert(p[9] == data@[idx + 11 as int]);
                }
                Spec { data: Data::Resize(Resize { width, height, rtype, filter }) }
            } else if tag == 2 {
                let filter = filter_from_byte(data[idx + 2]);
                proof {
                    assert(p[0] == data@[idx + 2 as int]);
                }
                Spec { data: Data::Filter(filter) }
            } else {
                let x = u32_from_le_bytes(vstd::slice::slice_subrange(data, idx + 2, idx + 6));
                let y = u32_from_le_bytes(vstd::slice::slice_subrange(data, idx + 6, idx + 10));
                proof {
                    assert(p.subrange(0, 4) =~= data@.subrange(idx + 2 as int, idx + 6 as int));
                    assert(p.subrange(4, 8) =~= data@.subrange(idx + 6 as int, idx + 10 as int));
                }
                Spec { data: Data::Watermark(Watermark { x, y }) }
            };
            proof {
                assert(op == spec_decode_payload(tag, p));
            }
            let ghost pre = specs@;
            specs.push(op);
            idx = idx + 2 + plen;
            proof {
                assert(s.skip(2 + plen as int) =~= data@.skip(idx as int));
                assert(specs@ =~= pre + seq![op]);
                match spec_decode_ops(data@.skip(idx as int)) {
                    Ok(rest) => {
                        assert(pre + (seq![op] + rest) =~= (pre + seq![op]) + rest);
                    },
                    Err(e) => {},
                }
            }
        }
        proof {
            assert(data@.skip(idx as int) =~= Seq::<u8>::empty());
            assert(specs@ + Seq::<Spec>::empty() =~= specs@);
        }
        Ok(ImageSpec { specs })
    }

    /// Encodes the pipeline and wraps the bytes in a URL-safe token: the
    /// textual encoding of the byte layout, which the textual decoding maps
    /// back to that layout.
    pub fn to_token(&self) -> (r: String)
        ensures
            r@ == crate::text::text_encoding(spec_encode_ops(self@)),
            crate::text::text_decoding(r@) == Some(spec_encode_ops(self@)),
            forall|i: int| 0 <= i < r@.len() ==> crate::text::is_url_safe_char(#[trigger] r@[i]),
    {
        let bytes = self.encode();
        crate::text::encode_text(bytes.as_slice())
    }

    /// Decodes a URL-safe token back to a pipeline: first the textual
    /// decoding to bytes, then the binary decoding to operations. For a
    /// token carrying the layout of a pipeline, that pipeline comes back
    /// exactly.
    pub fn from_token(token: &str) -> (r: Result<ImageSpec, DecodeError>)
        ensures
            (match crate::text::text_decoding(token@) {
                Some(bytes) => (match r {
                    Ok(img) => spec_decode_ops(bytes) == Ok::<Seq<Spec>, DecodeError>(img@),
                    Err(e) => spec_decode_ops(bytes) == Err::<Seq<Spec>, DecodeError>(e),
                }),
                None => r == Err::<ImageSpec, DecodeError>(DecodeError::InvalidEncoding),
            }),
            forall|s: Seq<Spec>|
                crate::text::text_decoding(token@) == Some(#[trigger] spec_encode_ops(s)) ==> (
                r matches Ok(img) && img@ == s),
    {
        let r = match crate::text::decode_text(token) {
            Ok(bytes) => ImageSpec::decode(bytes.as_slice()),
            Err(e) => Err(e),
        };
        proof {
            assert forall|s: Seq<Spec>|
                crate::text::text_decoding(token@) == Some(#[trigger] spec_encode_ops(s)) implies (
            r matches Ok(img) && img@ == s) by {
                lemma_decode_encode_ops(s);
            }
        }
        r
    }
}

} // verus!
