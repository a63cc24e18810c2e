use vstd::prelude::*;
use vstd::string::{is_ascii, is_ascii_spec_bytes, StringSliceAdditionalSpecFns};

use crate::sampling::EveryVariant;

verus! {

/// `heapless::Vec`, a vector of fixed capacity `N`, held opaque.
#[verifier::external_type_specification]
#[verifier::external_body]
#[verifier::reject_recursive_types(T)]
pub struct ExFixedVec<T, const N: usize>(heapless::Vec<T, N>);

/// `heapless::String`, a string of at most `N` bytes, held opaque.
#[verifier::external_type_specification]
#[verifier::external_body]
pub struct ExFixedString<const N: usize>(heapless::String<N>);

/// The items that a byte vector of capacity 16 holds, in order.
pub uninterp spec fn byte_vec16_items(v: heapless::Vec<u8, 16>) -> Seq<u8>;

/// The UTF-8 bytes that a string of capacity 16 holds, in order.
pub uninterp spec fn str16_bytes(s: heapless::String<16>) -> Seq<u8>;

/// The sample of a fixed-capacity sequence: one sequence holding the inner
/// samples in order, as many as fit; the rest is dropped.
pub open spec fn fixed_capacity_variants<M>(inner: Seq<M>, capacity: nat) -> Seq<Seq<M>> {
    seq![
        if inner.len() <= capacity {
            inner
        } else {
            inner.take(capacity as int)
        },
    ]
}

/// Relies on `heapless::Vec::new`: a vector with no item.
#[verifier::external_body]
fn byte_vec16_new() -> (r: heapless::Vec<u8, 16>)
    ensures
        byte_vec16_items(r) == Seq::<u8>::empty(),
{
    heapless::Vec::new()
}

/// Relies on `heapless::Vec::push`: appends the item while fewer than 16 are
/// held; when full, hands the item back and changes nothing.
#[verifier::external_body]
fn byte_vec16_push(v: &mut heapless::Vec<u8, 16>, item: u8) -> (r: Result<(), u8>)
    ensures
        r is Ok <==> byte_vec16_items(*old(v)).len() < 16,
        r is Ok ==> byte_vec16_items(*final(v)) == byte_vec16_items(*old(v)).push(item),
        r matches Err(back) ==> back == item && byte_vec16_items(*final(v)) == byte_vec16_items(
            *old(v),
        ),
{
    v.push(item)
}

/// Relies on `heapless::String::new`: a string with no byte.
#[verifier::external_body]
fn str16_new() -> (r: heapless::String<16>)
    ensures
        str16_bytes(r) == Seq::<u8>::empty(),
{
    heapless::String::new()
}

/// Relies on `heapless::String::push_str`: appends the bytes of `t` where
/// all of them fit in the 16 bytes; otherwise fails and changes nothing.
#[verifier::external_body]
fn str16_push_str(s: &mut heapless::String<16>, t: &str) -> (r: Result<(), ()>)
    ensures
        r is Ok <==> str16_bytes(*old(s)).len() + t.spec_bytes().len() <= 16,
        r is Ok ==> str16_bytes(*final(s)) == str16_bytes(*old(s)) + t.spec_bytes(),
        r is Err ==> str16_bytes(*final(s)) == str16_bytes(*old(s)),
{
    s.push_str(t)
}

/// One vector of capacity 16, filled with the byte samples in order; those
/// beyond the capacity are dropped.
impl EveryVariant for heapless::Vec<u8, 16> {
    type Model = Seq<u8>;

    open spec fn model(&self) -> Seq<u8> {
        byte_vec16_items(*self)
    }

    open spec fn variants() -> Seq<Seq<u8>> {
        fixed_capacity_variants(u8::variants(), 16)
    }

    fn every_variant() -> (r: Vec<heapless::Vec<u8, 16>>) {
        let ghost base = u8::variants();
        let mut v = byte_vec16_new();
        let samples = u8::every_variant();
        assert(forall|k: int| 0 <= k < samples@.len() ==> #[trigger] samples@[k] == base[k]) by {
            assert(forall|k: int|
                0 <= k < samples@.len() ==> samples@.map_values(|b: u8| b.model())[k] == base[k]);
        }
        let mut i: usize = 0;
        while i < samples.len()
            invariant
                samples@.len() == base.len(),
                forall|k: int| 0 <= k < samples@.len() ==> #[trigger] samples@[k] == base[k],
                i <= samples@.len(),
                byte_vec16_items(v) == if i <= 16 {
                    base.take(i as int)
                } else {
                    base.take(16)
                },
            decreases samples@.len() - i,
        {
            let _ = byte_vec16_push(&mut v, samples[i]);
            proof {
                if i < 16 {
                    assert(base.take(i + 1) =~= base.take(i as int).push(base[i as int]));
                }
            }
            i = i + 1;
        }
        assert(base.take(base.len() as int) =~= base);
        let r = vec![v];
        assert(r@.map_values(|f: heapless::Vec<u8, 16>| f.model()) =~= Self::variants());
        r
    }
}

/// One string of capacity 16 holding a short ASCII word.
impl EveryVariant for heapless::String<16> {
    type Model = Seq<u8>;

    open spec fn model(&self) -> Seq<u8> {
        str16_bytes(*self)
    }

    open spec fn variants() -> Seq<Seq<u8>> {
        seq!["hello".spec_bytes()]
    }

    fn every_variant() -> (r: Vec<heapless::String<16>>) {
        let mut s = str16_new();
        proof {
            reveal_strlit("hello");
            assert(is_ascii("hello"));
            is_ascii_spec_bytes("hello");
        }
        let _ = str16_push_str(&mut s, "hello");
        assert(str16_bytes(s) =~= "hello".spec_bytes());
        let r = vec![s];
        assert(r@.map_values(|f: heapless::String<16>| f.model()) =~= Self::variants());
        r
    }
}

} // verus!
