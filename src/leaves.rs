use vstd::prelude::*;

use crate::sampling::EveryVariant;

verus! {

/// One sample: 8.
impl EveryVariant for u8 {
    type Model = u8;

    open spec fn model(&self) -> u8 {
        *self
    }

    open spec fn variants() -> Seq<u8> {
        seq![8u8]
    }

    fn every_variant() -> (r: Vec<u8>) {
        let r = vec![8u8];
        assert(r@.map_values(|v: u8| v.model()) =~= Self::variants());
        r
    }
}

/// One sample: 16.
impl EveryVariant for u16 {
    type Model = u16;

    open spec fn model(&self) -> u16 {
        *self
    }

    open spec fn variants() -> Seq<u16> {
        seq![16u16]
    }

    fn every_variant() -> (r: Vec<u16>) {
        let r = vec![16u16];
        assert(r@.map_values(|v: u16| v.model()) =~= Self::variants());
        r
    }
}

/// One sample: 32.
impl EveryVariant for u32 {
    type Model = u32;

    open spec fn model(&self) -> u32 {
        *self
    }

    open spec fn variants() -> Seq<u32> {
        seq![32u32]
    }

    fn every_variant() -> (r: Vec<u32>) {
        let r = vec![32u32];
        assert(r@.map_values(|v: u32| v.model()) =~= Self::variants());
        r
    }
}

/// One sample: 64.
impl EveryVariant for u64 {
    type Model = u64;

    open spec fn model(&self) -> u64 {
        *self
    }

    open spec fn variants() -> Seq<u64> {
        seq![64u64]
    }

    fn every_variant() -> (r: Vec<u64>) {
        let r = vec![64u64];
        assert(r@.map_values(|v: u64| v.model()) =~= Self::variants());
        r
    }
}

/// One sample: 128.
impl EveryVariant for u128 {
    type Model = u128;

    open spec fn model(&self) -> u128 {
        *self
    }

    open spec fn variants() -> Seq<u128> {
        seq![128u128]
    }

    fn every_variant() -> (r: Vec<u128>) {
        let r = vec![128u128];
        assert(r@.map_values(|v: u128| v.model()) =~= Self::variants());
        r
    }
}

/// One sample: -8.
impl EveryVariant for i8 {
    type Model = i8;

    open spec fn model(&self) -> i8 {
        *self
    }

    open spec fn variants() -> Seq<i8> {
        seq![-8i8]
    }

    fn every_variant() -> (r: Vec<i8>) {
        let r = vec![-8i8];
        assert(r@.map_values(|v: i8| v.model()) =~= Self::variants());
        r
    }
}

/// One sample: -16.
impl EveryVariant for i16 {
    type Model = i16;

    open spec fn model(&self) -> i16 {
        *self
    }

    open spec fn variants() -> Seq<i16> {
        seq![-16i16]
    }

    fn every_variant() -> (r: Vec<i16>) {
        let r = vec![-16i16];
        assert(r@.map_values(|v: i16| v.model()) =~= Self::variants());
        r
    }
}

/// One sample: -32.
impl EveryVariant for i32 {
    type Model = i32;

    open spec fn model(&self) -> i32 {
        *self
    }

    open spec fn variants() -> Seq<i32> {
        seq![-32i32]
    }

    fn every_variant() -> (r: Vec<i32>) {
        let r = vec![-32i32];
        assert(r@.map_values(|v: i32| v.model()) =~= Self::variants());
        r
    }
}

/// One sample: -64.
impl EveryVariant for i64 {
    type Model = i64;

    open spec fn model(&self) -> i64 {
        *self
    }

    open spec fn variants() -> Seq<i64> {
        seq![-64i64]
    }

    fn every_variant() -> (r: Vec<i64>) {
        let r = vec![-64i64];
        assert(r@.map_values(|v: i64| v.model()) =~= Self::variants());
        r
    }
}

/// One sample: -128.
impl EveryVariant for i128 {
    type Model = i128;

    open spec fn model(&self) -> i128 {
        *self
    }

    open spec fn variants() -> Seq<i128> {
        seq![-128i128]
    }

    fn every_variant() -> (r: Vec<i128>) {
        let r = vec![-128i128];
        assert(r@.map_values(|v: i128| v.model()) =~= Self::variants());
        r
    }
}
/// The smallest and the largest value.
impl EveryVariant for usize {
    type Model = usize;

    open spec fn model(&self) -> usize {
        *self
    }

    open spec fn variants() -> Seq<usize> {
        seq![0usize, usize::MAX]
    }

    fn every_variant() -> (r: Vec<usize>) {
        let r = vec![0usize, usize::MAX];
        assert(r@.map_values(|v: usize| v.model()) =~= Self::variants());
        r
    }
}

/// Both values, `true` first.
impl EveryVariant for bool {
    type Model = bool;

    open spec fn model(&self) -> bool {
        *self
    }

    open spec fn variants() -> Seq<bool> {
        seq![true, false]
    }

    fn every_variant() -> (r: Vec<bool>) {
        let r = vec![true, false];
        assert(r@.map_values(|v: bool| v.model()) =~= Self::variants());
        r
    }
}

/// The one value of the unit type; it is also the shape of a variant
/// without fields.
impl EveryVariant for () {
    type Model = ();

    open spec fn model(&self) -> () {
        ()
    }

    open spec fn variants() -> Seq<()> {
        seq![()]
    }

    fn every_variant() -> (r: Vec<()>) {
        let r = vec![()];
        assert(r@.map_values(|v: ()| v.model()) =~= Self::variants());
        r
    }
}

/// One example string; a string is compared by its characters.
impl EveryVariant for String {
    type Model = Seq<char>;

    open spec fn model(&self) -> Seq<char> {
        self@
    }

    open spec fn variants() -> Seq<Seq<char>> {
        seq!["example String"@]
    }

    fn every_variant() -> (r: Vec<String>) {
        let r = vec!["example String".to_owned()];
        assert(r@.map_values(|v: String| v.model()) =~= Self::variants());
        r
    }
}

/// One example string slice, with a character outside ASCII.
impl EveryVariant for &'static str {
    type Model = Seq<char>;

    open spec fn model(&self) -> Seq<char> {
        (*self)@
    }

    open spec fn variants() -> Seq<Seq<char>> {
        seq!["&ŝtatic str!"@]
    }

    fn every_variant() -> (r: Vec<&'static str>) {
        let r = vec!["&ŝtatic str!"];
        assert(r@.map_values(|v: &'static str| v.model()) =~= Self::variants());
        r
    }
}

/// `uuid::Uuid`, a 128-bit identifier, held opaque.
#[verifier::external_type_specification]
#[verifier::external_body]
pub struct ExUuid(uuid::Uuid);

/// The 128-bit value of an identifier, as `Uuid::as_u128` reads it.
pub uninterp spec fn uuid_value(u: uuid::Uuid) -> u128;

/// Relies on `Uuid::default`, which is `Uuid::nil`: all 128 bits are zero.
#[verifier::external_body]
fn nil_uuid() -> (r: uuid::Uuid)
    ensures
        uuid_value(r) == 0,
{
    uuid::Uuid::default()
}

/// One opaque identifier: the nil one.
impl EveryVariant for uuid::Uuid {
    type Model = u128;

    open spec fn model(&self) -> u128 {
        uuid_value(*self)
    }

    open spec fn variants() -> Seq<u128> {
        seq![0u128]
    }

    fn every_variant() -> (r: Vec<uuid::Uuid>) {
        let r = vec![nil_uuid()];
        assert(r@.map_values(|v: uuid::Uuid| v.model()) =~= Self::variants());
        r
    }
}

} // verus!
