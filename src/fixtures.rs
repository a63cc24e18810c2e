use vstd::prelude::*;

use crate::demo::{SecondTop, Top};
use crate::derive::{derive_variants, Shape};
use crate::sampling::EveryVariant;

verus! {

/// How a message is rendered.
#[derive(Debug, Clone)]
pub enum MessageType {
    Codified,
    Markdown,
    Html,
}

impl Shape for MessageType {
    type Parts = Result<(), Result<(), ()>>;

    open spec fn shape(&self) -> Result<(), Result<(), ()>> {
        match self {
            MessageType::Codified => Ok(()),
            MessageType::Markdown => Err(Ok(())),
            MessageType::Html => Err(Err(())),
        }
    }

    fn assemble(parts: Result<(), Result<(), ()>>) -> (r: MessageType) {
        match parts {
            Ok(u) => {
                assert(parts.model() == Ok::<(), Result<(), ()>>(u.model()));
                MessageType::Codified
            },
            Err(Ok(())) => MessageType::Markdown,
            Err(Err(())) => MessageType::Html,
        }
    }
}

impl EveryVariant for MessageType {
    type Model = Result<(), Result<(), ()>>;

    open spec fn model(&self) -> Self::Model {
        self.shape()
    }

    open spec fn variants() -> Seq<Self::Model> {
        <Self as Shape>::Parts::variants()
    }

    fn every_variant() -> (r: Vec<MessageType>) {
        let r = derive_variants::<MessageType>();
        assert(r@.map_values(|v: MessageType| v.model()) =~= r@.map_values(|v: MessageType| v.shape()));
        r
    }

    fn for_every_variant<F: Fn(&MessageType)>(closure: F) {
        let all = Self::every_variant();
        let mut i: usize = 0;
        while i < all.len()
            invariant
                forall|v: &MessageType| #[trigger] closure.requires((v,)),
            decreases all.len() - i,
        {
            closure(&all[i]);
            i = i + 1;
        }
    }
}

/// A text with an optional way to render it; absent means hidden.
#[derive(Debug, Clone)]
pub struct FormattedMessage {
    pub rendermethod: Option<MessageType>,
    pub text: String,
}

impl Shape for FormattedMessage {
    type Parts = (Option<MessageType>, String);

    open spec fn shape(&self) -> (Option<<MessageType as EveryVariant>::Model>, Seq<char>) {
        (self.rendermethod.model(), self.text@)
    }

    fn assemble(parts: (Option<MessageType>, String)) -> (r: FormattedMessage) {
        proof {
            assert(parts.model() == (parts.0.model(), parts.1.model()));
        }
        let (rendermethod, text) = parts;
        FormattedMessage { rendermethod, text }
    }
}

impl EveryVariant for FormattedMessage {
    type Model = (Option<<MessageType as EveryVariant>::Model>, Seq<char>);

    open spec fn model(&self) -> Self::Model {
        self.shape()
    }

    open spec fn variants() -> Seq<Self::Model> {
        <Self as Shape>::Parts::variants()
    }

    fn every_variant() -> (r: Vec<FormattedMessage>) {
        let r = derive_variants::<FormattedMessage>();
        assert(r@.map_values(|v: FormattedMessage| v.model()) =~= r@.map_values(|v: FormattedMessage| v.shape()));
        r
    }
}

/// A message with a text, a number, an optional number and two nested
/// choices.
#[derive(Debug, Clone)]
pub struct Message {
    pub message: String,
    pub number: u32,
    pub opt: Option<u64>,
    pub nest: Top,
    pub second: SecondTop,
}

impl Shape for Message {
    type Parts = (String, (u32, (Option<u64>, (Top, SecondTop))));

    open spec fn shape(&self) -> (
        Seq<char>,
        (u32, (Option<u64>, (<Top as EveryVariant>::Model, <SecondTop as EveryVariant>::Model))),
    ) {
        (
            self.message@,
            (self.number, (self.opt.model(), (self.nest.model(), self.second.model()))),
        )
    }

    fn assemble(parts: (String, (u32, (Option<u64>, (Top, SecondTop))))) -> (r: Message) {
        proof {
            assert(parts.1.1.1.model() == (parts.1.1.1.0.model(), parts.1.1.1.1.model()));
            assert(parts.1.1.model() == (parts.1.1.0.model(), parts.1.1.1.model()));
            assert(parts.1.model() == (parts.1.0.model(), parts.1.1.model()));
            assert(parts.model() == (parts.0.model(), parts.1.model()));
        }
        let (message, (number, (opt, (nest, second)))) = parts;
        Message { message, number, opt, nest, second }
    }
}

impl EveryVariant for Message {
    type Model = (
        Seq<char>,
        (u32, (Option<u64>, (<Top as EveryVariant>::Model, <SecondTop as EveryVariant>::Model))),
    );

    open spec fn model(&self) -> Self::Model {
        self.shape()
    }

    open spec fn variants() -> Seq<Self::Model> {
        <Self as Shape>::Parts::variants()
    }

    fn every_variant() -> (r: Vec<Message>) {
        let r = derive_variants::<Message>();
        assert(r@.map_values(|v: Message| v.model()) =~= r@.map_values(|v: Message| v.shape()));
        r
    }
}

/// A struct with one unnamed field.
#[derive(Debug, Clone)]
pub struct TestUnnamed3(pub u16);

impl Shape for TestUnnamed3 {
    type Parts = u16;

    open spec fn shape(&self) -> u16 {
        self.0
    }

    fn assemble(parts: u16) -> (r: TestUnnamed3) {
        assert(parts.model() == parts);
        TestUnnamed3(parts)
    }
}

impl EveryVariant for TestUnnamed3 {
    type Model = u16;

    open spec fn model(&self) -> Self::Model {
        self.shape()
    }

    open spec fn variants() -> Seq<Self::Model> {
        <Self as Shape>::Parts::variants()
    }

    fn every_variant() -> (r: Vec<TestUnnamed3>) {
        let r = derive_variants::<TestUnnamed3>();
        assert(r@.map_values(|v: TestUnnamed3| v.model()) =~= r@.map_values(|v: TestUnnamed3| v.shape()));
        r
    }
}

/// An enum whose variants have one, two and four unnamed fields.
#[derive(Debug, Clone)]
pub enum TestUnnamed1 {
    UnnamedSingle(u16),
    UnnamedMultiple1(u16, u32),
    UnnamedMultiple2(u16, u32, u64, i32),
}

impl Shape for TestUnnamed1 {
    type Parts = Result<u16, Result<(u16, u32), (u16, (u32, (u64, i32)))>>;

    open spec fn shape(&self) -> Result<u16, Result<(u16, u32), (u16, (u32, (u64, i32)))>> {
        match self {
            TestUnnamed1::UnnamedSingle(a) => Ok(*a),
            TestUnnamed1::UnnamedMultiple1(a, b) => Err(Ok((*a, *b))),
            TestUnnamed1::UnnamedMultiple2(a, b, c, d) => Err(Err((*a, (*b, (*c, *d))))),
        }
    }

    fn assemble(parts: Result<u16, Result<(u16, u32), (u16, (u32, (u64, i32)))>>) -> (r: TestUnnamed1) {
        match parts {
            Ok(a) => {
                assert(parts.model() == Ok::<u16, Result<(u16, u32), (u16, (u32, (u64, i32)))>>(
                    a.model(),
                ));
                TestUnnamed1::UnnamedSingle(a)
            },
            Err(Ok((a, b))) => TestUnnamed1::UnnamedMultiple1(a, b),
            Err(Err((a, (b, (c, d))))) => TestUnnamed1::UnnamedMultiple2(a, b, c, d),
        }
    }
}

impl EveryVariant for TestUnnamed1 {
    type Model = Result<u16, Result<(u16, u32), (u16, (u32, (u64, i32)))>>;

    open spec fn model(&self) -> Self::Model {
        self.shape()
    }

    open spec fn variants() -> Seq<Self::Model> {
        <Self as Shape>::Parts::variants()
    }

    fn every_variant() -> (r: Vec<TestUnnamed1>) {
        let r = derive_variants::<TestUnnamed1>();
        assert(r@.map_values(|v: TestUnnamed1| v.model()) =~= r@.map_values(|v: TestUnnamed1| v.shape()));
        r
    }

    fn for_every_variant<F: Fn(&TestUnnamed1)>(closure: F) {
        let all = Self::every_variant();
        let mut i: usize = 0;
        while i < all.len()
            invariant
                forall|v: &TestUnnamed1| #[trigger] closure.requires((v,)),
            decreases all.len() - i,
        {
            closure(&all[i]);
            i = i + 1;
        }
    }
}

/// A struct with three unnamed fields of different integer types.
#[derive(Debug, Clone)]
pub struct TestUnnamed2(pub u16, pub u32, pub u64);

impl Shape for TestUnnamed2 {
    type Parts = (u16, (u32, u64));

    open spec fn shape(&self) -> (u16, (u32, u64)) {
        (self.0, (self.1, self.2))
    }

    fn assemble(parts: (u16, (u32, u64))) -> (r: TestUnnamed2) {
        let (a, (b, c)) = parts;
        TestUnnamed2(a, b, c)
    }
}

impl EveryVariant for TestUnnamed2 {
    type Model = (u16, (u32, u64));

    open spec fn model(&self) -> Self::Model {
        self.shape()
    }

    open spec fn variants() -> Seq<Self::Model> {
        <Self as Shape>::Parts::variants()
    }

    fn every_variant() -> (r: Vec<TestUnnamed2>) {
        let r = derive_variants::<TestUnnamed2>();
        assert(r@.map_values(|v: TestUnnamed2| v.model()) =~= r@.map_values(|v: TestUnnamed2| v.shape()));
        r
    }
}

/// A struct wrapping one value of any type.
#[derive(Debug, Clone)]
pub struct Gen1<A>(pub A);

impl<A: EveryVariant> Shape for Gen1<A> {
    type Parts = A;

    open spec fn shape(&self) -> A::Model {
        self.0.model()
    }

    fn assemble(parts: A) -> (r: Gen1<A>) {
        Gen1(parts)
    }
}

impl<A: EveryVariant> EveryVariant for Gen1<A> {
    type Model = A::Model;

    open spec fn model(&self) -> Self::Model {
        self.shape()
    }

    open spec fn variants() -> Seq<Self::Model> {
        <Self as Shape>::Parts::variants()
    }

    fn every_variant() -> (r: Vec<Gen1<A>>) {
        let r = derive_variants::<Gen1<A>>();
        assert(r@.map_values(|v: Gen1<A>| v.model()) =~= r@.map_values(|v: Gen1<A>| v.shape()));
        r
    }
}

/// A struct wrapping two values of any types.
#[derive(Debug, Clone)]
pub struct Gen2<A, B>(pub A, pub B);

impl<A: EveryVariant, B: EveryVariant> Shape for Gen2<A, B> {
    type Parts = (A, B);

    open spec fn shape(&self) -> (A::Model, B::Model) {
        (self.0.model(), self.1.model())
    }

    fn assemble(parts: (A, B)) -> (r: Gen2<A, B>) {
        proof {
            assert(parts.model() == (parts.0.model(), parts.1.model()));
        }
        let (a, b) = parts;
        Gen2(a, b)
    }
}

impl<A: EveryVariant, B: EveryVariant> EveryVariant for Gen2<A, B> {
    type Model = (A::Model, B::Model);

    open spec fn model(&self) -> Self::Model {
        self.shape()
    }

    open spec fn variants() -> Seq<Self::Model> {
        <Self as Shape>::Parts::variants()
    }

    fn every_variant() -> (r: Vec<Gen2<A, B>>) {
        let r = derive_variants::<Gen2<A, B>>();
        assert(r@.map_values(|v: Gen2<A, B>| v.model()) =~= r@.map_values(|v: Gen2<A, B>| v.shape()));
        r
    }
}

/// A struct of two generic structs, each at fixed types.
#[derive(Debug, Clone)]
pub struct Generic1(pub Gen1<u8>, pub Gen2<u16, u32>);

impl Shape for Generic1 {
    type Parts = (Gen1<u8>, Gen2<u16, u32>);

    open spec fn shape(&self) -> (u8, (u16, u32)) {
        (self.0.model(), self.1.model())
    }

    fn assemble(parts: (Gen1<u8>, Gen2<u16, u32>)) -> (r: Generic1) {
        proof {
            assert(parts.model() == (parts.0.model(), parts.1.model()));
        }
        let (a, b) = parts;
        Generic1(a, b)
    }
}

impl EveryVariant for Generic1 {
    type Model = (u8, (u16, u32));

    open spec fn model(&self) -> Self::Model {
        self.shape()
    }

    open spec fn variants() -> Seq<Self::Model> {
        <Self as Shape>::Parts::variants()
    }

    fn every_variant() -> (r: Vec<Generic1>) {
        let r = derive_variants::<Generic1>();
        assert(r@.map_values(|v: Generic1| v.model()) =~= r@.map_values(|v: Generic1| v.shape()));
        r
    }
}

/// An enum of two generic structs, each at fixed types.
#[derive(Debug, Clone)]
pub enum Generic2 {
    G1(Gen1<i8>),
    G2(Gen2<i16, i32>),
}

impl Shape for Generic2 {
    type Parts = Result<Gen1<i8>, Gen2<i16, i32>>;

    open spec fn shape(&self) -> Result<i8, (i16, i32)> {
        match self {
            Generic2::G1(g) => Ok(g.model()),
            Generic2::G2(g) => Err(g.model()),
        }
    }

    fn assemble(parts: Result<Gen1<i8>, Gen2<i16, i32>>) -> (r: Generic2) {
        match parts {
            Ok(g) => Generic2::G1(g),
            Err(g) => Generic2::G2(g),
        }
    }
}

impl EveryVariant for Generic2 {
    type Model = Result<i8, (i16, i32)>;

    open spec fn model(&self) -> Self::Model {
        self.shape()
    }

    open spec fn variants() -> Seq<Self::Model> {
        <Self as Shape>::Parts::variants()
    }

    fn every_variant() -> (r: Vec<Generic2>) {
        let r = derive_variants::<Generic2>();
        assert(r@.map_values(|v: Generic2| v.model()) =~= r@.map_values(|v: Generic2| v.shape()));
        r
    }

    fn for_every_variant<F: Fn(&Generic2)>(closure: F) {
        let all = Self::every_variant();
        let mut i: usize = 0;
        while i < all.len()
            invariant
                forall|v: &Generic2| #[trigger] closure.requires((v,)),
            decreases all.len() - i,
        {
            closure(&all[i]);
            i = i + 1;
        }
    }
}

/// An enum whose variants have one, two and three named fields.
#[derive(Debug, Clone)]
pub enum TestNamed1 {
    NamedSingle { first: u16 },
    NamedMultiple1 { first: u16, second: u32 },
    NamedMultiple2 { first: u16, second: u32, third: u64 },
}

impl Shape for TestNamed1 {
    type Parts = Result<u16, Result<(u16, u32), (u16, (u32, u64))>>;

    open spec fn shape(&self) -> Result<u16, Result<(u16, u32), (u16, (u32, u64))>> {
        match self {
            TestNamed1::NamedSingle { first } => Ok(*first),
            TestNamed1::NamedMultiple1 { first, second } => Err(Ok((*first, *second))),
            TestNamed1::NamedMultiple2 { first, second, third } => Err(
                Err((*first, (*second, *third))),
            ),
        }
    }

    fn assemble(parts: Result<u16, Result<(u16, u32), (u16, (u32, u64))>>) -> (r: TestNamed1) {
        match parts {
            Ok(first) => TestNamed1::NamedSingle { first },
            Err(Ok((first, second))) => TestNamed1::NamedMultiple1 { first, second },
            Err(Err((first, (second, third)))) => TestNamed1::NamedMultiple2 {
                first,
                second,
                third,
            },
        }
    }
}

impl EveryVariant for TestNamed1 {
    type Model = Result<u16, Result<(u16, u32), (u16, (u32, u64))>>;

    open spec fn model(&self) -> Self::Model {
        self.shape()
    }

    open spec fn variants() -> Seq<Self::Model> {
        <Self as Shape>::Parts::variants()
    }

    fn every_variant() -> (r: Vec<TestNamed1>) {
        let r = derive_variants::<TestNamed1>();
        assert(r@.map_values(|v: TestNamed1| v.model()) =~= r@.map_values(|v: TestNamed1| v.shape()));
        r
    }

    fn for_every_variant<F: Fn(&TestNamed1)>(closure: F) {
        let all = Self::every_variant();
        let mut i: usize = 0;
        while i < all.len()
            invariant
                forall|v: &TestNamed1| #[trigger] closure.requires((v,)),
            decreases all.len() - i,
        {
            closure(&all[i]);
            i = i + 1;
        }
    }
}

/// A struct with one named field of any type.
#[derive(Debug, Clone)]
pub struct GenericDerive<T> {
    pub value: T,
}

impl<T: EveryVariant> Shape for GenericDerive<T> {
    type Parts = T;

    open spec fn shape(&self) -> T::Model {
        self.value.model()
    }

    fn assemble(parts: T) -> (r: GenericDerive<T>) {
        GenericDerive { value: parts }
    }
}

impl<T: EveryVariant> EveryVariant for GenericDerive<T> {
    type Model = T::Model;

    open spec fn model(&self) -> Self::Model {
        self.shape()
    }

    open spec fn variants() -> Seq<Self::Model> {
        <Self as Shape>::Parts::variants()
    }

    fn every_variant() -> (r: Vec<GenericDerive<T>>) {
        let r = derive_variants::<GenericDerive<T>>();
        assert(r@.map_values(|v: GenericDerive<T>| v.model()) =~= r@.map_values(|v: GenericDerive<T>| v.shape()));
        r
    }
}

/// An enum with a variant of any type and a variant of a fixed type.
#[derive(Debug, Clone)]
pub enum GenericEnum<T> {
    One(T),
    Two(u32),
}

impl<T: EveryVariant> Shape for GenericEnum<T> {
    type Parts = Result<T, u32>;

    open spec fn shape(&self) -> Result<T::Model, u32> {
        match self {
            GenericEnum::One(t) => Ok(t.model()),
            GenericEnum::Two(n) => Err(*n),
        }
    }

    fn assemble(parts: Result<T, u32>) -> (r: GenericEnum<T>) {
        match parts {
            Ok(t) => GenericEnum::One(t),
            Err(n) => GenericEnum::Two(n),
        }
    }
}

impl<T: EveryVariant> EveryVariant for GenericEnum<T> {
    type Model = Result<T::Model, u32>;

    open spec fn model(&self) -> Self::Model {
        self.shape()
    }

    open spec fn variants() -> Seq<Self::Model> {
        <Self as Shape>::Parts::variants()
    }

    fn every_variant() -> (r: Vec<GenericEnum<T>>) {
        let r = derive_variants::<GenericEnum<T>>();
        assert(r@.map_values(|v: GenericEnum<T>| v.model()) =~= r@.map_values(|v: GenericEnum<T>| v.shape()));
        r
    }

    fn for_every_variant<F: Fn(&GenericEnum<T>)>(closure: F) {
        let all = Self::every_variant();
        let mut i: usize = 0;
        while i < all.len()
            invariant
                forall|v: &GenericEnum<T>| #[trigger] closure.requires((v,)),
            decreases all.len() - i,
        {
            closure(&all[i]);
            i = i + 1;
        }
    }
}

/// A struct with two unnamed fields of any types.
#[derive(Debug, Clone)]
pub struct MultiGeneric<A, B>(pub A, pub B);

impl<A: EveryVariant, B: EveryVariant> Shape for MultiGeneric<A, B> {
    type Parts = (A, B);

    open spec fn shape(&self) -> (A::Model, B::Model) {
        (self.0.model(), self.1.model())
    }

    fn assemble(parts: (A, B)) -> (r: MultiGeneric<A, B>) {
        proof {
            assert(parts.model() == (parts.0.model(), parts.1.model()));
        }
        let (a, b) = parts;
        MultiGeneric(a, b)
    }
}

impl<A: EveryVariant, B: EveryVariant> EveryVariant for MultiGeneric<A, B> {
    type Model = (A::Model, B::Model);

    open spec fn model(&self) -> Self::Model {
        self.shape()
    }

    open spec fn variants() -> Seq<Self::Model> {
        <Self as Shape>::Parts::variants()
    }

    fn every_variant() -> (r: Vec<MultiGeneric<A, B>>) {
        let r = derive_variants::<MultiGeneric<A, B>>();
        assert(r@.map_values(|v: MultiGeneric<A, B>| v.model()) =~= r@.map_values(|v: MultiGeneric<A, B>| v.shape()));
        r
    }
}

} // verus!
