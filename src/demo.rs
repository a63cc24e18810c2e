use vstd::prelude::*;

use crate::derive::{derive_variants, Shape};
use crate::sampling::EveryVariant;

verus! {

/// A choice of three, with no data.
#[derive(Debug, Clone)]
pub enum Nested {
    First,
    Second,
    Third,
}

impl Shape for Nested {
    type Parts = Result<(), Result<(), ()>>;

    open spec fn shape(&self) -> Result<(), Result<(), ()>> {
        match self {
            Nested::First => Ok(()),
            Nested::Second => Err(Ok(())),
            Nested::Third => Err(Err(())),
        }
    }

    fn assemble(parts: Result<(), Result<(), ()>>) -> (r: Nested) {
        match parts {
            Ok(u) => {
                assert(parts.model() == Ok::<(), Result<(), ()>>(u.model()));
                Nested::First
            },
            Err(Ok(())) => Nested::Second,
            Err(Err(())) => Nested::Third,
        }
    }
}

impl EveryVariant for Nested {
    type Model = Result<(), Result<(), ()>>;

    open spec fn model(&self) -> Self::Model {
        self.shape()
    }

    open spec fn variants() -> Seq<Self::Model> {
        <Self as Shape>::Parts::variants()
    }

    fn every_variant() -> (r: Vec<Nested>) {
        let r = derive_variants::<Nested>();
        assert(r@.map_values(|v: Nested| v.model()) =~= r@.map_values(|v: Nested| v.shape()));
        r
    }

    fn for_every_variant<F: Fn(&Nested)>(closure: F) {
        let all = Self::every_variant();
        let mut i: usize = 0;
        while i < all.len()
            invariant
                forall|v: &Nested| #[trigger] closure.requires((v,)),
            decreases all.len() - i,
        {
            closure(&all[i]);
            i = i + 1;
        }
    }
}

/// Either nothing, or one of the three [`Nested`] choices.
#[derive(Debug, Clone)]
pub enum Top {
    One,
    Nested(Nested),
}

impl Shape for Top {
    type Parts = Result<(), Nested>;

    open spec fn shape(&self) -> Result<(), <Nested as EveryVariant>::Model> {
        match self {
            Top::One => Ok(()),
            Top::Nested(n) => Err(n.model()),
        }
    }

    fn assemble(parts: Result<(), Nested>) -> (r: Top) {
        match parts {
            Ok(u) => {
                assert(parts.model() == Ok::<(), <Nested as EveryVariant>::Model>(u.model()));
                Top::One
            },
            Err(n) => Top::Nested(n),
        }
    }
}

impl EveryVariant for Top {
    type Model = Result<(), <Nested as EveryVariant>::Model>;

    open spec fn model(&self) -> Self::Model {
        self.shape()
    }

    open spec fn variants() -> Seq<Self::Model> {
        <Self as Shape>::Parts::variants()
    }

    fn every_variant() -> (r: Vec<Top>) {
        let r = derive_variants::<Top>();
        assert(r@.map_values(|v: Top| v.model()) =~= r@.map_values(|v: Top| v.shape()));
        r
    }

    fn for_every_variant<F: Fn(&Top)>(closure: F) {
        let all = Self::every_variant();
        let mut i: usize = 0;
        while i < all.len()
            invariant
                forall|v: &Top| #[trigger] closure.requires((v,)),
            decreases all.len() - i,
        {
            closure(&all[i]);
            i = i + 1;
        }
    }
}

/// Three choices, the middle one holding a [`Nested`].
#[derive(Debug, Clone)]
pub enum SecondTop {
    One,
    Two(Nested),
    Three,
}

impl Shape for SecondTop {
    type Parts = Result<(), Result<Nested, ()>>;

    open spec fn shape(&self) -> Result<(), Result<<Nested as EveryVariant>::Model, ()>> {
        match self {
            SecondTop::One => Ok(()),
            SecondTop::Two(n) => Err(Ok(n.model())),
            SecondTop::Three => Err(Err(())),
        }
    }

    fn assemble(parts: Result<(), Result<Nested, ()>>) -> (r: SecondTop) {
        match parts {
            Ok(u) => {
                assert(parts.model() == Ok::<(), Result<<Nested as EveryVariant>::Model, ()>>(
                    u.model(),
                ));
                SecondTop::One
            },
            Err(Ok(n)) => SecondTop::Two(n),
            Err(Err(())) => SecondTop::Three,
        }
    }
}

impl EveryVariant for SecondTop {
    type Model = Result<(), Result<<Nested as EveryVariant>::Model, ()>>;

    open spec fn model(&self) -> Self::Model {
        self.shape()
    }

    open spec fn variants() -> Seq<Self::Model> {
        <Self as Shape>::Parts::variants()
    }

    fn every_variant() -> (r: Vec<SecondTop>) {
        let r = derive_variants::<SecondTop>();
        assert(r@.map_values(|v: SecondTop| v.model()) =~= r@.map_values(
            |v: SecondTop| v.shape(),
        ));
        r
    }

    fn for_every_variant<F: Fn(&SecondTop)>(closure: F) {
        let all = Self::every_variant();
        let mut i: usize = 0;
        while i < all.len()
            invariant
                forall|v: &SecondTop| #[trigger] closure.requires((v,)),
            decreases all.len() - i,
        {
            closure(&all[i]);
            i = i + 1;
        }
    }
}

/// A message with a text, a number and two nested choices.
#[derive(Debug, Clone)]
pub struct Message {
    pub message: String,
    pub number: u32,
    pub nest: Top,
    pub second: SecondTop,
}

impl Shape for Message {
    type Parts = (String, (u32, (Top, SecondTop)));

    open spec fn shape(&self) -> (
        Seq<char>,
        (u32, (<Top as EveryVariant>::Model, <SecondTop as EveryVariant>::Model)),
    ) {
        (self.message@, (self.number, (self.nest.model(), self.second.model())))
    }

    fn assemble(parts: (String, (u32, (Top, SecondTop)))) -> (r: Message) {
        proof {
            assert(parts.1.1.model() == (parts.1.1.0.model(), parts.1.1.1.model()));
            assert(parts.1.model() == (parts.1.0.model(), parts.1.1.model()));
            assert(parts.model() == (parts.0.model(), parts.1.model()));
        }
        let (message, (number, (nest, second))) = parts;
        Message { message, number, nest, second }
    }
}

impl EveryVariant for Message {
    type Model = (
        Seq<char>,
        (u32, (<Top as EveryVariant>::Model, <SecondTop as EveryVariant>::Model)),
    );

    open spec fn model(&self) -> Self::Model {
        self.shape()
    }

    open spec fn variants() -> Seq<Self::Model> {
        <Self as Shape>::Parts::variants()
    }

    fn every_variant() -> (r: Vec<Message>) {
        let r = derive_variants::<Message>();
        assert(r@.map_values(|v: Message| v.model()) =~= r@.map_values(|v: Message| v.shape()));
        r
    }
}

} // verus!
