//! Components tagged with a zero-sized brand type, so that an engine of one
//! brand can only ever produce a transmission of that same brand.
use std::marker::PhantomData;
use vstd::prelude::*;

verus! {

/// A marker for a manufacturer; implemented by zero-sized brand types.
pub trait Brand {}

pub struct Honda;

impl Brand for Honda {}

pub struct Toyota;

impl Brand for Toyota {}

pub struct Ford;

impl Brand for Ford {}

/// A transmission carrying its brand only at the type level.
pub struct Transmission<B: Brand> {
    pub brand: PhantomData<B>,
}

impl<B: Brand> Transmission<B> {
    pub fn new() -> (r: Self) {
        Transmission { brand: PhantomData }
    }
}

/// An engine that can generate (and remember) a transmission of its own brand.
pub struct Engine<B: Brand> {
    pub transmission: Option<Transmission<B>>,
    pub brand: PhantomData<B>,
}

impl<B: Brand> Engine<B> {
    /// An engine that has not generated a transmission yet.
    pub fn new() -> (r: Self)
        ensures
            r.transmission.is_none(),
    {
        Engine { transmission: None, brand: PhantomData }
    }

    /// Records a fresh transmission in the engine and hands out another one
    /// of the same brand.
    pub fn generate_transmission(&mut self) -> (r: Option<Transmission<B>>)
        ensures
            r.is_some(),
            final(self).transmission.is_some(),
    {
        self.transmission = Some(Transmission::<B>::new());
        Some(Transmission::<B>::new())
    }
}

/// A car whose engine and transmission share one brand.
pub struct Car<B: Brand> {
    pub engine: Engine<B>,
    pub transmission: Option<Transmission<B>>,
}

impl<B: Brand> Car<B> {
    /// A car built around `engine`, without a transmission yet.
    pub fn new(engine: Engine<B>) -> (r: Self)
        ensures
            r.engine == engine,
            r.transmission.is_none(),
    {
        Car { transmission: None, engine }
    }

    /// Has the car's engine generate the car's transmission.
    pub fn generate_transmission(&mut self)
        ensures
            final(self).transmission.is_some(),
            final(self).engine.transmission.is_some(),
    {
        self.transmission = self.engine.generate_transmission();
    }
}

} // verus!
