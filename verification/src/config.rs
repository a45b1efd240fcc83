//! The settings that the user interface hands to the watcher.
use vstd::prelude::*;

verus! {

/// One hardware limit to watch, with its threshold.
///
/// For `Cpu` and `Memory` the threshold is a percentage of the whole, for
/// `Heat` it is a temperature in degrees Celsius.
#[allow(non_snake_case)]
#[derive(Clone, Copy, Debug, PartialEq, Eq, Structural)]
pub enum Limits {
    Cpu { Rate: u8 },
    Memory { Rate: u8 },
    Heat { Rate: u8 },
}

/// The kind of resource that a limit watches.
#[derive(Clone, Copy, Debug, PartialEq, Eq, Structural)]
pub enum Resource {
    Cpu,
    Memory,
    Heat,
}

impl Limits {
    /// The threshold of the limit.
    pub open spec fn spec_rate(self) -> u8 {
        match self {
            Limits::Cpu { Rate } => Rate,
            Limits::Memory { Rate } => Rate,
            Limits::Heat { Rate } => Rate,
        }
    }

    /// The resource that the limit watches.
    pub open spec fn spec_resource(self) -> Resource {
        match self {
            Limits::Cpu { .. } => Resource::Cpu,
            Limits::Memory { .. } => Resource::Memory,
            Limits::Heat { .. } => Resource::Heat,
        }
    }

    /// Returns the threshold of the limit.
    pub fn rate(&self) -> (r: u8)
        ensures
            r == self.spec_rate(),
    {
        match self {
            Limits::Cpu { Rate } => *Rate,
            Limits::Memory { Rate } => *Rate,
            Limits::Heat { Rate } => *Rate,
        }
    }

    /// Returns the resource that the limit watches.
    pub fn resource(&self) -> (r: Resource)
        ensures
            r == self.spec_resource(),
    {
        match self {
            Limits::Cpu { .. } => Resource::Cpu,
            Limits::Memory { .. } => Resource::Memory,
            Limits::Heat { .. } => Resource::Heat,
        }
    }
}

/// The sound effect applied to the alarm sound.
#[derive(Clone, Copy, Debug, PartialEq, Eq, Structural)]
pub enum SoundFx {
    NONE,
    SPEED125X,
    SPEED150X,
    SPEED175X,
    SPEED200X,
    SPEED250X,
    SPEED300X,
    BASSBOOST1,
    BASSBOOST2,
    BASSBOOST3,
    SLOWDOWN75X,
    SLOWDOWN50X,
    SLOWDOWN25X,
    SLOWDOWN15X,
}

} // verus!
