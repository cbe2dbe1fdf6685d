use vstd::prelude::*;

verus! {

/// The codec families the engine can be asked to decode.
#[derive(Debug, Clone, Copy, PartialEq, Eq, Structural)]
pub enum Codec {
    J2K,
    JP2,
    JPP,
    JPT,
    JPX,
}

impl Codec {
    /// The engine-native code of each codec family.
    pub open spec fn spec_to_i32(self) -> i32 {
        match self {
            Codec::J2K => 0,
            Codec::JPT => 1,
            Codec::JP2 => 2,
            Codec::JPP => 3,
            Codec::JPX => 4,
        }
    }

    pub fn to_i32(&self) -> (r: i32)
        ensures
            r == self.spec_to_i32(),
    {
        match *self {
            Codec::J2K => 0,
            Codec::JPT => 1,
            Codec::JP2 => 2,
            Codec::JPP => 3,
            Codec::JPX => 4,
        }
    }

    /// The JP2 container family, the common default.
    pub fn jp2() -> (r: Self)
        ensures
            r == Codec::JP2,
    {
        Codec::JP2
    }
}

} // verus!
