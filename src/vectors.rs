use vstd::prelude::*;

verus! {

/// A coordinate axis of a three-component vector.
#[derive(Clone, Copy, Debug, PartialEq, Eq, Structural)]
pub enum Axis {
    X,
    Y,
    Z,
}

/// A channel of a color held in a three-component vector.
#[derive(Clone, Copy, Debug, PartialEq, Eq, Structural)]
pub enum Colors {
    R,
    G,
    B,
}

impl Axis {
    /// Index of the component that this axis addresses.
    pub open spec fn slot_spec(self) -> nat {
        match self {
            Axis::X => 0,
            Axis::Y => 1,
            Axis::Z => 2,
        }
    }

    /// Index of the component that this axis addresses, in storage order.
    pub fn slot(self) -> (r: usize)
        ensures
            r == self.slot_spec(),
            r < 3,
    {
        match self {
            Axis::X => 0,
            Axis::Y => 1,
            Axis::Z => 2,
        }
    }
}

impl Colors {
    /// Index of the component that this channel addresses.
    pub open spec fn slot_spec(self) -> nat {
        match self {
            Colors::R => 0,
            Colors::G => 1,
            Colors::B => 2,
        }
    }

    /// Index of the component that this channel addresses, in storage order.
    pub fn slot(self) -> (r: usize)
        ensures
            r == self.slot_spec(),
            r < 3,
    {
        match self {
            Colors::R => 0,
            Colors::G => 1,
            Colors::B => 2,
        }
    }
}

} // verus!
