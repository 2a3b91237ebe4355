use vstd::prelude::*;

verus! {

/// The drive level of one discrete output line.
#[derive(Clone, Copy, Debug, PartialEq, Eq, Structural)]
pub enum PinLevel {
    Low,
    High,
}

} // verus!
