use vstd::prelude::*;

verus! {

/// How much effort a call spends on checking that it is used correctly, from
/// the least to the most.
#[derive(Clone, Copy, Debug, PartialEq, Eq, Structural, PartialOrd, Ord)]
pub enum DebugLevel {
    /// Only the checks that cannot be left out.
    Minimal,
    /// Also the very cheap checks.
    Low,
    /// Also the checks that cost not much more than the call itself.
    Basic,
    /// Also most of the expensive checks.
    High,
    /// All checks.
    All,
}

} // verus!
