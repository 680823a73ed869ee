use vstd::prelude::*;

verus! {

/// The command that shows a password. It takes no argument of its own.
#[derive(Debug, Clone, Copy, PartialEq, Eq, Structural)]
pub struct Show {}

} // verus!
