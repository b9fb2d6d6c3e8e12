use vstd::prelude::*;

verus! {

/// An event from the about panel.
#[derive(Debug, Clone)]
pub enum AboutMessage {
    Refresh,
}

} // verus!
