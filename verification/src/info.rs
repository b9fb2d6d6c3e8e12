use vstd::prelude::*;

verus! {

/// An event from the system-info panel.
#[derive(Debug, Clone)]
pub enum InfoMessage {
    Refresh,
}

} // verus!
