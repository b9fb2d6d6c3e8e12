use vstd::prelude::*;

verus! {

/// A scratchpad control: a labelled button bound to a form the runtime
/// evaluates when it is pressed.
#[derive(Debug)]
pub struct CoreButton {
    pub group: String,
    pub label: String,
    pub form: String,
}

impl CoreButton {
    pub fn new() -> (b: CoreButton)
        ensures
            b.group@ == Seq::<char>::empty(),
            b.label@ == Seq::<char>::empty(),
            b.form@ == Seq::<char>::empty(),
    {
        CoreButton { group: String::new(), label: String::new(), form: String::new() }
    }
}

/// A command the runtime can send back over its side channel.
#[derive(Debug)]
pub enum Eth {
    Defbutton { group: String, label: String, on_press: String },
}

} // verus!
