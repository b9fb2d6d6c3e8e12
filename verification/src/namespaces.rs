use vstd::prelude::*;

verus! {

/// An event from the namespaces panel.
#[derive(Debug, Clone)]
pub enum NamespacesMessage {
    Refresh,
}

/// The built-in namespace names the panel shows.
pub open spec fn default_names() -> Seq<Seq<char>> {
    seq!["nil"@, "mu"@, "core"@]
}

/// The static namespaces overview panel.
pub struct NamespacesTab {
    names: Vec<String>,
}

impl NamespacesTab {
    pub closed spec fn names_model(self) -> Seq<Seq<char>> {
        self.names.deep_view()
    }

    pub fn new() -> (t: NamespacesTab)
        ensures
            t.names_model() == default_names(),
    {
        let mut names: Vec<String> = Vec::new();
        names.push(String::from_str("nil"));
        names.push(String::from_str("mu"));
        names.push(String::from_str("core"));
        let t = NamespacesTab { names };
        proof {
            assert(t.names_model() =~= default_names());
        }
        t
    }

    /// A refresh restores the built-in name list.
    pub fn update(&mut self, message: NamespacesMessage)
        ensures
            final(self).names_model() == default_names(),
    {
        match message {
            NamespacesMessage::Refresh => {
                let mut names: Vec<String> = Vec::new();
                names.push(String::from_str("nil"));
                names.push(String::from_str("mu"));
                names.push(String::from_str("core"));
                self.names = names;
                proof {
                    assert(self.names_model() =~= default_names());
                }
            },
        }
    }

    pub fn names(&self) -> (r: &Vec<String>)
        ensures
            r.deep_view() == self.names_model(),
    {
        &self.names
    }
}

} // verus!
