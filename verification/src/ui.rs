use vstd::prelude::*;

verus! {

/// The status bar at the bottom of the window; it shows where the
/// configuration file is looked up.
pub struct StatusBar {
    config_path: String,
}

impl StatusBar {
    pub closed spec fn path_model(self) -> Seq<char> {
        self.config_path@
    }

    pub fn new() -> (s: StatusBar)
        ensures
            s.path_model() == "~/.config/eth/config.json"@,
    {
        StatusBar { config_path: String::from_str("~/.config/eth/config.json") }
    }

    pub fn config_path(&self) -> (r: String)
        ensures
            r@ == self.path_model(),
    {
        self.config_path.clone()
    }
}

/// What the tab bar logs at startup, given how the configuration was
/// loaded and whether the runtime's init environment came up.
pub open spec fn spec_startup_messages(config_found: Option<bool>, init_loaded: bool) -> Seq<
    Seq<char>,
> {
    (match config_found {
        Some(true) => seq!["eth: config directory missing, using default config"@],
        Some(false) => seq!["eth: using supplied config"@],
        None => seq!["eth: config file missing or damaged, using default"@],
    }) + if init_loaded {
        seq!["core: init environment active"@]
    } else {
        seq!["core: init environment missing or damaged"@, "core: many UI things will not work"@]
    }
}

/// The startup diagnostics, in the order the tab bar logs them.
pub fn startup_messages(config_found: Option<bool>, init_loaded: bool) -> (r: Vec<String>)
    ensures
        r.deep_view() == spec_startup_messages(config_found, init_loaded),
{
    let mut r: Vec<String> = Vec::new();
    match config_found {
        Some(true) => r.push(
            String::from_str("eth: config directory missing, using default config"),
        ),
        Some(false) => r.push(String::from_str("eth: using supplied config")),
        None => r.push(String::from_str("eth: config file missing or damaged, using default")),
    }
    if init_loaded {
        r.push(String::from_str("core: init environment active"));
    } else {
        r.push(String::from_str("core: init environment missing or damaged"));
        r.push(String::from_str("core: many UI things will not work"));
    }
    proof {
        assert(r.deep_view() =~= spec_startup_messages(config_found, init_loaded));
    }
    r
}

} // verus!
