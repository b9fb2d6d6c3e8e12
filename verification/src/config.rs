use vstd::prelude::*;

verus! {

/// Window geometry settings; every field may be absent or explicitly null.
pub struct Window {
    pub size: Option<Option<(u32, u32)>>,
    pub min_size: Option<Option<(u32, u32)>>,
    pub max_size: Option<Option<(u32, u32)>>,
    pub resizable: Option<Option<bool>>,
}

/// Text console settings; every field may be absent or explicitly null.
pub struct TextUi {
    pub rows: Option<Option<usize>>,
    pub cursor: Option<Option<usize>>,
}

/// The application configuration as read from the user's config file;
/// an absent or null section falls back to built-in defaults.
pub struct Config {
    pub window: Option<Option<Window>>,
    pub textui: Option<Option<TextUi>>,
    pub mu: Option<Option<String>>,
}

impl Window {
    pub open spec fn spec_size(config: Config) -> (u32, u32) {
        match config.window {
            Some(Some(w)) => match w.size {
                Some(Some(t)) => t,
                _ => (1024, 768),
            },
            _ => (1024, 768),
        }
    }

    pub open spec fn spec_min_size(config: Config) -> (u32, u32) {
        match config.window {
            Some(Some(w)) => match w.min_size {
                Some(Some(t)) => t,
                _ => (1024, 768),
            },
            _ => (1024, 768),
        }
    }

    pub open spec fn spec_max_size(config: Config) -> (u32, u32) {
        match config.window {
            Some(Some(w)) => match w.max_size {
                Some(Some(t)) => t,
                _ => (1024, 768),
            },
            _ => (1024, 768),
        }
    }

    pub open spec fn spec_resizeable(config: Config) -> bool {
        match config.window {
            Some(Some(w)) => match w.resizable {
                Some(Some(b)) => b,
                _ => false,
            },
            _ => false,
        }
    }

    pub fn size(config: &Config) -> (r: (u32, u32))
        ensures
            r == Self::spec_size(*config),
    {
        match &config.window {
            Some(Some(window)) => match window.size {
                Some(Some(tuple)) => tuple,
                _ => (1024, 768),
            },
            _ => (1024, 768),
        }
    }

    pub fn min_size(config: &Config) -> (r: (u32, u32))
        ensures
            r == Self::spec_min_size(*config),
    {
        match &config.window {
            Some(Some(window)) => match window.min_size {
                Some(Some(tuple)) => tuple,
                _ => (1024, 768),
            },
            _ => (1024, 768),
        }
    }

    pub fn max_size(config: &Config) -> (r: (u32, u32))
        ensures
            r == Self::spec_max_size(*config),
    {
        match &config.window {
            Some(Some(window)) => match window.max_size {
                Some(Some(tuple)) => tuple,
                _ => (1024, 768),
            },
            _ => (1024, 768),
        }
    }

    pub fn resizeable(config: &Config) -> (r: bool)
        ensures
            r == Self::spec_resizeable(*config),
    {
        match &config.window {
            Some(Some(window)) => match window.resizable {
                Some(Some(resizeable)) => resizeable,
                _ => false,
            },
            _ => false,
        }
    }
}

impl TextUi {
    pub open spec fn spec_rows(config: Config) -> usize {
        match config.textui {
            Some(Some(t)) => match t.rows {
                Some(Some(r)) => r,
                _ => 25,
            },
            _ => 25,
        }
    }

    pub open spec fn spec_cursor(config: Config) -> usize {
        match config.textui {
            Some(Some(t)) => match t.cursor {
                Some(Some(c)) => c,
                _ => 0,
            },
            _ => 0,
        }
    }

    pub fn rows(config: &Config) -> (r: usize)
        ensures
            r == Self::spec_rows(*config),
    {
        match &config.textui {
            Some(Some(textui)) => match textui.rows {
                Some(Some(rows)) => rows,
                _ => 25,
            },
            _ => 25,
        }
    }

    pub fn cursor(config: &Config) -> (r: usize)
        ensures
            r == Self::spec_cursor(*config),
    {
        match &config.textui {
            Some(Some(textui)) => match textui.cursor {
                Some(Some(cursor)) => cursor,
                _ => 0,
            },
            _ => 0,
        }
    }
}

impl Config {
    pub open spec fn spec_mu(self) -> Seq<char> {
        match self.mu {
            Some(Some(s)) => s@,
            _ => Seq::empty(),
        }
    }

    /// The configured runtime options string, empty when unset.
    pub fn mu(&self) -> (r: String)
        ensures
            r@ == self.spec_mu(),
    {
        match &self.mu {
            Some(Some(string)) => string.clone(),
            _ => String::new(),
        }
    }
}

impl Default for Config {
    fn default() -> (c: Config)
        ensures
            c.window is None,
            c.textui is None,
            c.mu is None,
    {
        Config { window: None, textui: None, mu: None }
    }
}

impl Default for Window {
    fn default() -> (w: Window)
        ensures
            w.size is None,
            w.min_size is None,
            w.max_size is None,
            w.resizable is None,
    {
        Window { size: None, min_size: None, max_size: None, resizable: None }
    }
}

impl Default for TextUi {
    fn default() -> (t: TextUi)
        ensures
            t.rows is None,
            t.cursor is None,
    {
        TextUi { rows: None, cursor: None }
    }
}

} // verus!
