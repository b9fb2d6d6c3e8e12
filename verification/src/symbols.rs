use crate::codec::{decode_spec, sort_ci};
use crate::inspector::{
    is_query_fault, ns_map_cmd, ns_syms_cmd, odv_list, odv_text, triml_s, InspectorTab, NavError,
};
use vstd::prelude::*;

verus! {

/// The command that asks for a symbol's description.
pub open spec fn describe_cmd(ns: Seq<char>, sym: Seq<char>) -> Seq<char> {
    "(core:describe '"@ + triml_s(ns) + ":"@ + sym + ")"@
}

/// A selection event from the symbols panel.
#[derive(Debug, Clone)]
pub enum SymbolsMessage {
    SelectSymbol(String),
    SelectNamespace(String),
    Refresh,
}

/// The two-rung forerunner of the drill-down engine: a namespace list,
/// one selected namespace with its symbol list, and one selected symbol
/// with its description text. Fetches follow the same query/apply split
/// as [`InspectorTab`].
pub struct SymbolsTab {
    namespaces: Option<Vec<String>>,
    selected_ns: Option<String>,
    symbols: Option<Vec<String>>,
    selected_symbol: Option<String>,
    describe: Option<String>,
}

impl SymbolsTab {
    pub closed spec fn namespaces_m(self) -> Option<Seq<Seq<char>>> {
        odv_list(self.namespaces)
    }

    pub closed spec fn selected_ns_m(self) -> Option<Seq<char>> {
        odv_text(self.selected_ns)
    }

    pub closed spec fn symbols_m(self) -> Option<Seq<Seq<char>>> {
        odv_list(self.symbols)
    }

    pub closed spec fn selected_symbol_m(self) -> Option<Seq<char>> {
        odv_text(self.selected_symbol)
    }

    pub closed spec fn describe_m(self) -> Option<Seq<char>> {
        odv_text(self.describe)
    }

    /// Each rung is populated only under a populated parent.
    pub open spec fn wf(self) -> bool {
        &&& (self.symbols_m() is Some <==> self.selected_ns_m() is Some)
        &&& (self.selected_symbol_m() is Some ==> self.selected_ns_m() is Some)
        &&& (self.describe_m() is Some <==> self.selected_symbol_m() is Some)
    }

    pub fn new() -> (t: SymbolsTab)
        ensures
            t.wf(),
            t.namespaces_m() is None,
            t.selected_ns_m() is None,
            t.symbols_m() is None,
            t.selected_symbol_m() is None,
            t.describe_m() is None,
    {
        SymbolsTab {
            namespaces: None,
            selected_ns: None,
            symbols: None,
            selected_symbol: None,
            describe: None,
        }
    }

    /// The command a refresh must put to the port: `Some` exactly when
    /// the namespace list has not been fetched yet.
    pub fn refresh_query(&self) -> (r: Option<String>)
        ensures
            r is Some <==> self.namespaces_m() is None,
            r is Some ==> r->0@ == ns_map_cmd(),
    {
        match &self.namespaces {
            Some(_) => None,
            None => Some(String::from_str("(mu:ns-map)")),
        }
    }

    /// Commits a refresh: on success the decoded, sorted namespace list
    /// is cached; on a fault or malformed text nothing changes.
    pub fn refresh_apply(&mut self, response: Result<String, String>) -> (r: Result<(), NavError>)
        requires
            old(self).wf(),
            old(self).namespaces_m() is None,
        ensures
            final(self).wf(),
            symbols_refresh_post(*old(self), *final(self), response, r),
    {
        match response {
            Ok(text) => match InspectorTab::list_to_sorted_vec(text.as_str()) {
                Some(sorted) => {
                    self.namespaces = Some(sorted);
                    Ok(())
                },
                None => Err(NavError::DecodeFault),
            },
            Err(fault) => Err(NavError::QueryFault(fault)),
        }
    }

    /// The command that lists a namespace's symbols.
    pub fn select_namespace_query(&self, name: &str) -> (r: String)
        ensures
            r@ == ns_syms_cmd(name@),
    {
        let mut s = String::from_str("(mu:ns-syms :list ");
        s.append(name);
        s.append(")");
        s
    }

    /// Commits a namespace selection: the namespace and its decoded,
    /// sorted symbol list are set together and the symbol rung is
    /// cleared; on a fault or malformed text nothing changes.
    pub fn select_namespace_apply(&mut self, name: String, response: Result<String, String>) -> (r:
        Result<(), NavError>)
        requires
            old(self).wf(),
        ensures
            final(self).wf(),
            symbols_select_namespace_post(*old(self), *final(self), name@, response, r),
    {
        match response {
            Ok(text) => match InspectorTab::list_to_sorted_vec(text.as_str()) {
                Some(sorted) => {
                    self.selected_ns = Some(name);
                    self.symbols = Some(sorted);
                    self.selected_symbol = None;
                    self.describe = None;
                    Ok(())
                },
                None => Err(NavError::DecodeFault),
            },
            Err(fault) => Err(NavError::QueryFault(fault)),
        }
    }

    /// The command that asks the runtime for a symbol's description.
    pub fn describe_symbol(ns: &str, symbol: &String) -> (r: String)
        ensures
            r@ == describe_cmd(ns@, symbol@),
    {
        let mut s = String::from_str("(core:describe '");
        s.append(InspectorTab::triml(ns));
        s.append(":");
        s.append(symbol.as_str());
        s.append(")");
        s
    }

    /// The describe command a symbol selection must put to the port.
    pub fn select_symbol_query(&self, name: &String) -> (r: String)
        requires
            self.wf(),
            self.selected_ns_m() is Some,
        ensures
            r@ == describe_cmd(self.selected_ns_m()->0, name@),
    {
        let ns = self.selected_ns.as_ref().unwrap();
        Self::describe_symbol(ns.as_str(), name)
    }

    /// Commits a symbol selection: the symbol and the description the
    /// port returned for it are set together; the namespace rung is
    /// untouched. On a fault, nothing changes.
    pub fn select_symbol(&mut self, name: String, response: Result<String, String>) -> (r: Result<
        (),
        NavError,
    >)
        requires
            old(self).wf(),
            old(self).selected_ns_m() is Some,
        ensures
            final(self).wf(),
            symbols_select_symbol_post(*old(self), *final(self), name@, response, r),
    {
        match response {
            Ok(text) => {
                self.selected_symbol = Some(name);
                self.describe = Some(text);
                Ok(())
            },
            Err(fault) => Err(NavError::QueryFault(fault)),
        }
    }

    /// Commits one panel event, handing over the port's answer to the
    /// planned command, if one was planned. A refresh with the namespace
    /// list already cached takes no answer and changes nothing — so of
    /// consecutive refreshes without a clear, only the first can fetch.
    pub fn update(&mut self, message: SymbolsMessage, response: Option<Result<String, String>>)
        -> (r: Result<(), NavError>)
        requires
            old(self).wf(),
            match message {
                SymbolsMessage::Refresh => response is Some <==> old(self).namespaces_m() is None,
                SymbolsMessage::SelectNamespace(_) => response is Some,
                SymbolsMessage::SelectSymbol(_) => old(self).selected_ns_m() is Some && response
                    is Some,
            },
        ensures
            final(self).wf(),
            match message {
                SymbolsMessage::Refresh => if old(self).namespaces_m() is None {
                    symbols_refresh_post(*old(self), *final(self), response->0, r)
                } else {
                    r is Ok && *final(self) == *old(self)
                },
                SymbolsMessage::SelectNamespace(ref n) => symbols_select_namespace_post(
                    *old(self),
                    *final(self),
                    n@,
                    response->0,
                    r,
                ),
                SymbolsMessage::SelectSymbol(ref n) => symbols_select_symbol_post(
                    *old(self),
                    *final(self),
                    n@,
                    response->0,
                    r,
                ),
            },
    {
        match message {
            SymbolsMessage::Refresh => match response {
                None => Ok(()),
                Some(resp) => self.refresh_apply(resp),
            },
            SymbolsMessage::SelectNamespace(n) => self.select_namespace_apply(n, response.unwrap()),
            SymbolsMessage::SelectSymbol(n) => self.select_symbol(n, response.unwrap()),
        }
    }

    // ----- read access for the panels -----

    pub fn namespaces(&self) -> (r: &Option<Vec<String>>)
        ensures
            odv_list(*r) == self.namespaces_m(),
    {
        &self.namespaces
    }

    pub fn selected_ns(&self) -> (r: &Option<String>)
        ensures
            odv_text(*r) == self.selected_ns_m(),
    {
        &self.selected_ns
    }

    pub fn symbols(&self) -> (r: &Option<Vec<String>>)
        ensures
            odv_list(*r) == self.symbols_m(),
    {
        &self.symbols
    }

    pub fn selected_symbol(&self) -> (r: &Option<String>)
        ensures
            odv_text(*r) == self.selected_symbol_m(),
    {
        &self.selected_symbol
    }

    pub fn describe(&self) -> (r: &Option<String>)
        ensures
            odv_text(*r) == self.describe_m(),
    {
        &self.describe
    }
}

/// The selection rungs of both states agree.
pub open spec fn unchanged_rungs(a: SymbolsTab, b: SymbolsTab) -> bool {
    &&& b.selected_ns_m() == a.selected_ns_m()
    &&& b.symbols_m() == a.symbols_m()
    &&& b.selected_symbol_m() == a.selected_symbol_m()
    &&& b.describe_m() == a.describe_m()
}

/// What committing a refresh means: on success the decoded, sorted
/// namespace list is cached and the selection rungs are untouched; on a
/// fault or malformed text nothing changes.
pub open spec fn symbols_refresh_post(
    a: SymbolsTab,
    b: SymbolsTab,
    response: Result<String, String>,
    r: Result<(), NavError>,
) -> bool {
    &&& unchanged_rungs(a, b)
    &&& match response {
        Ok(text) => match decode_spec(text@, ' ') {
            Some(toks) => r is Ok && b.namespaces_m() == Some(sort_ci(toks)),
            None => r == Err::<(), NavError>(NavError::DecodeFault) && b.namespaces_m()
                == a.namespaces_m(),
        },
        Err(fault) => is_query_fault(r, fault@) && b.namespaces_m() == a.namespaces_m(),
    }
}

/// What committing a namespace selection means: on success the namespace
/// and its decoded, sorted symbol list are set together and the symbol
/// rung is cleared; on a fault or malformed text nothing changes.
pub open spec fn symbols_select_namespace_post(
    a: SymbolsTab,
    b: SymbolsTab,
    name: Seq<char>,
    response: Result<String, String>,
    r: Result<(), NavError>,
) -> bool {
    &&& b.namespaces_m() == a.namespaces_m()
    &&& match response {
        Ok(text) => match decode_spec(text@, ' ') {
            Some(toks) => {
                &&& r is Ok
                &&& b.selected_ns_m() == Some(name)
                &&& b.symbols_m() == Some(sort_ci(toks))
                &&& b.selected_symbol_m() is None
                &&& b.describe_m() is None
            },
            None => r == Err::<(), NavError>(NavError::DecodeFault) && unchanged_rungs(a, b),
        },
        Err(fault) => is_query_fault(r, fault@) && unchanged_rungs(a, b),
    }
}

/// What committing a symbol selection means: on success the symbol and
/// the description the port returned are set together, the namespace
/// rung untouched; on a fault nothing changes.
pub open spec fn symbols_select_symbol_post(
    a: SymbolsTab,
    b: SymbolsTab,
    name: Seq<char>,
    response: Result<String, String>,
    r: Result<(), NavError>,
) -> bool {
    &&& b.namespaces_m() == a.namespaces_m()
    &&& b.selected_ns_m() == a.selected_ns_m()
    &&& b.symbols_m() == a.symbols_m()
    &&& match response {
        Ok(text) => r is Ok && b.selected_symbol_m() == Some(name) && b.describe_m() == Some(
            text@,
        ),
        Err(fault) => is_query_fault(r, fault@) && b.selected_symbol_m() == a.selected_symbol_m()
            && b.describe_m() == a.describe_m(),
    }
}

} // verus!
