use crate::codec::{decode_list, decode_spec, sort_ci, sort_strings_ci};
use vstd::prelude::*;

verus! {

// ----- errors -----

/// Why a navigation step was refused. Whenever one of these comes back,
/// the engine's state is exactly what it was before the step.
#[derive(Debug, Clone, PartialEq, Eq)]
pub enum NavError {
    /// The runtime port failed the fetch; carries the fault text.
    QueryFault(String),
    /// The fetched list text did not parse as a bracketed list, or the
    /// key and value lists of one owner did not pair up.
    DecodeFault,
    /// The selected field key is not in the current key list.
    LookupError,
}

// ----- option views -----

pub open spec fn odv_text(o: Option<String>) -> Option<Seq<char>> {
    match o {
        Some(s) => Some(s@),
        None => None,
    }
}

pub open spec fn odv_list(o: Option<Vec<String>>) -> Option<Seq<Seq<char>>> {
    match o {
        Some(v) => Some(v.deep_view()),
        None => None,
    }
}

// ----- first-match lookup -----

/// Is `key` one of `keys`?
pub open spec fn has_key(keys: Seq<Seq<char>>, key: Seq<char>) -> bool {
    exists|i: int| 0 <= i < keys.len() && keys[i] == key
}

/// The position of the first entry equal to `key`; meaningful only when
/// `has_key` holds.
pub open spec fn first_match(keys: Seq<Seq<char>>, key: Seq<char>) -> int
    decreases keys.len(),
{
    if keys.len() == 0 {
        0
    } else if keys[0] == key {
        0
    } else {
        1 + first_match(keys.drop_first(), key)
    }
}

/// When the key occurs, `first_match` points at its first occurrence.
pub proof fn lemma_first_match(keys: Seq<Seq<char>>, key: Seq<char>)
    requires
        has_key(keys, key),
    ensures
        0 <= first_match(keys, key) < keys.len(),
        keys[first_match(keys, key)] == key,
        forall|j: int| 0 <= j < first_match(keys, key) ==> keys[j] != key,
    decreases keys.len(),
{
    if keys.len() > 0 && keys[0] != key {
        assert(has_key(keys.drop_first(), key)) by {
            let i = choose|i: int| 0 <= i < keys.len() && keys[i] == key;
            assert(keys.drop_first()[i - 1] == key);
        }
        lemma_first_match(keys.drop_first(), key);
        assert(forall|j: int|
            0 <= j < first_match(keys, key) ==> #[trigger] keys[j] == if j == 0 {
                keys[0]
            } else {
                keys.drop_first()[j - 1]
            });
    }
}

/// Finds the first entry equal to `key`, if any.
pub(crate) fn position_of(keys: &Vec<String>, key: &String) -> (r: Option<usize>)
    ensures
        r is Some <==> has_key(keys.deep_view(), key@),
        r is Some ==> r->0 == first_match(keys.deep_view(), key@),
{
    let n = keys.len();
    let mut i: usize = 0;
    while i < n
        invariant
            i <= n,
            n == keys@.len(),
            forall|j: int| 0 <= j < i ==> keys.deep_view()[j] != key@,
        decreases n - i,
    {
        if keys[i] == *key {
            proof {
                assert(keys.deep_view()[i as int] == key@);
                lemma_first_match_prefix(keys.deep_view(), key@, i as int);
            }
            return Some(i);
        }
        proof {
            assert(keys.deep_view()[i as int] == keys@[i as int]@);
        }
        i = i + 1;
    }
    proof {
        assert(forall|j: int| 0 <= j < keys.deep_view().len() ==> keys.deep_view()[j] != key@);
    }
    None
}

/// If nothing before `i` equals the key and `keys[i]` does, the first
/// match is at `i`.
proof fn lemma_first_match_prefix(keys: Seq<Seq<char>>, key: Seq<char>, i: int)
    requires
        0 <= i < keys.len(),
        keys[i] == key,
        forall|j: int| 0 <= j < i ==> keys[j] != key,
    ensures
        has_key(keys, key),
        first_match(keys, key) == i,
    decreases i,
{
    if i > 0 {
        lemma_first_match_prefix(keys.drop_first(), key, i - 1);
    }
}

// ----- command templates -----

/// The namespace name with its leading marker character removed.
pub open spec fn triml_s(s: Seq<char>) -> Seq<char> {
    if s.len() == 0 {
        s
    } else {
        s.drop_first()
    }
}

/// The name with its last character removed.
pub open spec fn trimr_s(s: Seq<char>) -> Seq<char> {
    if s.len() == 0 {
        s
    } else {
        s.drop_last()
    }
}

pub open spec fn ns_map_cmd() -> Seq<char> {
    "(mu:ns-map)"@
}

pub open spec fn ns_syms_cmd(ns: Seq<char>) -> Seq<char> {
    "(mu:ns-syms :list "@ + ns + ")"@
}

pub open spec fn inspect_symbol_cmd(ns: Seq<char>, sym: Seq<char>) -> Seq<char> {
    "(eth:inspect '"@ + triml_s(ns) + ":"@ + sym + ")"@
}

pub open spec fn symbol_tag_keys_cmd(ns: Seq<char>, sym: Seq<char>) -> Seq<char> {
    "(eth:inspect-tag-keys '"@ + triml_s(ns) + ":"@ + sym + ")"@
}

pub open spec fn symbol_tag_values_cmd(ns: Seq<char>, sym: Seq<char>) -> Seq<char> {
    "(eth:inspect-tag-values '"@ + triml_s(ns) + ":"@ + sym + ")"@
}

pub open spec fn repr_tag_keys_cmd(repr: Seq<char>) -> Seq<char> {
    "(eth:inspect-repr-tag-keys "@ + repr + ")"@
}

pub open spec fn repr_tag_values_cmd(repr: Seq<char>) -> Seq<char> {
    "(eth:inspect-repr-tag-values "@ + repr + ")"@
}

pub open spec fn repr_render_cmd(repr: Seq<char>) -> Seq<char> {
    "(eth:inspect-repr "@ + repr + ")"@
}

// ----- the model -----

/// The abstract state of the drill-down engine: what is selected at each
/// rung and what was fetched for the rung below it. `None` everywhere
/// means the rung is not populated.
pub struct NavModel {
    /// The cached top-level namespace list, sorted for display.
    pub namespaces: Option<Seq<Seq<char>>>,
    /// The selected namespace.
    pub namespace: Option<Seq<char>>,
    /// The selected namespace's symbols, sorted for display.
    pub symbols: Option<Seq<Seq<char>>>,
    /// The selected symbol.
    pub symbol: Option<Seq<char>>,
    /// The selected symbol's description text.
    pub symbol_info: Option<Seq<char>>,
    /// The selected field key of the symbol rung.
    pub symbol_tag_key: Option<Seq<char>>,
    /// The symbol's field keys, in the runtime's order.
    pub symbol_tag_keys: Option<Seq<Seq<char>>>,
    /// The representation paired with the selected symbol field key.
    pub symbol_tag_repr: Option<Seq<char>>,
    /// The symbol's field representations, paired with the keys.
    pub symbol_tag_reprs: Option<Seq<Seq<char>>>,
    /// The selected field key at the deepest, self-replacing rung.
    pub inspect_tag_key: Option<Seq<char>>,
    /// That representation's own field keys, in the runtime's order.
    pub inspect_tag_keys: Option<Seq<Seq<char>>>,
    /// The representation under inspection.
    pub inspect_tag_repr: Option<Seq<char>>,
    /// Its field representations, paired with its keys.
    pub inspect_tag_reprs: Option<Seq<Seq<char>>>,
}

/// The deepest rung holds nothing.
pub open spec fn no_inspect(m: NavModel) -> bool {
    &&& m.inspect_tag_key is None
    &&& m.inspect_tag_keys is None
    &&& m.inspect_tag_repr is None
    &&& m.inspect_tag_reprs is None
}

/// No field key of the symbol rung is selected, and nothing deeper.
pub open spec fn no_symbol_tag(m: NavModel) -> bool {
    &&& m.symbol_tag_key is None
    &&& m.symbol_tag_repr is None
    &&& no_inspect(m)
}

/// No symbol is selected, and nothing deeper.
pub open spec fn no_symbol(m: NavModel) -> bool {
    &&& m.symbol is None
    &&& m.symbol_info is None
    &&& m.symbol_tag_keys is None
    &&& m.symbol_tag_reprs is None
    &&& no_symbol_tag(m)
}

/// No namespace is selected, and nothing deeper.
pub open spec fn no_namespace(m: NavModel) -> bool {
    &&& m.namespace is None
    &&& m.symbols is None
    &&& no_symbol(m)
}

/// Consistency of the drill-down state: each rung is populated only
/// under a populated parent, what is fetched together exists together,
/// and the field-key list of an owner is always exactly as long as its
/// field-value list (the pairing invariant).
pub open spec fn nav_wf(m: NavModel) -> bool {
    &&& (m.symbols is Some <==> m.namespace is Some)
    &&& (m.symbol is Some ==> m.namespace is Some)
    &&& (m.symbol_info is Some <==> m.symbol is Some)
    &&& (m.symbol_tag_keys is Some <==> m.symbol is Some)
    &&& (m.symbol_tag_reprs is Some <==> m.symbol is Some)
    &&& (m.symbol is Some ==> m.symbol_tag_keys->0.len() == m.symbol_tag_reprs->0.len())
    &&& (m.symbol_tag_key is Some ==> m.symbol is Some)
    &&& (m.symbol_tag_repr is Some <==> m.symbol_tag_key is Some)
    &&& (m.inspect_tag_key is Some ==> m.symbol_tag_key is Some)
    &&& (m.inspect_tag_keys is Some <==> m.inspect_tag_key is Some)
    &&& (m.inspect_tag_reprs is Some <==> m.inspect_tag_key is Some)
    &&& (m.inspect_tag_repr is Some <==> m.inspect_tag_key is Some)
    &&& (m.inspect_tag_key is Some ==> m.inspect_tag_keys->0.len() == m.inspect_tag_reprs->0.len())
}

// ----- the engine -----

/// The drill-down navigation engine over the runtime's object graph.
///
/// Every fetch is split in two: a `*_query` (or `*_queries`) function
/// hands the caller the exact command text to put to the runtime port,
/// and the matching `*_apply` function takes the port's answer and
/// commits the step. A step either updates the whole rung, clearing
/// every rung below it, or — on a port fault or malformed list text —
/// returns the error and leaves the state untouched.
pub struct InspectorTab {
    inspect_tag_key: Option<String>,
    inspect_tag_keys: Option<Vec<String>>,
    inspect_tag_repr: Option<String>,
    inspect_tag_reprs: Option<Vec<String>>,
    namespace: Option<String>,
    namespace_symbols: Option<Vec<String>>,
    namespaces: Option<Vec<String>>,
    symbol: Option<String>,
    symbol_info: Option<String>,
    symbol_tag_key: Option<String>,
    symbol_tag_keys: Option<Vec<String>>,
    symbol_tag_repr: Option<String>,
    symbol_tag_reprs: Option<Vec<String>>,
}

/// A selection event from the inspector panel.
#[derive(Debug, Clone)]
pub enum InspectorMessage {
    SelectSymbol(String),
    SelectNamespace(String),
    SelectSymbolTagKey(String),
    SelectInspectTagKey(String),
    Clear,
    Refresh,
}

impl InspectorTab {
    /// The abstract state.
    pub closed spec fn model(self) -> NavModel {
        NavModel {
            namespaces: odv_list(self.namespaces),
            namespace: odv_text(self.namespace),
            symbols: odv_list(self.namespace_symbols),
            symbol: odv_text(self.symbol),
            symbol_info: odv_text(self.symbol_info),
            symbol_tag_key: odv_text(self.symbol_tag_key),
            symbol_tag_keys: odv_list(self.symbol_tag_keys),
            symbol_tag_repr: odv_text(self.symbol_tag_repr),
            symbol_tag_reprs: odv_list(self.symbol_tag_reprs),
            inspect_tag_key: odv_text(self.inspect_tag_key),
            inspect_tag_keys: odv_list(self.inspect_tag_keys),
            inspect_tag_repr: odv_text(self.inspect_tag_repr),
            inspect_tag_reprs: odv_list(self.inspect_tag_reprs),
        }
    }

    pub open spec fn wf(self) -> bool {
        nav_wf(self.model())
    }

    pub fn new() -> (t: InspectorTab)
        ensures
            t.wf(),
            t.model().namespaces is None,
            no_namespace(t.model()),
    {
        InspectorTab {
            inspect_tag_key: None,
            inspect_tag_keys: None,
            inspect_tag_repr: None,
            inspect_tag_reprs: None,
            namespace: None,
            namespace_symbols: None,
            namespaces: None,
            symbol: None,
            symbol_info: None,
            symbol_tag_key: None,
            symbol_tag_keys: None,
            symbol_tag_repr: None,
            symbol_tag_reprs: None,
        }
    }

    /// The name with its last character removed.
    pub fn trimr(value: &str) -> (r: &str)
        ensures
            r@ == trimr_s(value@),
    {
        let n = value.unicode_len();
        if n == 0 {
            value
        } else {
            let r = value.substring_char(0, n - 1);
            proof {
                assert(r@ =~= value@.drop_last());
            }
            r
        }
    }

    /// The name with its first character removed.
    pub fn triml(value: &str) -> (r: &str)
        ensures
            r@ == triml_s(value@),
    {
        let n = value.unicode_len();
        if n == 0 {
            value
        } else {
            let r = value.substring_char(1, n);
            proof {
                assert(r@ =~= value@.drop_first());
            }
            r
        }
    }

    /// Decodes the runtime's space-separated list text.
    pub fn list_to_vec(text: &str) -> (r: Option<Vec<String>>)
        ensures
            r is Some <==> decode_spec(text@, ' ') is Some,
            r is Some ==> r->0.deep_view() == decode_spec(text@, ' ')->0,
    {
        decode_list(text, ' ')
    }

    /// Decodes the runtime's space-separated list text and sorts it for
    /// display.
    pub fn list_to_sorted_vec(text: &str) -> (r: Option<Vec<String>>)
        ensures
            r is Some <==> decode_spec(text@, ' ') is Some,
            r is Some ==> r->0.deep_view() == sort_ci(decode_spec(text@, ' ')->0),
    {
        match decode_list(text, ' ') {
            None => None,
            Some(tokens) => Some(sort_strings_ci(tokens)),
        }
    }

    /// Forgets every selection; the cached namespace list is kept, so a
    /// later refresh needs no further round trip.
    pub fn clear(&mut self)
        requires
            old(self).wf(),
        ensures
            final(self).wf(),
            final(self).model() == (NavModel {
                namespaces: old(self).model().namespaces,
                ..nav_model_empty()
            }),
    {
        self.namespace = None;
        self.namespace_symbols = None;
        self.inspect_tag_key = None;
        self.inspect_tag_keys = None;
        self.inspect_tag_repr = None;
        self.inspect_tag_reprs = None;
        self.symbol = None;
        self.symbol_info = None;
        self.symbol_tag_key = None;
        self.symbol_tag_keys = None;
        self.symbol_tag_repr = None;
        self.symbol_tag_reprs = None;
    }

    /// The command a refresh must put to the port: `Some` exactly when
    /// the namespace list has not been fetched yet, so a second refresh
    /// plans no fetch.
    pub fn refresh_query(&self) -> (r: Option<String>)
        ensures
            r is Some <==> self.model().namespaces is None,
            r is Some ==> r->0@ == ns_map_cmd(),
    {
        match &self.namespaces {
            Some(_) => None,
            None => Some(String::from_str("(mu:ns-map)")),
        }
    }

    /// Commits a refresh from the port's answer: on success the decoded,
    /// sorted namespace list is cached and nothing else changes; on a
    /// fault or malformed text nothing changes at all.
    pub fn refresh_apply(&mut self, response: Result<String, String>) -> (r: Result<(), NavError>)
        requires
            old(self).wf(),
            old(self).model().namespaces is None,
        ensures
            final(self).wf(),
            refresh_post(old(self).model(), final(self).model(), response, r),
    {
        match response {
            Ok(text) => match Self::list_to_sorted_vec(text.as_str()) {
                Some(sorted) => {
                    self.namespaces = Some(sorted);
                    Ok(())
                },
                None => Err(NavError::DecodeFault),
            },
            Err(fault) => Err(NavError::QueryFault(fault)),
        }
    }

    /// The command that lists a namespace's symbols.
    pub fn select_namespace_query(&self, name: &str) -> (r: String)
        ensures
            r@ == ns_syms_cmd(name@),
    {
        let mut s = String::from_str("(mu:ns-syms :list ");
        s.append(name);
        s.append(")");
        s
    }

    /// Commits a namespace selection: on success the namespace and its
    /// decoded, sorted symbol list are set together and every deeper
    /// rung is cleared; on a fault or malformed text nothing changes.
    pub fn select_namespace_apply(&mut self, name: String, response: Result<String, String>) -> (r:
        Result<(), NavError>)
        requires
            old(self).wf(),
        ensures
            final(self).wf(),
            select_namespace_post(old(self).model(), final(self).model(), name@, response, r),
    {
        match response {
            Ok(text) => match Self::list_to_sorted_vec(text.as_str()) {
                Some(sorted) => {
                    self.namespace = Some(name);
                    self.namespace_symbols = Some(sorted);
                    self.inspect_tag_key = None;
                    self.inspect_tag_keys = None;
                    self.inspect_tag_repr = None;
                    self.inspect_tag_reprs = None;
                    self.symbol = None;
                    self.symbol_info = None;
                    self.symbol_tag_key = None;
                    self.symbol_tag_keys = None;
                    self.symbol_tag_repr = None;
                    self.symbol_tag_reprs = None;
                    Ok(())
                },
                None => Err(NavError::DecodeFault),
            },
            Err(fault) => Err(NavError::QueryFault(fault)),
        }
    }
    /// The three commands a symbol selection must put to the port: the
    /// description, the field-key list and the field-value list.
    pub fn select_symbol_queries(&self, name: &String) -> (r: (String, String, String))
        requires
            self.wf(),
            self.model().namespace is Some,
        ensures
            r.0@ == inspect_symbol_cmd(self.model().namespace->0, name@),
            r.1@ == symbol_tag_keys_cmd(self.model().namespace->0, name@),
            r.2@ == symbol_tag_values_cmd(self.model().namespace->0, name@),
    {
        let ns = self.namespace.as_ref().unwrap();
        let tail = self.symbol_cmd_tail(ns, name);
        let mut c0 = String::from_str("(eth:inspect '");
        c0.append(tail.as_str());
        let mut c1 = String::from_str("(eth:inspect-tag-keys '");
        c1.append(tail.as_str());
        let mut c2 = String::from_str("(eth:inspect-tag-values '");
        c2.append(tail.as_str());
        (c0, c1, c2)
    }

    /// The shared `ns:sym)` tail of the three symbol commands.
    fn symbol_cmd_tail(&self, ns: &String, name: &String) -> (r: String)
        ensures
            r@ == triml_s(ns@) + ":"@ + name@ + ")"@,
    {
        let mut t = String::from_str(Self::triml(ns.as_str()));
        t.append(":");
        t.append(name.as_str());
        t.append(")");
        t
    }

    /// Commits a symbol selection: on success the symbol, its description
    /// and its paired field lists are set together, and every rung below
    /// the symbol is cleared; on a fault, malformed list text, or key and
    /// value lists of different lengths, nothing changes.
    pub fn select_symbol_apply(
        &mut self,
        name: String,
        info: Result<String, String>,
        keys_resp: Result<String, String>,
        reprs_resp: Result<String, String>,
    ) -> (r: Result<(), NavError>)
        requires
            old(self).wf(),
            old(self).model().namespace is Some,
        ensures
            final(self).wf(),
            select_symbol_post(
                old(self).model(),
                final(self).model(),
                name@,
                info,
                keys_resp,
                reprs_resp,
                r,
            ),
    {
        let info_text = match info {
            Ok(t) => t,
            Err(f) => {
                return Err(NavError::QueryFault(f));
            },
        };
        let keys_text = match keys_resp {
            Ok(t) => t,
            Err(f) => {
                return Err(NavError::QueryFault(f));
            },
        };
        let reprs_text = match reprs_resp {
            Ok(t) => t,
            Err(f) => {
                return Err(NavError::QueryFault(f));
            },
        };
        let keys = match decode_list(keys_text.as_str(), ';') {
            Some(k) => k,
            None => {
                return Err(NavError::DecodeFault);
            },
        };
        let reprs = match decode_list(reprs_text.as_str(), ';') {
            Some(v) => v,
            None => {
                return Err(NavError::DecodeFault);
            },
        };
        if keys.len() != reprs.len() {
            return Err(NavError::DecodeFault);
        }
        self.symbol = Some(name);
        self.symbol_info = Some(info_text);
        self.symbol_tag_keys = Some(keys);
        self.symbol_tag_reprs = Some(reprs);
        self.symbol_tag_key = None;
        self.symbol_tag_repr = None;
        self.inspect_tag_key = None;
        self.inspect_tag_keys = None;
        self.inspect_tag_repr = None;
        self.inspect_tag_reprs = None;
        Ok(())
    }

    /// The two commands a field-key selection at the symbol rung must put
    /// to the port, for the representation paired with the key's first
    /// occurrence; a key not in the list is a lookup error.
    pub fn select_symbol_tag_key_queries(&self, key: &String) -> (r: Result<
        (String, String),
        NavError,
    >)
        requires
            self.wf(),
            self.model().symbol is Some,
        ensures
            ({
                let ks = self.model().symbol_tag_keys->0;
                let vs = self.model().symbol_tag_reprs->0;
                if has_key(ks, key@) {
                    r matches Ok(cmds) && cmds.0@ == repr_tag_keys_cmd(
                        vs[first_match(ks, key@)],
                    ) && cmds.1@ == repr_tag_values_cmd(vs[first_match(ks, key@)])
                } else {
                    r == Err::<(String, String), NavError>(NavError::LookupError)
                }
            }),
    {
        let keys = self.symbol_tag_keys.as_ref().unwrap();
        match position_of(keys, key) {
            None => Err(NavError::LookupError),
            Some(ix) => {
                proof {
                    lemma_first_match(keys.deep_view(), key@);
                }
                let reprs = self.symbol_tag_reprs.as_ref().unwrap();
                let repr = &reprs[ix];
                Ok(Self::repr_queries(repr))
            },
        }
    }

    /// The field-key and field-value commands for one representation.
    fn repr_queries(repr: &String) -> (r: (String, String))
        ensures
            r.0@ == repr_tag_keys_cmd(repr@),
            r.1@ == repr_tag_values_cmd(repr@),
    {
        let mut c0 = String::from_str("(eth:inspect-repr-tag-keys ");
        c0.append(repr.as_str());
        c0.append(")");
        let mut c1 = String::from_str("(eth:inspect-repr-tag-values ");
        c1.append(repr.as_str());
        c1.append(")");
        (c0, c1)
    }

    /// Commits a field-key selection at the symbol rung: the key and its
    /// paired representation are recorded both as the symbol-rung choice
    /// and as the subject of the deepest rung, whose own paired field
    /// lists are set from the port's answers; on a fault or bad lists,
    /// nothing changes.
    pub fn select_symbol_tag_key_apply(
        &mut self,
        key: String,
        keys_resp: Result<String, String>,
        reprs_resp: Result<String, String>,
    ) -> (r: Result<(), NavError>)
        requires
            old(self).wf(),
            old(self).model().symbol is Some,
            has_key(old(self).model().symbol_tag_keys->0, key@),
        ensures
            final(self).wf(),
            select_symbol_tag_key_post(
                old(self).model(),
                final(self).model(),
                key@,
                keys_resp,
                reprs_resp,
                r,
            ),
    {
        let keys_text = match keys_resp {
            Ok(t) => t,
            Err(f) => {
                return Err(NavError::QueryFault(f));
            },
        };
        let reprs_text = match reprs_resp {
            Ok(t) => t,
            Err(f) => {
                return Err(NavError::QueryFault(f));
            },
        };
        let ks = match decode_list(keys_text.as_str(), ';') {
            Some(k) => k,
            None => {
                return Err(NavError::DecodeFault);
            },
        };
        let vs = match decode_list(reprs_text.as_str(), ';') {
            Some(v) => v,
            None => {
                return Err(NavError::DecodeFault);
            },
        };
        if ks.len() != vs.len() {
            return Err(NavError::DecodeFault);
        }
        let keys = self.symbol_tag_keys.as_ref().unwrap();
        let ix = position_of(keys, &key).unwrap();
        proof {
            lemma_first_match(keys.deep_view(), key@);
        }
        let repr = self.symbol_tag_reprs.as_ref().unwrap()[ix].clone();
        self.symbol_tag_key = Some(key.clone());
        self.symbol_tag_repr = Some(repr.clone());
        self.inspect_tag_key = Some(key);
        self.inspect_tag_repr = Some(repr);
        self.inspect_tag_keys = Some(ks);
        self.inspect_tag_reprs = Some(vs);
        Ok(())
    }

    /// The two commands a field-key selection at the deepest rung must
    /// put to the port; the rung then drills into its own value, so the
    /// lookup goes through the deepest rung's key list.
    pub fn select_inspect_tag_key_queries(&self, key: &String) -> (r: Result<
        (String, String),
        NavError,
    >)
        requires
            self.wf(),
            self.model().inspect_tag_key is Some,
        ensures
            ({
                let ks = self.model().inspect_tag_keys->0;
                let vs = self.model().inspect_tag_reprs->0;
                if has_key(ks, key@) {
                    r matches Ok(cmds) && cmds.0@ == repr_tag_keys_cmd(
                        vs[first_match(ks, key@)],
                    ) && cmds.1@ == repr_tag_values_cmd(vs[first_match(ks, key@)])
                } else {
                    r == Err::<(String, String), NavError>(NavError::LookupError)
                }
            }),
    {
        let keys = self.inspect_tag_keys.as_ref().unwrap();
        match position_of(keys, key) {
            None => Err(NavError::LookupError),
            Some(ix) => {
                proof {
                    lemma_first_match(keys.deep_view(), key@);
                }
                let reprs = self.inspect_tag_reprs.as_ref().unwrap();
                let repr = &reprs[ix];
                Ok(Self::repr_queries(repr))
            },
        }
    }

    /// Commits a field-key selection at the deepest rung: the rung
    /// replaces itself with the chosen key, its paired representation
    /// and that representation's own field lists; the symbol rung's
    /// choice is kept. On a fault or bad lists, nothing changes.
    pub fn select_inspect_tag_key_apply(
        &mut self,
        key: String,
        keys_resp: Result<String, String>,
        reprs_resp: Result<String, String>,
    ) -> (r: Result<(), NavError>)
        requires
            old(self).wf(),
            old(self).model().inspect_tag_key is Some,
            has_key(old(self).model().inspect_tag_keys->0, key@),
        ensures
            final(self).wf(),
            select_inspect_tag_key_post(
                old(self).model(),
                final(self).model(),
                key@,
                keys_resp,
                reprs_resp,
                r,
            ),
    {
        let keys_text = match keys_resp {
            Ok(t) => t,
            Err(f) => {
                return Err(NavError::QueryFault(f));
            },
        };
        let reprs_text = match reprs_resp {
            Ok(t) => t,
            Err(f) => {
                return Err(NavError::QueryFault(f));
            },
        };
        let ks = match decode_list(keys_text.as_str(), ';') {
            Some(k) => k,
            None => {
                return Err(NavError::DecodeFault);
            },
        };
        let vs = match decode_list(reprs_text.as_str(), ';') {
            Some(v) => v,
            None => {
                return Err(NavError::DecodeFault);
            },
        };
        if ks.len() != vs.len() {
            return Err(NavError::DecodeFault);
        }
        let keys = self.inspect_tag_keys.as_ref().unwrap();
        let ix = position_of(keys, &key).unwrap();
        proof {
            lemma_first_match(keys.deep_view(), key@);
        }
        let repr = self.inspect_tag_reprs.as_ref().unwrap()[ix].clone();
        self.inspect_tag_key = Some(key);
        self.inspect_tag_repr = Some(repr);
        self.inspect_tag_keys = Some(ks);
        self.inspect_tag_reprs = Some(vs);
        Ok(())
    }

    /// The command that renders the representation under inspection, for
    /// the deepest panel's display; `None` while nothing is inspected.
    pub fn inspect_render_query(&self) -> (r: Option<String>)
        requires
            self.wf(),
        ensures
            r is Some <==> self.model().inspect_tag_repr is Some,
            r is Some ==> r->0@ == repr_render_cmd(self.model().inspect_tag_repr->0),
    {
        match &self.inspect_tag_repr {
            None => None,
            Some(repr) => {
                let mut c = String::from_str("(eth:inspect-repr ");
                c.append(repr.as_str());
                c.append(")");
                Some(c)
            },
        }
    }

    /// Plans one event: the commands, in order, that the caller must put
    /// to the port before committing the event through [`Self::update`].
    /// A refresh with the namespace list already cached plans nothing; a
    /// field-key event whose key is not in its rung's key list is a
    /// lookup error.
    pub fn queries(&self, message: &InspectorMessage) -> (r: Result<Vec<String>, NavError>)
        requires
            self.wf(),
            message matches InspectorMessage::SelectSymbol(_) ==> self.model().namespace is Some,
            message matches InspectorMessage::SelectSymbolTagKey(_) ==> self.model().symbol
                is Some,
            message matches InspectorMessage::SelectInspectTagKey(_)
                ==> self.model().inspect_tag_key is Some,
        ensures
            match *message {
                InspectorMessage::Refresh => r matches Ok(v) && v.deep_view()
                    == if self.model().namespaces is None {
                    seq![ns_map_cmd()]
                } else {
                    Seq::<Seq<char>>::empty()
                },
                InspectorMessage::Clear => r matches Ok(v) && v@.len() == 0,
                InspectorMessage::SelectNamespace(ref n) => r matches Ok(v) && v.deep_view()
                    == seq![ns_syms_cmd(n@)],
                InspectorMessage::SelectSymbol(ref n) => r matches Ok(v) && v.deep_view() == seq![
                    inspect_symbol_cmd(self.model().namespace->0, n@),
                    symbol_tag_keys_cmd(self.model().namespace->0, n@),
                    symbol_tag_values_cmd(self.model().namespace->0, n@),
                ],
                InspectorMessage::SelectSymbolTagKey(ref k) => {
                    let ks = self.model().symbol_tag_keys->0;
                    let vs = self.model().symbol_tag_reprs->0;
                    if has_key(ks, k@) {
                        r matches Ok(v) && v.deep_view() == seq![
                            repr_tag_keys_cmd(vs[first_match(ks, k@)]),
                            repr_tag_values_cmd(vs[first_match(ks, k@)]),
                        ]
                    } else {
                        r == Err::<Vec<String>, NavError>(NavError::LookupError)
                    }
                },
                InspectorMessage::SelectInspectTagKey(ref k) => {
                    let ks = self.model().inspect_tag_keys->0;
                    let vs = self.model().inspect_tag_reprs->0;
                    if has_key(ks, k@) {
                        r matches Ok(v) && v.deep_view() == seq![
                            repr_tag_keys_cmd(vs[first_match(ks, k@)]),
                            repr_tag_values_cmd(vs[first_match(ks, k@)]),
                        ]
                    } else {
                        r == Err::<Vec<String>, NavError>(NavError::LookupError)
                    }
                },
            },
    {
        let mut v: Vec<String> = Vec::new();
        match message {
            InspectorMessage::Refresh => {
                if let Some(cmd) = self.refresh_query() {
                    v.push(cmd);
                    proof {
                        assert(v.deep_view() =~= seq![ns_map_cmd()]);
                    }
                } else {
                    proof {
                        assert(v.deep_view() =~= Seq::<Seq<char>>::empty());
                    }
                }
                Ok(v)
            },
            InspectorMessage::Clear => Ok(v),
            InspectorMessage::SelectNamespace(n) => {
                v.push(self.select_namespace_query(n.as_str()));
                proof {
                    assert(v.deep_view() =~= seq![ns_syms_cmd(n@)]);
                }
                Ok(v)
            },
            InspectorMessage::SelectSymbol(n) => {
                let (c0, c1, c2) = self.select_symbol_queries(n);
                let ghost m = self.model();
                v.push(c0);
                v.push(c1);
                v.push(c2);
                proof {
                    assert(v.deep_view() =~= seq![
                        inspect_symbol_cmd(m.namespace->0, n@),
                        symbol_tag_keys_cmd(m.namespace->0, n@),
                        symbol_tag_values_cmd(m.namespace->0, n@),
                    ]);
                }
                Ok(v)
            },
            InspectorMessage::SelectSymbolTagKey(k) => {
                let (c0, c1) = match self.select_symbol_tag_key_queries(k) {
                    Ok(cmds) => cmds,
                    Err(e) => {
                        return Err(e);
                    },
                };
                let ghost ks = self.model().symbol_tag_keys->0;
                let ghost vs = self.model().symbol_tag_reprs->0;
                v.push(c0);
                v.push(c1);
                proof {
                    assert(v.deep_view() =~= seq![
                        repr_tag_keys_cmd(vs[first_match(ks, k@)]),
                        repr_tag_values_cmd(vs[first_match(ks, k@)]),
                    ]);
                }
                Ok(v)
            },
            InspectorMessage::SelectInspectTagKey(k) => {
                let (c0, c1) = match self.select_inspect_tag_key_queries(k) {
                    Ok(cmds) => cmds,
                    Err(e) => {
                        return Err(e);
                    },
                };
                let ghost ks = self.model().inspect_tag_keys->0;
                let ghost vs = self.model().inspect_tag_reprs->0;
                v.push(c0);
                v.push(c1);
                proof {
                    assert(v.deep_view() =~= seq![
                        repr_tag_keys_cmd(vs[first_match(ks, k@)]),
                        repr_tag_values_cmd(vs[first_match(ks, k@)]),
                    ]);
                }
                Ok(v)
            },
        }
    }

    /// Commits one event, handing over the port's answers to the planned
    /// commands in the same order. Each event's outcome is exactly that
    /// of its own apply function; a refresh with the list already cached
    /// commits nothing.
    pub fn update(&mut self, message: InspectorMessage, responses: Vec<Result<String, String>>)
        -> (r: Result<(), NavError>)
        requires
            old(self).wf(),
            match message {
                InspectorMessage::Refresh => responses@.len() == (
                if old(self).model().namespaces is None {
                    1int
                } else {
                    0int
                }),
                InspectorMessage::Clear => responses@.len() == 0,
                InspectorMessage::SelectNamespace(_) => responses@.len() == 1,
                InspectorMessage::SelectSymbol(_) => old(self).model().namespace is Some
                    && responses@.len() == 3,
                InspectorMessage::SelectSymbolTagKey(ref k) => old(self).model().symbol is Some
                    && has_key(old(self).model().symbol_tag_keys->0, k@) && responses@.len() == 2,
                InspectorMessage::SelectInspectTagKey(ref k) => old(self).model().inspect_tag_key
                    is Some && has_key(old(self).model().inspect_tag_keys->0, k@)
                    && responses@.len() == 2,
            },
        ensures
            final(self).wf(),
            match message {
                InspectorMessage::Refresh => if old(self).model().namespaces is None {
                    refresh_post(old(self).model(), final(self).model(), responses@[0], r)
                } else {
                    r is Ok && final(self).model() == old(self).model()
                },
                InspectorMessage::Clear => r is Ok && final(self).model() == (NavModel {
                    namespaces: old(self).model().namespaces,
                    ..nav_model_empty()
                }),
                InspectorMessage::SelectNamespace(ref n) => select_namespace_post(
                    old(self).model(),
                    final(self).model(),
                    n@,
                    responses@[0],
                    r,
                ),
                InspectorMessage::SelectSymbol(ref n) => select_symbol_post(
                    old(self).model(),
                    final(self).model(),
                    n@,
                    responses@[0],
                    responses@[1],
                    responses@[2],
                    r,
                ),
                InspectorMessage::SelectSymbolTagKey(ref k) => select_symbol_tag_key_post(
                    old(self).model(),
                    final(self).model(),
                    k@,
                    responses@[0],
                    responses@[1],
                    r,
                ),
                InspectorMessage::SelectInspectTagKey(ref k) => select_inspect_tag_key_post(
                    old(self).model(),
                    final(self).model(),
                    k@,
                    responses@[0],
                    responses@[1],
                    r,
                ),
            },
    {
        let mut rs = responses;
        match message {
            InspectorMessage::Refresh => {
                if rs.len() == 0 {
                    Ok(())
                } else {
                    let a = rs.remove(0);
                    self.refresh_apply(a)
                }
            },
            InspectorMessage::Clear => {
                self.clear();
                Ok(())
            },
            InspectorMessage::SelectNamespace(n) => {
                let a = rs.remove(0);
                self.select_namespace_apply(n, a)
            },
            InspectorMessage::SelectSymbol(n) => {
                let a = rs.remove(0);
                let b = rs.remove(0);
                let c = rs.remove(0);
                self.select_symbol_apply(n, a, b, c)
            },
            InspectorMessage::SelectSymbolTagKey(k) => {
                let a = rs.remove(0);
                let b = rs.remove(0);
                self.select_symbol_tag_key_apply(k, a, b)
            },
            InspectorMessage::SelectInspectTagKey(k) => {
                let a = rs.remove(0);
                let b = rs.remove(0);
                self.select_inspect_tag_key_apply(k, a, b)
            },
        }
    }

    // ----- read access for the panels -----

    pub fn namespaces(&self) -> (r: &Option<Vec<String>>)
        ensures
            odv_list(*r) == self.model().namespaces,
    {
        &self.namespaces
    }

    pub fn namespace(&self) -> (r: &Option<String>)
        ensures
            odv_text(*r) == self.model().namespace,
    {
        &self.namespace
    }

    pub fn namespace_symbols(&self) -> (r: &Option<Vec<String>>)
        ensures
            odv_list(*r) == self.model().symbols,
    {
        &self.namespace_symbols
    }

    pub fn symbol(&self) -> (r: &Option<String>)
        ensures
            odv_text(*r) == self.model().symbol,
    {
        &self.symbol
    }

    pub fn symbol_info(&self) -> (r: &Option<String>)
        ensures
            odv_text(*r) == self.model().symbol_info,
    {
        &self.symbol_info
    }

    pub fn symbol_tag_key(&self) -> (r: &Option<String>)
        ensures
            odv_text(*r) == self.model().symbol_tag_key,
    {
        &self.symbol_tag_key
    }

    pub fn symbol_tag_keys(&self) -> (r: &Option<Vec<String>>)
        ensures
            odv_list(*r) == self.model().symbol_tag_keys,
    {
        &self.symbol_tag_keys
    }

    pub fn symbol_tag_repr(&self) -> (r: &Option<String>)
        ensures
            odv_text(*r) == self.model().symbol_tag_repr,
    {
        &self.symbol_tag_repr
    }

    pub fn symbol_tag_reprs(&self) -> (r: &Option<Vec<String>>)
        ensures
            odv_list(*r) == self.model().symbol_tag_reprs,
    {
        &self.symbol_tag_reprs
    }

    pub fn inspect_tag_key(&self) -> (r: &Option<String>)
        ensures
            odv_text(*r) == self.model().inspect_tag_key,
    {
        &self.inspect_tag_key
    }

    pub fn inspect_tag_keys(&self) -> (r: &Option<Vec<String>>)
        ensures
            odv_list(*r) == self.model().inspect_tag_keys,
    {
        &self.inspect_tag_keys
    }

    pub fn inspect_tag_repr(&self) -> (r: &Option<String>)
        ensures
            odv_text(*r) == self.model().inspect_tag_repr,
    {
        &self.inspect_tag_repr
    }

    pub fn inspect_tag_reprs(&self) -> (r: &Option<Vec<String>>)
        ensures
            odv_list(*r) == self.model().inspect_tag_reprs,
    {
        &self.inspect_tag_reprs
    }
}

/// Does `r` carry a query fault with exactly this fault text?
pub open spec fn is_query_fault(r: Result<(), NavError>, fault: Seq<char>) -> bool {
    &&& r matches Err(e) && e matches NavError::QueryFault(t) && t@ == fault
}

/// What committing a refresh means: on success the decoded, sorted
/// namespace list is cached and nothing else changes; on a fault or
/// malformed text the state is untouched.
pub open spec fn refresh_post(
    m0: NavModel,
    m1: NavModel,
    response: Result<String, String>,
    r: Result<(), NavError>,
) -> bool {
    match response {
        Ok(text) => match decode_spec(text@, ' ') {
            Some(toks) => r is Ok && m1 == (NavModel { namespaces: Some(sort_ci(toks)), ..m0 }),
            None => r == Err::<(), NavError>(NavError::DecodeFault) && m1 == m0,
        },
        Err(fault) => is_query_fault(r, fault@) && m1 == m0,
    }
}

/// What committing a namespace selection means: on success the namespace
/// and its decoded, sorted symbol list are set together and every deeper
/// rung is cleared; otherwise the state is untouched.
pub open spec fn select_namespace_post(
    m0: NavModel,
    m1: NavModel,
    name: Seq<char>,
    response: Result<String, String>,
    r: Result<(), NavError>,
) -> bool {
    match response {
        Ok(text) => match decode_spec(text@, ' ') {
            Some(toks) => r is Ok && m1 == (NavModel {
                namespaces: m0.namespaces,
                namespace: Some(name),
                symbols: Some(sort_ci(toks)),
                ..nav_model_empty()
            }),
            None => r == Err::<(), NavError>(NavError::DecodeFault) && m1 == m0,
        },
        Err(fault) => is_query_fault(r, fault@) && m1 == m0,
    }
}

/// What committing a symbol selection means: on success the symbol, its
/// description and its paired field lists are set together, the rungs
/// below the symbol cleared; on a fault, malformed text or key and value
/// lists of different lengths, the state is untouched. Of several
/// faults, the description's is reported first, then the key list's.
pub open spec fn select_symbol_post(
    m0: NavModel,
    m1: NavModel,
    name: Seq<char>,
    info: Result<String, String>,
    keys_resp: Result<String, String>,
    reprs_resp: Result<String, String>,
    r: Result<(), NavError>,
) -> bool {
    match (info, keys_resp, reprs_resp) {
        (Ok(i), Ok(kt), Ok(vt)) => match (decode_spec(kt@, ';'), decode_spec(vt@, ';')) {
            (Some(ks), Some(vs)) => if ks.len() == vs.len() {
                r is Ok && m1 == (NavModel {
                    namespaces: m0.namespaces,
                    namespace: m0.namespace,
                    symbols: m0.symbols,
                    symbol: Some(name),
                    symbol_info: Some(i@),
                    symbol_tag_keys: Some(ks),
                    symbol_tag_reprs: Some(vs),
                    ..nav_model_empty()
                })
            } else {
                r == Err::<(), NavError>(NavError::DecodeFault) && m1 == m0
            },
            _ => r == Err::<(), NavError>(NavError::DecodeFault) && m1 == m0,
        },
        (Err(f), _, _) => is_query_fault(r, f@) && m1 == m0,
        (Ok(_), Err(f), _) => is_query_fault(r, f@) && m1 == m0,
        (Ok(_), Ok(_), Err(f)) => is_query_fault(r, f@) && m1 == m0,
    }
}

/// What committing a field-key selection at the symbol rung means: the
/// key and the representation paired with its first occurrence become
/// both the symbol-rung choice and the subject of the deepest rung,
/// whose own paired lists are set together; otherwise untouched.
pub open spec fn select_symbol_tag_key_post(
    m0: NavModel,
    m1: NavModel,
    key: Seq<char>,
    keys_resp: Result<String, String>,
    reprs_resp: Result<String, String>,
    r: Result<(), NavError>,
) -> bool {
    let repr = m0.symbol_tag_reprs->0[first_match(m0.symbol_tag_keys->0, key)];
    match (keys_resp, reprs_resp) {
        (Ok(kt), Ok(vt)) => match (decode_spec(kt@, ';'), decode_spec(vt@, ';')) {
            (Some(ks), Some(vs)) => if ks.len() == vs.len() {
                r is Ok && m1 == (NavModel {
                    symbol_tag_key: Some(key),
                    symbol_tag_repr: Some(repr),
                    inspect_tag_key: Some(key),
                    inspect_tag_repr: Some(repr),
                    inspect_tag_keys: Some(ks),
                    inspect_tag_reprs: Some(vs),
                    ..m0
                })
            } else {
                r == Err::<(), NavError>(NavError::DecodeFault) && m1 == m0
            },
            _ => r == Err::<(), NavError>(NavError::DecodeFault) && m1 == m0,
        },
        (Err(f), _) => is_query_fault(r, f@) && m1 == m0,
        (Ok(_), Err(f)) => is_query_fault(r, f@) && m1 == m0,
    }
}

/// What committing a field-key selection at the deepest rung means: the
/// rung replaces itself with the chosen key, its paired representation
/// and that representation's own field lists; the symbol rung's choice
/// is kept; otherwise untouched.
pub open spec fn select_inspect_tag_key_post(
    m0: NavModel,
    m1: NavModel,
    key: Seq<char>,
    keys_resp: Result<String, String>,
    reprs_resp: Result<String, String>,
    r: Result<(), NavError>,
) -> bool {
    let repr = m0.inspect_tag_reprs->0[first_match(m0.inspect_tag_keys->0, key)];
    match (keys_resp, reprs_resp) {
        (Ok(kt), Ok(vt)) => match (decode_spec(kt@, ';'), decode_spec(vt@, ';')) {
            (Some(ks), Some(vs)) => if ks.len() == vs.len() {
                r is Ok && m1 == (NavModel {
                    inspect_tag_key: Some(key),
                    inspect_tag_repr: Some(repr),
                    inspect_tag_keys: Some(ks),
                    inspect_tag_reprs: Some(vs),
                    ..m0
                })
            } else {
                r == Err::<(), NavError>(NavError::DecodeFault) && m1 == m0
            },
            _ => r == Err::<(), NavError>(NavError::DecodeFault) && m1 == m0,
        },
        (Err(f), _) => is_query_fault(r, f@) && m1 == m0,
        (Ok(_), Err(f)) => is_query_fault(r, f@) && m1 == m0,
    }
}

/// The pairing invariant, as a law: in a well-formed state whose symbol
/// rung is populated, the key list and the value list have the same
/// length, and a key whose first occurrence is at `i` resolves to the
/// value at `i` — so with all keys distinct, selecting `K[i]` always
/// resolves to `V[i]`.
pub proof fn lemma_pairing(m: NavModel, i: int)
    requires
        nav_wf(m),
        m.symbol is Some,
        0 <= i < m.symbol_tag_keys->0.len(),
        forall|j: int| 0 <= j < i ==> m.symbol_tag_keys->0[j] != m.symbol_tag_keys->0[i],
    ensures
        m.symbol_tag_keys->0.len() == m.symbol_tag_reprs->0.len(),
        has_key(m.symbol_tag_keys->0, m.symbol_tag_keys->0[i]),
        first_match(m.symbol_tag_keys->0, m.symbol_tag_keys->0[i]) == i,
{
    lemma_first_match_prefix(m.symbol_tag_keys->0, m.symbol_tag_keys->0[i], i);
}

/// The state with nothing fetched and nothing selected.
pub open spec fn nav_model_empty() -> NavModel {
    NavModel {
        namespaces: None,
        namespace: None,
        symbols: None,
        symbol: None,
        symbol_info: None,
        symbol_tag_key: None,
        symbol_tag_keys: None,
        symbol_tag_repr: None,
        symbol_tag_reprs: None,
        inspect_tag_key: None,
        inspect_tag_keys: None,
        inspect_tag_repr: None,
        inspect_tag_reprs: None,
    }
}

} // verus!
