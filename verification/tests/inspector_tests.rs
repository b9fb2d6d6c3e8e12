use eth::inspector::{InspectorMessage, InspectorTab, NavError};

fn strings(items: &[&str]) -> Vec<String> {
    items.iter().map(|s| s.to_string()).collect()
}

fn ok(text: &str) -> Result<String, String> {
    Ok(text.to_string())
}

fn fault(text: &str) -> Result<String, String> {
    Err(text.to_string())
}

/// A tab with namespaces fetched, ":mu" selected, and symbol "sym"
/// populated with keys (a;b) paired to reprs (r1;r2).
fn populated() -> InspectorTab {
    let mut tab = InspectorTab::new();
    tab.refresh_apply(ok("(:mu :core)")).unwrap();
    tab.select_namespace_apply(":mu".to_string(), ok("(sym other)")).unwrap();
    tab.select_symbol_apply("sym".to_string(), ok("a symbol"), ok("(a;b)"), ok("(r1;r2)"))
        .unwrap();
    tab
}

#[test]
fn refresh_plans_one_fetch_then_none() {
    let mut tab = InspectorTab::new();
    assert_eq!(tab.refresh_query().as_deref(), Some("(mu:ns-map)"));
    tab.refresh_apply(ok("(:mu :core)")).unwrap();
    // idempotent: the list is cached, a second refresh plans no fetch
    assert_eq!(tab.refresh_query(), None);
    assert_eq!(tab.namespaces(), &Some(strings(&[":core", ":mu"])));
}

#[test]
fn refresh_sorts_namespaces() {
    let mut tab = InspectorTab::new();
    tab.refresh_apply(ok("(zeta Alpha beta)")).unwrap();
    assert_eq!(tab.namespaces(), &Some(strings(&["Alpha", "beta", "zeta"])));
}

#[test]
fn refresh_fault_leaves_nothing() {
    let mut tab = InspectorTab::new();
    let r = tab.refresh_apply(fault("boom"));
    assert_eq!(r, Err(NavError::QueryFault("boom".to_string())));
    assert_eq!(tab.namespaces(), &None);
    assert!(tab.refresh_query().is_some());
}

#[test]
fn refresh_decode_fault() {
    let mut tab = InspectorTab::new();
    let r = tab.refresh_apply(ok(""));
    assert_eq!(r, Err(NavError::DecodeFault));
    assert_eq!(tab.namespaces(), &None);
}

#[test]
fn select_namespace_query_text() {
    let tab = InspectorTab::new();
    assert_eq!(tab.select_namespace_query(":mu"), "(mu:ns-syms :list :mu)");
}

#[test]
fn select_namespace_sets_sorted_symbols() {
    let mut tab = InspectorTab::new();
    tab.select_namespace_apply(":mu".to_string(), ok("(cdr Car apply)")).unwrap();
    assert_eq!(tab.namespace(), &Some(":mu".to_string()));
    assert_eq!(tab.namespace_symbols(), &Some(strings(&["apply", "Car", "cdr"])));
}

#[test]
fn cascade_new_namespace_clears_deeper_rungs() {
    let mut tab = populated();
    tab.select_symbol_tag_key_apply("a".to_string(), ok("(k;)"), ok("(v;)")).unwrap();
    tab.select_namespace_apply(":core".to_string(), ok("(x y)")).unwrap();
    // the namespace cache survives, everything below the namespace is gone
    assert!(tab.namespaces().is_some());
    assert_eq!(tab.namespace(), &Some(":core".to_string()));
    assert_eq!(tab.namespace_symbols(), &Some(strings(&["x", "y"])));
    assert_eq!(tab.symbol(), &None);
    assert_eq!(tab.symbol_info(), &None);
    assert_eq!(tab.symbol_tag_keys(), &None);
    assert_eq!(tab.symbol_tag_reprs(), &None);
    assert_eq!(tab.symbol_tag_key(), &None);
    assert_eq!(tab.symbol_tag_repr(), &None);
    assert_eq!(tab.inspect_tag_key(), &None);
    assert_eq!(tab.inspect_tag_keys(), &None);
    assert_eq!(tab.inspect_tag_repr(), &None);
    assert_eq!(tab.inspect_tag_reprs(), &None);
}

#[test]
fn symbol_queries_texts() {
    let mut tab = InspectorTab::new();
    tab.select_namespace_apply(":mu".to_string(), ok("(sym)")).unwrap();
    let (c0, c1, c2) = tab.select_symbol_queries(&"sym".to_string());
    assert_eq!(c0, "(eth:inspect 'mu:sym)");
    assert_eq!(c1, "(eth:inspect-tag-keys 'mu:sym)");
    assert_eq!(c2, "(eth:inspect-tag-values 'mu:sym)");
}

#[test]
fn symbol_apply_pairs_keys_and_reprs() {
    let tab = populated();
    assert_eq!(tab.symbol(), &Some("sym".to_string()));
    assert_eq!(tab.symbol_info(), &Some("a symbol".to_string()));
    assert_eq!(tab.symbol_tag_keys(), &Some(strings(&["a", "b"])));
    assert_eq!(tab.symbol_tag_reprs(), &Some(strings(&["r1", "r2"])));
}

#[test]
fn cascade_new_symbol_clears_key_rungs() {
    let mut tab = populated();
    tab.select_symbol_tag_key_apply("b".to_string(), ok("(k;)"), ok("(v;)")).unwrap();
    tab.select_symbol_apply("other".to_string(), ok("descr"), ok("(c;d)"), ok("(r3;r4)"))
        .unwrap();
    // rungs at and below the symbol change; the namespace rung stays
    assert_eq!(tab.namespace(), &Some(":mu".to_string()));
    assert_eq!(tab.symbol(), &Some("other".to_string()));
    assert_eq!(tab.symbol_tag_keys(), &Some(strings(&["c", "d"])));
    assert_eq!(tab.symbol_tag_key(), &None);
    assert_eq!(tab.symbol_tag_repr(), &None);
    assert_eq!(tab.inspect_tag_key(), &None);
    assert_eq!(tab.inspect_tag_keys(), &None);
}

#[test]
fn symbol_apply_mismatched_pair_lengths_rejected() {
    let mut tab = InspectorTab::new();
    tab.select_namespace_apply(":mu".to_string(), ok("(sym)")).unwrap();
    let r = tab.select_symbol_apply("sym".to_string(), ok("d"), ok("(a;b)"), ok("(r1)"));
    assert_eq!(r, Err(NavError::DecodeFault));
    assert_eq!(tab.symbol(), &None);
}

#[test]
fn symbol_apply_fault_leaves_rung_unchanged() {
    let mut tab = InspectorTab::new();
    tab.select_namespace_apply(":mu".to_string(), ok("(sym)")).unwrap();
    let r = tab.select_symbol_apply("sym".to_string(), fault("down"), ok("(a;b)"), ok("(r1;r2)"));
    assert_eq!(r, Err(NavError::QueryFault("down".to_string())));
    assert_eq!(tab.symbol(), &None);
    assert_eq!(tab.namespace(), &Some(":mu".to_string()));
}

#[test]
fn tag_key_queries_resolve_paired_repr() {
    let tab = populated();
    let (c0, c1) = tab.select_symbol_tag_key_queries(&"b".to_string()).unwrap();
    assert_eq!(c0, "(eth:inspect-repr-tag-keys r2)");
    assert_eq!(c1, "(eth:inspect-repr-tag-values r2)");
}

#[test]
fn tag_key_lookup_error() {
    let tab = populated();
    let r = tab.select_symbol_tag_key_queries(&"missing".to_string());
    assert_eq!(r, Err(NavError::LookupError));
}

#[test]
fn ambiguous_key_resolves_to_first_match() {
    let mut tab = InspectorTab::new();
    tab.select_namespace_apply(":mu".to_string(), ok("(sym)")).unwrap();
    tab.select_symbol_apply("sym".to_string(), ok("d"), ok("(x;x)"), ok("(r1;r2)")).unwrap();
    let (c0, _) = tab.select_symbol_tag_key_queries(&"x".to_string()).unwrap();
    // K = ["x", "x"]: selecting "x" resolves to V[0], the first match
    assert_eq!(c0, "(eth:inspect-repr-tag-keys r1)");
}

#[test]
fn tag_key_apply_populates_inspect_rung() {
    let mut tab = populated();
    tab.select_symbol_tag_key_apply("a".to_string(), ok("(k1;k2)"), ok("(v1;v2)")).unwrap();
    assert_eq!(tab.symbol_tag_key(), &Some("a".to_string()));
    assert_eq!(tab.symbol_tag_repr(), &Some("r1".to_string()));
    assert_eq!(tab.inspect_tag_key(), &Some("a".to_string()));
    assert_eq!(tab.inspect_tag_repr(), &Some("r1".to_string()));
    assert_eq!(tab.inspect_tag_keys(), &Some(strings(&["k1", "k2"])));
    assert_eq!(tab.inspect_tag_reprs(), &Some(strings(&["v1", "v2"])));
}

#[test]
fn inspect_tag_key_drills_deeper() {
    let mut tab = populated();
    tab.select_symbol_tag_key_apply("a".to_string(), ok("(k1;k2)"), ok("(v1;v2)")).unwrap();
    let (c0, _) = tab.select_inspect_tag_key_queries(&"k2".to_string()).unwrap();
    assert_eq!(c0, "(eth:inspect-repr-tag-keys v2)");
    tab.select_inspect_tag_key_apply("k2".to_string(), ok("(m;)"), ok("(w;)")).unwrap();
    // the deepest rung replaced itself; the symbol rung's choice is kept
    assert_eq!(tab.inspect_tag_key(), &Some("k2".to_string()));
    assert_eq!(tab.inspect_tag_repr(), &Some("v2".to_string()));
    assert_eq!(tab.inspect_tag_keys(), &Some(strings(&["m", ""])));
    assert_eq!(tab.symbol_tag_key(), &Some("a".to_string()));
    assert_eq!(tab.symbol_tag_repr(), &Some("r1".to_string()));
}

#[test]
fn render_query_follows_inspected_repr() {
    let mut tab = populated();
    assert_eq!(tab.inspect_render_query(), None);
    tab.select_symbol_tag_key_apply("a".to_string(), ok("(k;)"), ok("(v;)")).unwrap();
    assert_eq!(tab.inspect_render_query().as_deref(), Some("(eth:inspect-repr r1)"));
}

#[test]
fn clear_preserves_namespace_cache() {
    let mut tab = populated();
    tab.clear();
    // the cached namespace list survives a clear: no new fetch is owed
    assert_eq!(tab.namespaces(), &Some(strings(&[":core", ":mu"])));
    assert_eq!(tab.refresh_query(), None);
    assert_eq!(tab.namespace(), &None);
    assert_eq!(tab.namespace_symbols(), &None);
    assert_eq!(tab.symbol(), &None);
    assert_eq!(tab.symbol_info(), &None);
    assert_eq!(tab.symbol_tag_keys(), &None);
    assert_eq!(tab.symbol_tag_reprs(), &None);
}

#[test]
fn message_driven_flow() {
    let mut tab = InspectorTab::new();
    // refresh plans one fetch, then none
    let plan = tab.queries(&InspectorMessage::Refresh).unwrap();
    assert_eq!(plan, vec!["(mu:ns-map)".to_string()]);
    tab.update(InspectorMessage::Refresh, vec![ok("(:mu)")]).unwrap();
    assert_eq!(tab.queries(&InspectorMessage::Refresh).unwrap(), Vec::<String>::new());
    tab.update(InspectorMessage::Refresh, vec![]).unwrap();

    let msg = InspectorMessage::SelectNamespace(":mu".to_string());
    assert_eq!(tab.queries(&msg).unwrap(), vec!["(mu:ns-syms :list :mu)".to_string()]);
    tab.update(msg, vec![ok("(sym)")]).unwrap();

    let msg = InspectorMessage::SelectSymbol("sym".to_string());
    assert_eq!(
        tab.queries(&msg).unwrap(),
        vec![
            "(eth:inspect 'mu:sym)".to_string(),
            "(eth:inspect-tag-keys 'mu:sym)".to_string(),
            "(eth:inspect-tag-values 'mu:sym)".to_string(),
        ]
    );
    tab.update(msg, vec![ok("descr"), ok("(a;b)"), ok("(r1;r2)")]).unwrap();

    let msg = InspectorMessage::SelectSymbolTagKey("a".to_string());
    assert_eq!(
        tab.queries(&msg).unwrap(),
        vec![
            "(eth:inspect-repr-tag-keys r1)".to_string(),
            "(eth:inspect-repr-tag-values r1)".to_string(),
        ]
    );
    tab.update(msg, vec![ok("(k;)"), ok("(v;)")]).unwrap();
    assert_eq!(tab.inspect_tag_keys(), &Some(strings(&["k", ""])));

    let missing = InspectorMessage::SelectInspectTagKey("zzz".to_string());
    assert_eq!(tab.queries(&missing), Err(NavError::LookupError));

    tab.update(InspectorMessage::Clear, vec![]).unwrap();
    assert!(tab.namespaces().is_some());
    assert_eq!(tab.symbol(), &None);
}

#[test]
fn trim_helpers() {
    assert_eq!(InspectorTab::trimr("abc"), "ab");
    assert_eq!(InspectorTab::triml("abc"), "bc");
    assert_eq!(InspectorTab::trimr(""), "");
    assert_eq!(InspectorTab::triml(""), "");
}

#[test]
fn list_helpers() {
    assert_eq!(InspectorTab::list_to_vec("(b a)").unwrap(), strings(&["b", "a"]));
    assert_eq!(InspectorTab::list_to_sorted_vec("(b a)").unwrap(), strings(&["a", "b"]));
}
