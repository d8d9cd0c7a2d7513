use waycrust::config::resolve_key_name;

// The two lookups run against the input-layout library's keysym table; the
// raw results below are the table's documented answers for the names in the
// comments (0 standing for "no symbol").

#[test]
fn upper_case_q_stays_upper_case() {
    // "Q": the exact pass finds the upper-case symbol, the case-insensitive
    // pass would hand back the lower-case one.  The exact result must win.
    assert_eq!(resolve_key_name(0x51, 0x71), Some(0x51));
}

#[test]
fn lower_case_q_stays_lower_case() {
    // "q": both passes agree on the lower-case symbol.
    assert_eq!(resolve_key_name(0x71, 0x71), Some(0x71));
}

#[test]
fn miscased_names_fall_back_to_the_case_insensitive_pass() {
    // "return": the canonical name is "Return", so the exact pass fails and
    // the fallback finds the symbol.
    assert_eq!(resolve_key_name(0, 0xff0d), Some(0xff0d));
}

#[test]
fn invalid_names_resolve_to_nothing() {
    // A name neither pass knows is a hard configuration error.
    assert_eq!(resolve_key_name(0, 0), None);
}
