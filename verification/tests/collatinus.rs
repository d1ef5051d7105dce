use plato_core::collatinus::{
    has_interior_nul, load_state, lookup_answer, lookup_step, panel_content, LoadState, LookupStep,
    LOADING_HTML, UNAVAILABLE_HTML,
};

#[test]
fn lookup_returns_loading_placeholder_when_not_ready() {
    match lookup_step(LoadState::Loading, "amor") {
        LookupStep::Answer(result) => {
            assert_eq!(result.len(), 1);
            assert!(result[0][1].contains("loading"));
            assert_eq!(result[0][0], "");
            assert_eq!(result[0][1], LOADING_HTML);
        }
        LookupStep::Query => panic!("a lookup before loading must not reach the engine"),
    }
}

#[test]
fn lookup_after_failed_load_says_unavailable() {
    match lookup_step(LoadState::Failed, "amor") {
        LookupStep::Answer(result) => {
            assert_eq!(result.len(), 1);
            assert_eq!(result[0][0], "");
            assert_eq!(result[0][1], "<p>Latin dictionary unavailable.</p>");
            assert_eq!(result[0][1], UNAVAILABLE_HTML);
            assert!(!result[0][1].contains("loading"));
        }
        LookupStep::Query => panic!("a failed engine must not be asked"),
    }
}

#[test]
fn load_state_from_flags() {
    assert_eq!(load_state(false, false), LoadState::Loading);
    assert_eq!(load_state(false, true), LoadState::Failed);
    assert_eq!(load_state(true, false), LoadState::Ready);
    assert_eq!(load_state(true, true), LoadState::Ready);
}

#[test]
fn panel_content_follows_load_state() {
    assert_eq!(panel_content(LoadState::Loading, || panic!("not asked while loading")), LOADING_HTML);
    assert_eq!(panel_content(LoadState::Failed, || panic!("not asked after failure")), UNAVAILABLE_HTML);
    assert_eq!(panel_content(LoadState::Ready, || "<p>amour</p>".to_string()), "<p>amour</p>");
}

#[test]
fn ready_lookup_queries_engine() {
    assert!(matches!(lookup_step(LoadState::Ready, "amor"), LookupStep::Query));
}

#[test]
fn word_with_nul_has_no_entries() {
    match lookup_step(LoadState::Ready, "am\0or") {
        LookupStep::Answer(result) => assert!(result.is_empty()),
        LookupStep::Query => panic!("a word with a NUL cannot be handed to the engine"),
    }
    // while loading, the placeholder comes first
    match lookup_step(LoadState::Loading, "am\0or") {
        LookupStep::Answer(result) => assert_eq!(result.len(), 1),
        LookupStep::Query => panic!("a lookup before loading must not reach the engine"),
    }
}

#[test]
fn interior_nul_detection() {
    assert!(!has_interior_nul(""));
    assert!(!has_interior_nul("rosa"));
    assert!(!has_interior_nul("\u{2026}é"));
    assert!(has_interior_nul("\0"));
    assert!(has_interior_nul("rosa\0"));
}

#[test]
fn engine_reply_becomes_entry() {
    let entries = lookup_answer("amor", Some("<p>amour</p>".to_string()));
    assert_eq!(entries.len(), 1);
    assert_eq!(entries[0][0], "amor");
    assert_eq!(entries[0][1], "<p>amour</p>");
    let none = lookup_answer("amor", None);
    assert!(none.is_empty());
}
