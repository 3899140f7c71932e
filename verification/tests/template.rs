use react_refresh::template::{
    hmr_footer, hmr_header, matches_at, render_footer, render_header, substitute,
};

const HEADER: &str = r#"var RefreshRuntime = __rspack_require__('/react-refresh');
var prevRefreshReg;
var prevRefreshSig;
prevRefreshReg = globalThis.$RefreshReg$;
prevRefreshSig = globalThis.$RefreshSig$;
globalThis.$RefreshReg$ = (type, id) => {
  RefreshRuntime.register(type, "__SOURCE__" + "_" + id);
};
globalThis.$RefreshSig$ = RefreshRuntime.createSignatureFunctionForTransform;"#;

const FOOTER: &str = r#"var RefreshRuntime = __rspack_require__('/react-refresh');
globalThis.$RefreshReg$ = prevRefreshReg;
globalThis.$RefreshSig$ = prevRefreshSig;
module.hot.accept();
RefreshRuntime.queueUpdate();
"#;

#[test]
fn header_text_is_verbatim() {
    assert_eq!(hmr_header(), HEADER);
}

#[test]
fn footer_text_is_verbatim() {
    assert_eq!(hmr_footer(), FOOTER);
    assert_eq!(render_footer(), FOOTER);
}

#[test]
fn header_holds_the_placeholder_once() {
    assert_eq!(hmr_header().matches("__SOURCE__").count(), 1);
    assert_eq!(hmr_footer().matches("__SOURCE__").count(), 0);
}

#[test]
fn rendered_header_holds_the_id_in_place_of_the_placeholder() {
    let text = render_header("src/App.js");
    assert_eq!(text.matches("__SOURCE__").count(), 0);
    assert_eq!(text.matches("src/App.js").count(), 1);
    assert!(text.contains("  RefreshRuntime.register(type, \"src/App.js\" + \"_\" + id);\n"));
    let at = HEADER.find("__SOURCE__").unwrap();
    assert_eq!(&text[..at], &HEADER[..at]);
    assert_eq!(&text[at..at + 10], "src/App.js");
    assert_eq!(&text[at + 10..], &HEADER[at + 10..]);
}

#[test]
fn rendered_header_agrees_with_textual_replacement() {
    for id in ["", "a", "src/app.js", "__SOURCE__", "_SOURCE__", "\"__SOURCE", "päth/ü.js"] {
        assert_eq!(render_header(id), HEADER.replace("__SOURCE__", id));
    }
}

#[test]
fn substitute_replaces_every_occurrence() {
    assert_eq!(substitute("a-b-c", "-", "+"), "a+b+c");
    assert_eq!(substitute("xx__SOURCE__yy__SOURCE__", "__SOURCE__", "id"), "xxidyyid");
}

#[test]
fn substitute_goes_left_to_right_without_overlap() {
    assert_eq!(substitute("aaa", "aa", "b"), "ba");
    assert_eq!(substitute("aaaa", "aa", "b"), "bb");
}

#[test]
fn substitute_does_not_search_what_it_put_in() {
    assert_eq!(substitute("ab", "a", "aa"), "aab");
}

#[test]
fn substitute_without_occurrence_is_identity() {
    assert_eq!(substitute("hello", "xyz", "q"), "hello");
    assert_eq!(substitute("", "xyz", "q"), "");
    assert_eq!(substitute("xy", "xyz", "q"), "xy");
}

#[test]
fn substitute_with_empty_token_is_identity() {
    assert_eq!(substitute("hello", "", "q"), "hello");
}

#[test]
fn substitute_counts_characters_not_bytes() {
    assert_eq!(substitute("üxü", "x", "é"), "üéü");
}

#[test]
fn matches_at_tests_one_position() {
    assert!(matches_at("hello", "ell", 1));
    assert!(!matches_at("hello", "ell", 0));
    assert!(!matches_at("hello", "lo!", 3));
    assert!(matches_at("hello", "", 5));
    assert!(!matches_at("hello", "", 6));
}
