use panes::style::panes_styles;
use panes::text::{join, style_text};
use panes::PanesError;

#[test]
fn join_puts_the_separator_between_neighbours() {
    assert_eq!(join(&[], ", "), "");
    assert_eq!(join(&["a"], ", "), "a");
    assert_eq!(join(&["a", "b"], ", "), "a, b");
    assert_eq!(join(&["a", "", "c"], "-"), "a--c");
    assert_eq!(join(&["x", "y", "z"], ""), "xyz");
}

#[test]
fn style_text_writes_one_declaration_per_pair() {
    assert_eq!(style_text(&[]), "");
    assert_eq!(style_text(&[("color", "red")]), "color: red;");
    assert_eq!(
        style_text(&[("color", "red"), ("margin", "0 auto"), ("", "")]),
        "color: red; margin: 0 auto; : ;"
    );
}

#[test]
fn the_style_sheet_places_panes_absolutely() {
    let css = panes_styles();
    assert!(css.contains(".pane {"));
    assert!(css.contains("position: absolute;"));
    assert!(css.contains("overflow: hidden;"));
    assert_eq!(
        css,
        "\n    .pane {\n        position: absolute;\n        display: unset;\n        z-index: 1;\n        overflow: hidden;\n    }\n    "
    );
}

#[test]
fn every_error_has_its_sentence() {
    assert_eq!(PanesError::UseAfterDelete.message(), "This pane has already been deleted.");
    assert_eq!(
        PanesError::NotAllocated.message(),
        "Invalid pane handle, pane has never been allocated."
    );
    assert_eq!(
        PanesError::Locked.message(),
        "The Panes-internal data structure has dead-locked itself. This is most likely a bug in Panes."
    );
    assert_eq!(
        PanesError::NotInitialized.message(),
        "Called panes functions before initializing it. Call panes::init() to initialize to body."
    );
    assert_eq!(
        PanesError::AlreadyInitialized.message(),
        "Panes has already been initialized, cannot do it again."
    );
    assert_eq!(PanesError::MissingBody.message(), "No HTML body found.");
    assert_eq!(PanesError::MissingHead.message(), "No HTML head found.");
    assert_eq!(PanesError::MissingWindow.message(), "No Window.");
    assert_eq!(PanesError::MissingDocument.message(), "No Document.");
    assert_eq!(
        PanesError::MissingRoot("div-root".to_string()).message(),
        "HTML root element with id = div-root not found."
    );
    assert_eq!(
        PanesError::MissingChild.message(),
        "DOM child is missing which has been inserted before."
    );
    assert_eq!(PanesError::UndefinedSize.message(), "Pane has no size.");
    assert_eq!(
        PanesError::BrowserError("boom".to_string()).message(),
        "A browser-call returned an error: boom"
    );
    assert_eq!(PanesError::JsError("bad".to_string()).message(), "JS error: bad");
    assert_eq!(PanesError::JsCastError.message(), "JS Cast Error");
}
