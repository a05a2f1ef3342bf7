//! The style sheet that every pane relies on.

use vstd::prelude::*;
use vstd::string::*;

verus! {

/// The text of the style sheet: panes are placed absolutely, above the
/// content of the root, and clip what does not fit.
pub open spec fn spec_panes_styles() -> Seq<char> {
    "\n    .pane {\n        position: absolute;\n        display: unset;\n        z-index: 1;\n        overflow: hidden;\n    }\n    "@
}

/// The style sheet that the host adds to the document when a session is
/// mounted.
pub fn panes_styles() -> (css: String)
    ensures
        css@ == spec_panes_styles(),
{
    String::from_str(
        "\n    .pane {\n        position: absolute;\n        display: unset;\n        z-index: 1;\n        overflow: hidden;\n    }\n    ",
    )
}

} // verus!
