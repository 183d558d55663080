use vstd::prelude::*;

use crate::text::{replace_all, replace_all_exec};

verus! {

/// Placeholder in the desktop injection script that stands for the app
/// version (read by the web app from `data-desktop-version`).
pub const VERSION_PLACEHOLDER: &'static str = "__DESKTOP_VERSION__";

/// The injection script `template` for app version `version`: every
/// placeholder replaced by the version.
pub fn inject_script(template: &str, version: &str) -> (js: String)
    ensures
        js@ == replace_all(template@, VERSION_PLACEHOLDER@, version@),
{
    proof {
        reveal_strlit("__DESKTOP_VERSION__");
    }
    replace_all_exec(template, VERSION_PLACEHOLDER, version)
}

} // verus!
