//! Operating mode: development (proxy) or production (static assets).

use crate::text::same_text;
use vstd::prelude::*;

verus! {

/// Operating mode of a router instance.
#[derive(Debug, Clone, Copy, PartialEq, Eq, Structural)]
pub enum Mode {
    /// Requests are proxied to a frontend development server.
    Development,
    /// Requests are served from pre-built static assets.
    Production,
}

/// The lower-case form that `str::to_lowercase` gives a text.
pub uninterp spec fn lowercase_of(text: Seq<char>) -> Seq<char>;

/// Calls `str::to_lowercase`, which maps every character by the Unicode
/// lower-case mapping and depends on nothing but the text. The contract gives
/// that result its name and claims nothing else of it.
#[verifier::external_body]
fn lowercase(text: &str) -> (lowered: String)
    ensures
        lowered@ == lowercase_of(text@),
{
    text.to_lowercase()
}

/// The mode of a build that sets no recognised mode: development for a debug
/// build, production for an optimised one.
pub open spec fn default_mode(debug_build: bool) -> Mode {
    if debug_build {
        Mode::Development
    } else {
        Mode::Production
    }
}

/// The mode that a lower-case keyword selects, `fallback` where it selects
/// none.
pub open spec fn keyword_mode(keyword: Seq<char>, fallback: Mode) -> Mode {
    if keyword == "production"@ || keyword == "prod"@ || keyword == "embed"@ {
        Mode::Production
    } else if keyword == "development"@ || keyword == "dev"@ || keyword == "proxy"@ {
        Mode::Development
    } else {
        fallback
    }
}

/// The mode for a setting that may be absent.
pub open spec fn selected_mode(setting: Option<Seq<char>>, debug_build: bool) -> Mode {
    match setting {
        Some(value) => keyword_mode(lowercase_of(value), default_mode(debug_build)),
        None => default_mode(debug_build),
    }
}

/// The mode that a keyword, already in lower case, selects.
pub fn mode_for_keyword(keyword: &str, fallback: Mode) -> (mode: Mode)
    ensures
        mode == keyword_mode(keyword@, fallback),
{
    if same_text(keyword, "production") || same_text(keyword, "prod") || same_text(
        keyword,
        "embed",
    ) {
        Mode::Production
    } else if same_text(keyword, "development") || same_text(keyword, "dev") || same_text(
        keyword,
        "proxy",
    ) {
        Mode::Development
    } else {
        fallback
    }
}

/// The operating mode for the value of the mode setting, if it is set, and
/// the kind of build.
///
/// The setting is read without regard to case. An unrecognised value counts
/// as absent.
pub fn detect_mode(setting: Option<&str>, debug_build: bool) -> (mode: Mode)
    ensures
        mode == selected_mode(
            match setting {
                Some(value) => Some(value@),
                None => None,
            },
            debug_build,
        ),
{
    let fallback = if debug_build {
        Mode::Development
    } else {
        Mode::Production
    };
    match setting {
        Some(value) => {
            let lowered = lowercase(value);
            mode_for_keyword(lowered.as_str(), fallback)
        },
        None => fallback,
    }
}

} // verus!
