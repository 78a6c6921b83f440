//! How a browser is opened on each platform.
//!
//! The command is run by the caller, who also knows the platform.

use crate::error::HeisenbergError;
use vstd::prelude::*;
use vstd::string::StringExecFns;

verus! {

/// Hint given when the command that opens a browser could not be run.
pub const MACOS_BROWSER_HINT: &'static str =
    "• Ensure the 'open' command is available\n• Check if a default browser is set\n• Try opening the URL manually to test\n• Disable browser opening with .open_browser(false)";

/// Hint given when the command that opens a browser could not be run.
pub const WINDOWS_BROWSER_HINT: &'static str =
    "• Ensure the 'start' command is available\n• Check if a default browser is set\n• Try opening the URL manually to test\n• Disable browser opening with .open_browser(false)";

/// Hint given when the command that opens a browser could not be run.
pub const LINUX_BROWSER_HINT: &'static str =
    "• Ensure 'xdg-open' is installed (usually part of xdg-utils)\n• Check if a default browser is set\n• Try opening the URL manually to test\n• Disable browser opening with .open_browser(false)";

/// Hint given on a platform on which no browser can be opened.
pub const NO_BROWSER_HINT: &'static str =
    "• This platform is not supported for automatic browser opening\n• Disable browser opening with .open_browser(false)\n• Open the URL manually after starting the server";

/// The platform that the program runs on.
#[derive(Debug, Clone, Copy, PartialEq, Eq, Structural)]
pub enum Platform {
    /// macOS.
    MacOs,
    /// Windows.
    Windows,
    /// Linux.
    Linux,
    /// Any other platform.
    Other,
}

/// The command that opens `url` in the default browser of a platform, one
/// argument per item; nothing for a platform that has none.
pub open spec fn browser_command_of(platform: Platform, url: Seq<char>) -> Option<Seq<Seq<char>>> {
    match platform {
        Platform::MacOs => Some(seq!["open"@, url]),
        Platform::Windows => Some(seq!["cmd"@, "/c"@, "start"@, ""@, url]),
        Platform::Linux => Some(seq!["xdg-open"@, url]),
        Platform::Other => None,
    }
}

/// The name of a platform in a message.
pub open spec fn platform_name(platform: Platform) -> Seq<char> {
    match platform {
        Platform::MacOs => "macOS"@,
        Platform::Windows => "Windows"@,
        Platform::Linux => "Linux"@,
        Platform::Other => "this platform"@,
    }
}

/// The hint for a browser that did not open on a platform.
pub open spec fn browser_hint(platform: Platform) -> Seq<char> {
    match platform {
        Platform::MacOs => MACOS_BROWSER_HINT@,
        Platform::Windows => WINDOWS_BROWSER_HINT@,
        Platform::Linux => LINUX_BROWSER_HINT@,
        Platform::Other => NO_BROWSER_HINT@,
    }
}

/// The command that opens `url` in the default browser of the platform.
/// Fails with a configuration error on a platform that has no such command.
pub fn browser_command(platform: Platform, url: &str) -> (outcome: Result<
    Vec<String>,
    HeisenbergError,
>)
    ensures
        match outcome {
            Ok(command) => browser_command_of(platform, url@) == Some(command.deep_view()),
            Err(error) => browser_command_of(platform, url@) is None && error.is_config(
                "Browser opening not supported on this platform"@,
                NO_BROWSER_HINT@,
            ),
        },
{
    let mut command: Vec<String> = Vec::new();
    match platform {
        Platform::MacOs => {
            command.push(String::from_str("open"));
            command.push(url.to_owned());
        },
        Platform::Windows => {
            command.push(String::from_str("cmd"));
            command.push(String::from_str("/c"));
            command.push(String::from_str("start"));
            command.push(String::from_str(""));
            command.push(url.to_owned());
        },
        Platform::Linux => {
            command.push(String::from_str("xdg-open"));
            command.push(url.to_owned());
        },
        Platform::Other => {
            return Err(
                HeisenbergError::config(
                    "Browser opening not supported on this platform",
                    NO_BROWSER_HINT,
                ),
            );
        },
    }
    Ok(command)
}

/// The error for a browser command that the operating system refused, for
/// the reason `detail`.
pub fn browser_failure(platform: Platform, detail: &str) -> (error: HeisenbergError)
    ensures
        error.is_config(
            "Failed to open browser on "@ + platform_name(platform) + ": "@ + detail@,
            browser_hint(platform),
        ),
{
    let (name, hint) = match platform {
        Platform::MacOs => ("macOS", MACOS_BROWSER_HINT),
        Platform::Windows => ("Windows", WINDOWS_BROWSER_HINT),
        Platform::Linux => ("Linux", LINUX_BROWSER_HINT),
        Platform::Other => ("this platform", NO_BROWSER_HINT),
    };
    let message = String::from_str("Failed to open browser on ").concat(name).concat(": ").concat(
        detail,
    );
    HeisenbergError::config(message.as_str(), hint)
}

} // verus!
