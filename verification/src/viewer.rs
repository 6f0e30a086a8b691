//! Resolving which program should display the documentation.
//!
//! The sources are consulted in a fixed order, first match wins: the
//! configured browser entry, then a set and non-empty `BROWSER` environment
//! variable, then the platform-default opener.

use vstd::prelude::*;
use vstd::string::StringExecFns;

verus! {

/// A fully resolved viewer program: a concrete executable path, and the
/// extra arguments to place before the target path.
#[derive(Debug, Clone, PartialEq, Eq)]
pub struct ResolvedViewer {
    pub program: String,
    pub args: Vec<String>,
}

/// The two configuration sources that viewer resolution consults.
#[derive(Debug, Clone, PartialEq, Eq)]
pub struct ViewerSources {
    /// The configured browser entry, already resolved to a concrete
    /// executable path by the configuration subsystem.
    pub configured: Option<ResolvedViewer>,
    /// A snapshot of the `BROWSER` environment variable.
    pub browser_env: Option<String>,
}

/// The outcome of resolution: a specific program to spawn, or the
/// platform-default opener.
#[derive(Debug, Clone, PartialEq, Eq)]
pub enum ViewerChoice {
    Program(ResolvedViewer),
    PlatformDefault,
}

/// How a choice follows from the sources: the configured entry wins outright;
/// otherwise a set and non-empty `BROWSER` value names the program, with no
/// extra arguments; otherwise the platform default is used.
pub open spec fn is_choice_of(sources: ViewerSources, choice: ViewerChoice) -> bool {
    match sources.configured {
        Some(v) => choice == ViewerChoice::Program(v),
        None => match sources.browser_env {
            Some(s) => if s@.len() > 0 {
                choice matches ViewerChoice::Program(w)
                    && w.program@ == s@
                    && w.args@.len() == 0
            } else {
                choice is PlatformDefault
            },
            None => choice is PlatformDefault,
        },
    }
}

/// Picks the viewer: the configured browser entry if present, else the
/// `BROWSER` environment variable if set and non-empty (as a bare executable
/// path), else the platform-default opener. The configured entry always takes
/// precedence over the environment variable, whatever the latter holds.
pub fn resolve_viewer(sources: ViewerSources) -> (choice: ViewerChoice)
    ensures
        is_choice_of(sources, choice),
        sources.configured matches Some(v) ==> choice == ViewerChoice::Program(v),
{
    match sources.configured {
        Some(v) => ViewerChoice::Program(v),
        None => match sources.browser_env {
            Some(s) => {
                if s.as_str().is_empty() {
                    ViewerChoice::PlatformDefault
                } else {
                    ViewerChoice::Program(ResolvedViewer { program: s, args: Vec::new() })
                }
            },
            None => ViewerChoice::PlatformDefault,
        },
    }
}

/// The warning issued when a resolved viewer program could not display the
/// documentation: it names the program and the underlying error.
pub fn launch_failure_warning(program: &String, error: &String) -> (r: String)
    ensures
        r@ == "Couldn't open docs with "@ + program@ + ": "@ + error@,
{
    let mut m = String::from_str("Couldn't open docs with ");
    m.append(program.as_str());
    m.append(": ");
    m.append(error.as_str());
    proof {
        assert(m@ =~= "Couldn't open docs with "@ + program@ + ": "@ + error@);
    }
    m
}

} // verus!
