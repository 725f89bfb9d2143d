//! Toggle resolution: decides, once per process, whether tracing is
//! available at all and whether an available tracer renders anything.
//!
//! The inputs are two build switches (instrumentation support compiled
//! in, debug build in effect) and an optional environment-provided
//! string.  The string is read by the surrounding application and handed
//! in as plain bytes; it is parsed as a boolean, and a missing or
//! unparseable value counts as false.

use vstd::prelude::*;

verus! {

/// The resolved toggle.  `active` says whether the active tracer variant
/// is reachable in this build; `render` says whether an active tracer
/// writes trace events.  `render` can hold only when `active` does.
#[derive(Clone, Copy, Debug, PartialEq, Eq, Structural)]
pub struct Toggle {
    pub active: bool,
    pub render: bool,
}

/// The byte sequence of the literal `true`.
pub open spec fn true_bytes() -> Seq<u8> {
    seq![116u8, 114u8, 117u8, 101u8]
}

/// The byte sequence of the literal `false`.
pub open spec fn false_bytes() -> Seq<u8> {
    seq![102u8, 97u8, 108u8, 115u8, 101u8]
}

/// Boolean parsing: exactly `true` and `false` are accepted, anything
/// else is rejected.
pub open spec fn spec_parse_bool(s: Seq<u8>) -> Option<bool> {
    if s == true_bytes() {
        Some(true)
    } else if s == false_bytes() {
        Some(false)
    } else {
        None
    }
}

/// The view of an optional byte string.
pub open spec fn opt_bytes_view(e: Option<Vec<u8>>) -> Option<Seq<u8>> {
    match e {
        Some(v) => Some(v@),
        None => None,
    }
}

/// Whether an active tracer renders: both build switches are on and the
/// environment value parses to `true`.
pub open spec fn spec_render(support: bool, debug_build: bool, env: Option<Seq<u8>>) -> bool {
    support && debug_build && (match env {
        Some(s) => spec_parse_bool(s) == Some(true),
        None => false,
    })
}

/// Parses a byte string as a boolean, accepting exactly `true` and
/// `false`.
pub fn parse_bool(s: &Vec<u8>) -> (r: Option<bool>)
    ensures
        r == spec_parse_bool(s@),
{
    if s.len() == 4 && s[0] == 116u8 && s[1] == 114u8 && s[2] == 117u8
        && s[3] == 101u8 {
        proof {
            assert(s@ =~= true_bytes());
        }
        Some(true)
    } else if s.len() == 5 && s[0] == 102u8 && s[1] == 97u8
        && s[2] == 108u8 && s[3] == 115u8 && s[4] == 101u8 {
        proof {
            assert(s@ =~= false_bytes());
            assert(s@ != true_bytes());
        }
        Some(false)
    } else {
        proof {
            assert(s@ != true_bytes());
            assert(s@ != false_bytes());
        }
        None
    }
}

/// Resolves the toggle from the two build switches and the optional
/// environment value.  If support is absent or the build is not a debug
/// build, the result is inert regardless of the environment; otherwise
/// rendering is on exactly when the environment value parses to `true`.
pub fn resolve_toggle(support: bool, debug_build: bool, env: &Option<Vec<u8>>) -> (t: Toggle)
    ensures
        t.active == (support && debug_build),
        t.render == spec_render(support, debug_build, opt_bytes_view(*env)),
{
    let active = support && debug_build;
    let render = if active {
        match env {
            Some(s) => {
                match parse_bool(s) {
                    Some(b) => b,
                    None => false,
                }
            },
            None => false,
        }
    } else {
        false
    };
    Toggle { active, render }
}

} // verus!
