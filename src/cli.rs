//! Choosing the presentation backend.

use vstd::prelude::*;
use crate::text::{chars_of, string_of, push_str};

verus! {

/// The presentation surfaces a viewer can run on.
#[derive(Clone, Copy, Debug, PartialEq, Eq)]
pub enum Backend {
    Egui,
    Webview,
    Tui,
}

/// Which backends this build of the viewer has.
#[derive(Clone, Copy, Debug, PartialEq, Eq)]
pub struct Available {
    pub egui: bool,
    pub webview: bool,
    pub tui: bool,
}

/// The names that `--backend` accepts.
pub open spec fn is_backend_name(s: Seq<char>) -> bool {
    s == seq!['a', 'u', 't', 'o'] || s == seq!['e', 'g', 'u', 'i'] || s == seq![
        'w',
        'e',
        'b',
        'v',
        'i',
        'e',
        'w',
    ] || s == seq!['t', 'u', 'i']
}

pub const UNKNOWN_BACKEND: &'static str = "unknown backend '";

pub const EXPECTED_BACKENDS: &'static str = "', expected 'auto', 'egui', 'webview', or 'tui'";

fn same_chars(a: &Vec<char>, b: &Vec<char>) -> (r: bool)
    ensures
        r == (a@ == b@),
{
    if a.len() != b.len() {
        return false;
    }
    let mut i: usize = 0;
    while i < a.len()
        invariant
            a@.len() == b@.len(),
            i <= a@.len(),
            forall|j: int| 0 <= j < i ==> a@[j] == b@[j],
        decreases a@.len() - i,
    {
        if a[i] != b[i] {
            return false;
        }
        i = i + 1;
    }
    assert(a@ =~= b@);
    true
}

/// Checks a `--backend` value: one of `auto`, `egui`, `webview` and `tui`
/// is returned as it is; anything else is an error that names it.
pub fn parse_backend(s: &str) -> (r: Result<String, String>)
    ensures
        is_backend_name(s@) ==> (r matches Ok(v) && v@ == s@),
        !is_backend_name(s@) ==> (r matches Err(e) && e@ == UNKNOWN_BACKEND@ + s@
            + EXPECTED_BACKENDS@),
{
    let cs = chars_of(s);
    let auto = vec!['a', 'u', 't', 'o'];
    let egui = vec!['e', 'g', 'u', 'i'];
    let webview = vec!['w', 'e', 'b', 'v', 'i', 'e', 'w'];
    let tui = vec!['t', 'u', 'i'];
    assert(auto@ =~= seq!['a', 'u', 't', 'o']);
    assert(egui@ =~= seq!['e', 'g', 'u', 'i']);
    assert(webview@ =~= seq!['w', 'e', 'b', 'v', 'i', 'e', 'w']);
    assert(tui@ =~= seq!['t', 'u', 'i']);
    if same_chars(&cs, &auto) || same_chars(&cs, &egui) || same_chars(&cs, &webview) || same_chars(
        &cs,
        &tui,
    ) {
        Ok(string_of(&cs))
    } else {
        let mut out: Vec<char> = Vec::new();
        push_str(&mut out, UNKNOWN_BACKEND);
        push_str(&mut out, s);
        push_str(&mut out, EXPECTED_BACKENDS);
        assert(out@ =~= UNKNOWN_BACKEND@ + s@ + EXPECTED_BACKENDS@);
        Err(string_of(&out))
    }
}

/// The backend chosen when none is named: the terminal one over SSH; a
/// graphical one where there is a display (egui first); otherwise the
/// terminal one, then egui, then the web view. `None` where the build has none.
pub open spec fn detected(is_ssh: bool, has_display: bool, a: Available) -> Option<Backend> {
    if is_ssh && a.tui {
        Some(Backend::Tui)
    } else if has_display && a.egui {
        Some(Backend::Egui)
    } else if has_display && a.webview {
        Some(Backend::Webview)
    } else if a.tui {
        Some(Backend::Tui)
    } else if a.egui {
        Some(Backend::Egui)
    } else if a.webview {
        Some(Backend::Webview)
    } else {
        None
    }
}

/// Picks a backend for the environment, as `detected` says.
pub fn detect_backend(is_ssh: bool, has_display: bool, available: Available) -> (r: Option<Backend>)
    ensures
        r == detected(is_ssh, has_display, available),
{
    if is_ssh && available.tui {
        return Some(Backend::Tui);
    }
    if has_display {
        if available.egui {
            return Some(Backend::Egui);
        }
        if available.webview {
            return Some(Backend::Webview);
        }
    }
    if available.tui {
        Some(Backend::Tui)
    } else if available.egui {
        Some(Backend::Egui)
    } else if available.webview {
        Some(Backend::Webview)
    } else {
        None
    }
}

} // verus!
