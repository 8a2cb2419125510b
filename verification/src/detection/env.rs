//! Detection from the desktop-launch environment.

use vstd::prelude::*;

use crate::detection::ClientDetector;
use crate::text::after_last;
use crate::text::after_last_sub;
use crate::text::lower_of;
use crate::text::lowercase;
use crate::text::str_eq;
use crate::text::strip_trailing;
use crate::text::strip_trailing_sub;

verus! {

/// Detects the client from the desktop-launch environment: desktop
/// integration middleware records the desktop file of the originating
/// application in a variable of the launched process's environment.
pub struct EnvDetector {
    /// The recorded desktop-file path, when the variable was set.
    pub desktop_file: Option<String>,
}

/// The client name a desktop-file path yields: the final path segment with
/// every trailing `.desktop` suffix removed, lowercased. An empty segment
/// is no name at all, and this program's own name means the program was
/// launched through the very mechanism it inspects, so the originating
/// application stays unknown; both yield nothing.
pub open spec fn desktop_file_client(p: Seq<char>) -> Option<Seq<char>> {
    let name = strip_trailing(after_last(p, '/'), ".desktop"@);
    if name.len() == 0 || name == "hyprchoosy"@ {
        None
    } else {
        Some(lower_of(name))
    }
}

impl ClientDetector for EnvDetector {
    open spec fn spec_detect(&self) -> Option<Seq<char>> {
        match self.desktop_file {
            Some(p) => desktop_file_client(p@),
            None => None,
        }
    }

    fn detect(&self) -> (r: Option<String>) {
        match &self.desktop_file {
            Some(p) => {
                let filename = after_last_sub(p.as_str(), '/');
                proof {
                    reveal_strlit(".desktop");
                }
                let name = strip_trailing_sub(filename, ".desktop");
                if name.unicode_len() == 0 || str_eq(name, "hyprchoosy") {
                    None
                } else {
                    Some(lowercase(name))
                }
            },
            None => None,
        }
    }
}

/// The detector never reports the program itself: when the recorded desktop
/// file's basename, minus its suffix, is this program's own name, the
/// detection yields nothing.
pub proof fn lemma_env_ignores_self(d: EnvDetector, p: String)
    requires
        d.desktop_file == Some(p),
        strip_trailing(after_last(p@, '/'), ".desktop"@) == "hyprchoosy"@,
    ensures
        d.spec_detect() is None,
{
}

/// An empty extracted name is no client: a client name is a non-empty
/// token, so a path whose basename vanishes with its suffix yields nothing.
pub proof fn lemma_env_rejects_empty_name(d: EnvDetector, p: String)
    requires
        d.desktop_file == Some(p),
        strip_trailing(after_last(p@, '/'), ".desktop"@).len() == 0,
    ensures
        d.spec_detect() is None,
{
}

} // verus!
