//! Detection from the compositor's active window.

use vstd::prelude::*;

use crate::detection::ClientDetector;
use crate::text::lower_of;
use crate::text::lowercase;
use crate::text::str_eq;

verus! {

/// Detects the client from the compositor's active window. The caller runs
/// the window query and parses its structured output; a failed query, a
/// non-zero exit or output that does not parse as a window descriptor with
/// a class field all arrive here as no value, and are no signal.
pub struct HyprlandDetector {
    /// The active window's class as the query reported it, when the query
    /// ran, succeeded and its output parsed.
    pub class: Option<String>,
}

/// The signal a reported window class carries: the class lowercased -
/// unless that is empty or the literal `unknown`, which the compositor
/// reports when no window is focused; both mean no signal.
pub open spec fn class_signal(c: Seq<char>) -> Option<Seq<char>> {
    let cls = lower_of(c);
    if cls.len() > 0 && cls != "unknown"@ {
        Some(cls)
    } else {
        None
    }
}

impl ClientDetector for HyprlandDetector {
    open spec fn spec_detect(&self) -> Option<Seq<char>> {
        match self.class {
            Some(c) => class_signal(c@),
            None => None,
        }
    }

    fn detect(&self) -> (r: Option<String>) {
        match &self.class {
            Some(c) => {
                let cls = lowercase(c.as_str());
                if cls.as_str().unicode_len() > 0 && !str_eq(cls.as_str(), "unknown") {
                    Some(cls)
                } else {
                    None
                }
            },
            None => None,
        }
    }
}

} // verus!
