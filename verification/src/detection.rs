//! Client detection strategies.
//!
//! Three detectors try to recover which application asked for the URL to be
//! opened, each from one data source: the compositor's active window, the
//! desktop-launch environment, and the process ancestry. Each detector is
//! handed its raw data by the caller and works on it as a pure function, so
//! the chain's priority behaviour is stated and proved, and detectors are
//! exercised by substituting arbitrary data.

pub mod env;
pub mod hyprland;
pub mod process_tree;

pub use env::EnvDetector;
pub use hyprland::HyprlandDetector;
pub use process_tree::ProcessRecord;
pub use process_tree::ProcessTreeDetector;

use vstd::prelude::*;

verus! {

/// An optional string seen as an optional character sequence.
pub open spec fn view_opt(r: Option<String>) -> Option<Seq<char>> {
    match r {
        Some(s) => Some(s@),
        None => None,
    }
}

/// A strategy that tries to recover the originating client name from one
/// data source.
pub trait ClientDetector {
    /// The name this detector's data yields, if any.
    spec fn spec_detect(&self) -> Option<Seq<char>>;

    /// Attempt the detection; the result is exactly what the data yields.
    fn detect(&self) -> (r: Option<String>)
        ensures
            view_opt(r) == self.spec_detect(),
    ;
}

/// The first non-empty result of three detections, in priority order.
pub open spec fn chain_result(
    a: Option<Seq<char>>,
    b: Option<Seq<char>>,
    c: Option<Seq<char>>,
) -> Option<Seq<char>> {
    if a is Some {
        a
    } else if b is Some {
        b
    } else {
        c
    }
}

/// The window-manager result wins whenever it is non-empty, whatever the
/// environment and process-tree detections report.
pub proof fn lemma_chain_prefers_window_manager(
    a: Option<Seq<char>>,
    b: Option<Seq<char>>,
    c: Option<Seq<char>>,
)
    requires
        a is Some,
    ensures
        chain_result(a, b, c) == a,
{
}

/// Runs the detectors in strict priority order - window manager, then
/// environment, then process tree - and returns the first hit; later
/// detectors are not consulted once one succeeds.
pub fn detect_client<W: ClientDetector, E: ClientDetector, P: ClientDetector>(
    window: &W,
    env: &E,
    process_tree: &P,
) -> (r: Option<String>)
    ensures
        view_opt(r) == chain_result(
            window.spec_detect(),
            env.spec_detect(),
            process_tree.spec_detect(),
        ),
{
    let from_window = window.detect();
    if from_window.is_some() {
        return from_window;
    }
    let from_env = env.detect();
    if from_env.is_some() {
        return from_env;
    }
    process_tree.detect()
}

} // verus!
