//! Detection from the process ancestry.

use vstd::prelude::*;

use crate::detection::ClientDetector;
use crate::text::contains_sub;
use crate::text::lower_of;
use crate::text::lowercase;
use crate::text::seq_contains;

verus! {

/// The number of ancestry steps after which the walk gives up, so that it
/// ends even on pathological or cyclic process data.
pub const MAX_STEPS: usize = 16;

/// One process-table entry: a process id, its parent's id when the process
/// has one, and its command name.
#[derive(Debug, Clone)]
pub struct ProcessRecord {
    pub pid: u32,
    pub parent: Option<u32>,
    pub name: String,
}

/// Detects the client by walking the process ancestry upward from the
/// invoking process, skipping known wrapper processes. The caller hands
/// over a read-only snapshot of the process table.
pub struct ProcessTreeDetector {
    /// The process-table snapshot the walk consults.
    pub processes: Vec<ProcessRecord>,
    /// The process id the walk starts from.
    pub start_pid: u32,
}

/// Whether a lowercased command name is a known shell, portal or session
/// intermediary that obscures the true origin and must be skipped.
pub open spec fn is_wrapper(n: Seq<char>) -> bool {
    ||| seq_contains(n, "xdg-open"@)
    ||| seq_contains(n, "gio"@)
    ||| seq_contains(n, "systemd"@)
    ||| seq_contains(n, "dbus-daemon"@)
    ||| seq_contains(n, "bash"@)
    ||| seq_contains(n, "sh"@)
    ||| seq_contains(n, "zsh"@)
    ||| seq_contains(n, "fish"@)
    ||| seq_contains(n, "coreutils"@)
    ||| seq_contains(n, "xdg-desktop-portal"@)
    ||| seq_contains(n, "xdg-desktop-portal-gtk"@)
    ||| seq_contains(n, "xdg-desktop-portal-hyprland"@)
}

/// The first record with the given pid, in snapshot order.
pub open spec fn lookup(procs: Seq<ProcessRecord>, pid: u32) -> Option<ProcessRecord>
    decreases procs.len(),
{
    if procs.len() == 0 {
        None
    } else if procs[0].pid == pid {
        Some(procs[0])
    } else {
        lookup(procs.drop_first(), pid)
    }
}

/// The walk result from `pid` with `fuel` steps left: resolve the process
/// and its parent; a missing link yields nothing; a parent whose lowercased
/// name is non-empty and no wrapper is the client; otherwise the walk
/// continues from the parent with one step less.
pub open spec fn walk(procs: Seq<ProcessRecord>, pid: u32, fuel: nat) -> Option<Seq<char>>
    decreases fuel,
{
    if fuel == 0 {
        None
    } else {
        match lookup(procs, pid) {
            None => None,
            Some(p) => match p.parent {
                None => None,
                Some(pp) => match lookup(procs, pp) {
                    None => None,
                    Some(parent) => {
                        let name = lower_of(parent.name@);
                        if name.len() > 0 && !is_wrapper(name) {
                            Some(name)
                        } else {
                            walk(procs, pp, (fuel - 1) as nat)
                        }
                    },
                },
            },
        }
    }
}

/// Whether a lowercased command name is on the wrapper skip-list.
fn is_wrapper_name(n: &str) -> (r: bool)
    ensures
        r == is_wrapper(n@),
{
    contains_sub(n, "xdg-open") || contains_sub(n, "gio") || contains_sub(n, "systemd")
        || contains_sub(n, "dbus-daemon") || contains_sub(n, "bash") || contains_sub(n, "sh")
        || contains_sub(n, "zsh") || contains_sub(n, "fish") || contains_sub(n, "coreutils")
        || contains_sub(n, "xdg-desktop-portal") || contains_sub(n, "xdg-desktop-portal-gtk")
        || contains_sub(n, "xdg-desktop-portal-hyprland")
}

/// The first snapshot record with the given pid.
fn find_record(procs: &Vec<ProcessRecord>, pid: u32) -> (r: Option<&ProcessRecord>)
    ensures
        match r {
            Some(p) => lookup(procs@, pid) == Some(*p),
            None => lookup(procs@, pid) is None,
        },
{
    let n = procs.len();
    proof {
        assert(procs@.skip(0) =~= procs@);
    }
    let mut i: usize = 0;
    while i < n
        invariant
            n == procs@.len(),
            0 <= i <= n,
            lookup(procs@, pid) == lookup(procs@.skip(i as int), pid),
        decreases n - i,
    {
        proof {
            assert(procs@.skip(i as int)[0] == procs@[i as int]);
        }
        if procs[i].pid == pid {
            return Some(&procs[i]);
        }
        proof {
            assert(procs@.skip(i as int).drop_first() =~= procs@.skip(i + 1));
        }
        i += 1;
    }
    proof {
        assert(procs@.skip(n as int).len() == 0);
    }
    None
}

impl ClientDetector for ProcessTreeDetector {
    open spec fn spec_detect(&self) -> Option<Seq<char>> {
        walk(self.processes@, self.start_pid, MAX_STEPS as nat)
    }

    fn detect(&self) -> (r: Option<String>) {
        let mut pid = self.start_pid;
        let mut steps: usize = 0;
        while steps < MAX_STEPS
            invariant
                0 <= steps <= MAX_STEPS,
                walk(self.processes@, self.start_pid, MAX_STEPS as nat) == walk(
                    self.processes@,
                    pid,
                    (MAX_STEPS - steps) as nat,
                ),
            decreases MAX_STEPS - steps,
        {
            let cur = match find_record(&self.processes, pid) {
                Some(p) => p,
                None => {
                    return None;
                },
            };
            let ppid = match cur.parent {
                Some(pp) => pp,
                None => {
                    return None;
                },
            };
            let parent = match find_record(&self.processes, ppid) {
                Some(p) => p,
                None => {
                    return None;
                },
            };
            let name = lowercase(parent.name.as_str());
            let empty = name.as_str().unicode_len() == 0;
            let skipped = is_wrapper_name(name.as_str());
            if !skipped && !empty {
                return Some(name);
            }
            pid = ppid;
            steps += 1;
        }
        None
    }
}

/// The walk never strays outside the snapshot: whatever it resolves is one
/// of the snapshot's records.
proof fn lemma_lookup_in_snapshot(procs: Seq<ProcessRecord>, pid: u32)
    ensures
        lookup(procs, pid) matches Some(p) ==> exists|i: int|
            0 <= i < procs.len() && procs[i] == p,
    decreases procs.len(),
{
    if procs.len() > 0 && procs[0].pid != pid {
        lemma_lookup_in_snapshot(procs.drop_first(), pid);
        if lookup(procs, pid) is Some {
            let p = lookup(procs.drop_first(), pid)->Some_0;
            let i = choose|i: int| 0 <= i < procs.drop_first().len() && procs.drop_first()[i] == p;
            assert(procs[i + 1] == p);
        }
    }
}

/// The walk ends, with nothing, within the step bound even when the
/// snapshot consists entirely of skip-listed or nameless processes.
pub proof fn lemma_walk_all_wrappers(procs: Seq<ProcessRecord>, pid: u32, fuel: nat)
    requires
        forall|i: int|
            0 <= i < procs.len() ==> {
                let n = lower_of((#[trigger] procs[i]).name@);
                is_wrapper(n) || n.len() == 0
            },
    ensures
        walk(procs, pid, fuel) is None,
    decreases fuel,
{
    if fuel > 0 {
        match lookup(procs, pid) {
            None => {},
            Some(p) => match p.parent {
                None => {},
                Some(pp) => {
                    lemma_lookup_in_snapshot(procs, pp);
                    lemma_walk_all_wrappers(procs, pp, (fuel - 1) as nat);
                },
            },
        }
    }
}

} // verus!
