//! Audio targets: candidate processes a capture session can attach to.
//!
//! Window enumeration is a look-up service around the capture engine. The
//! engine itself only consumes numeric process identifiers; enumeration
//! walks the platform's window list, keeps one entry per process
//! (first-write-wins), and labels it. On platforms without the per-process
//! loopback engine the enumeration is empty and source resolution fails,
//! which the start handler reports as its own precondition error.

use vstd::prelude::*;
use std::collections::HashMap;

verus! {

broadcast use vstd::std_specs::hash::group_hash_axioms;

/// One enumerable capture target: a process with a visible window.
pub struct AudioTarget {
    /// The wire identifier, `pid:<N>`.
    pub id: String,
    /// Human label shown to the user.
    pub label: String,
    /// The numeric process identifier.
    pub pid: u32,
    /// Executable name, or a placeholder when unreadable.
    pub process_name: String,
}

/// First-write-wins deduplication of `(pid, title)` entries: the map keeps,
/// for each process, the title of its earliest entry.
pub open spec fn spec_dedupe_by_pid(entries: Seq<(u32, String)>) -> Map<u32, String>
    decreases entries.len(),
{
    if entries.len() == 0 {
        Map::empty()
    } else {
        let m = spec_dedupe_by_pid(entries.drop_last());
        let last = entries.last();
        if m.contains_key(last.0) {
            m
        } else {
            m.insert(last.0, last.1)
        }
    }
}

/// Keeps one window title per process, first-write-wins: a process that
/// appears twice keeps the title it appeared with first.
pub fn dedupe_window_entries_by_pid(entries: Vec<(u32, String)>) -> (r: HashMap<u32, String>)
    ensures
        r@ == spec_dedupe_by_pid(entries@),
{
    let ghost all = entries@;
    let mut rest = entries;
    let n0 = rest.len();
    let mut deduped: HashMap<u32, String> = HashMap::new();
    let mut i: usize = 0;
    proof {
        assert(all.len() == n0);
        assert(all.take(0) =~= Seq::<(u32, String)>::empty());
    }
    while rest.len() > 0
        invariant
            all.len() <= usize::MAX,
            i + rest@.len() == all.len(),
            rest@ =~= all.skip(i as int),
            deduped@ == spec_dedupe_by_pid(all.take(i as int)),
        decreases rest@.len(),
    {
        let (pid, title) = rest.remove(0);
        proof {
            assert(all.take(i + 1).drop_last() =~= all.take(i as int));
            assert(all.take(i + 1).last() == all[i as int]);
            assert(all[i as int] == (pid, title));
        }
        if !deduped.contains_key(&pid) {
            deduped.insert(pid, title);
        }
        proof {
            assert(rest@ =~= all.skip(i + 1));
        }
        i = i + 1;
    }
    proof {
        assert(all.take(i as int) =~= all);
    }
    deduped
}

/// Enumerates the capture targets. This build has no per-process loopback
/// engine and no window list, so the enumeration is empty.
pub fn get_audio_targets() -> (r: Vec<AudioTarget>)
    ensures
        r@ == Seq::<AudioTarget>::empty(),
{
    Vec::new()
}

/// Resolves a `window:<HWND>:<slot>` source to the owning process. This
/// build has no window system to ask, so resolution always fails.
pub fn resolve_source_to_pid(_source_id: &str) -> (r: Option<u32>)
    ensures
        r is None,
{
    None
}

/// Looks up the executable name of a process. This build has no process
/// query interface, so the name is never known.
pub fn process_name_from_pid(_pid: u32) -> (r: Option<String>)
    ensures
        r is None,
{
    None
}

} // verus!
