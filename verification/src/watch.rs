//! The change-detector's pure half: coalescing a filesystem event into a
//! change signal, suppressing the noise the backup engine itself produces
//! under the version-control metadata directory, and re-synchronising the
//! watch set against the configuration by set difference.

use vstd::prelude::*;
use crate::strutil::{seq_has_substring, str_contains, vec_contains_str};

verus! {

/// Something under the watched folders changed: the affected paths and
/// when they were seen, in seconds since the epoch.
pub struct FileChangeSignal {
    pub paths: Vec<String>,
    pub timestamp: i64,
}

impl FileChangeSignal {
    pub fn new(path: Vec<String>, timestamp: i64) -> (r: FileChangeSignal)
        ensures
            r.paths == path,
            r.timestamp == timestamp,
    {
        FileChangeSignal { paths: path, timestamp }
    }
}

/// Whether any of the event's paths runs through the version-control
/// metadata directory.
pub open spec fn spec_touches_git_dir(paths: Seq<Seq<char>>) -> bool {
    exists|i: int| 0 <= i < paths.len() && seq_has_substring(#[trigger] paths[i], ".git"@)
}

/// Turns an event's paths into the paths of a change signal. An event
/// that touches the version-control metadata directory is noise from the
/// engine's own git operations and is suppressed entirely.
pub fn filter_event_paths(paths: &Vec<String>) -> (r: Option<Vec<String>>)
    ensures
        r is None <==> spec_touches_git_dir(paths.deep_view()),
        r matches Some(v) ==> v.deep_view() == paths.deep_view(),
{
    let ghost full = paths.deep_view();
    let mut out: Vec<String> = Vec::new();
    assert(out.deep_view() =~= Seq::<Seq<char>>::empty());
    let mut i: usize = 0;
    while i < paths.len()
        invariant
            i <= full.len(),
            full == paths.deep_view(),
            out.deep_view() =~= full.take(i as int),
            forall|j: int| 0 <= j < i ==> !seq_has_substring(#[trigger] full[j], ".git"@),
        decreases paths.len() - i,
    {
        let path: &String = &paths[i];
        assert(path@ == full[i as int]);
        if str_contains(path.as_str(), ".git") {
            assert(spec_touches_git_dir(full));
            return None;
        }
        let ghost prev = out.deep_view();
        out.push(path.clone());
        assert(out.deep_view() =~= prev.push(full[i as int]));
        assert(prev.push(full[i as int]) =~= full.take(i + 1));
        i += 1;
    }
    assert(out.deep_view() =~= full);
    Some(out)
}

/// The entries of `a` that do not occur in `b`, in order.
pub open spec fn spec_set_difference(a: Seq<Seq<char>>, b: Seq<Seq<char>>) -> Seq<Seq<char>>
    decreases a.len(),
{
    if a.len() == 0 {
        Seq::empty()
    } else {
        let rest = spec_set_difference(a.drop_first(), b);
        if b.contains(a[0]) {
            rest
        } else {
            seq![a[0]] + rest
        }
    }
}

/// The folders to stop watching: watched until now, no longer configured.
pub fn folders_to_unwatch(previous: &Vec<String>, current: &Vec<String>) -> (r: Vec<String>)
    ensures
        r.deep_view() == spec_set_difference(previous.deep_view(), current.deep_view()),
{
    vec_difference(previous, current)
}

/// The folders to start watching: configured now, not watched before.
pub fn folders_to_watch(previous: &Vec<String>, current: &Vec<String>) -> (r: Vec<String>)
    ensures
        r.deep_view() == spec_set_difference(current.deep_view(), previous.deep_view()),
{
    vec_difference(current, previous)
}

fn vec_difference(a: &Vec<String>, b: &Vec<String>) -> (r: Vec<String>)
    ensures
        r.deep_view() == spec_set_difference(a.deep_view(), b.deep_view()),
{
    let ghost full = a.deep_view();
    let ghost excl = b.deep_view();
    let mut out: Vec<String> = Vec::new();
    assert(out.deep_view() =~= Seq::<Seq<char>>::empty());
    assert(full.skip(0) =~= full);
    let mut i: usize = 0;
    while i < a.len()
        invariant
            i <= full.len(),
            full == a.deep_view(),
            excl == b.deep_view(),
            out.deep_view() + spec_set_difference(full.skip(i as int), excl)
                == spec_set_difference(full, excl),
        decreases a.len() - i,
    {
        let element: &String = &a[i];
        assert(element@ == full[i as int]);
        assert(full.skip(i as int)[0] == full[i as int]);
        assert(full.skip(i as int).drop_first() =~= full.skip(i + 1));
        if !vec_contains_str(b, element.as_str()) {
            out.push(element.clone());
            assert(out.deep_view() + spec_set_difference(full.skip(i + 1), excl)
                =~= spec_set_difference(full, excl));
        } else {
            assert(out.deep_view() + spec_set_difference(full.skip(i + 1), excl)
                =~= spec_set_difference(full, excl));
        }
        i += 1;
    }
    assert(full.skip(i as int) =~= Seq::<Seq<char>>::empty());
    assert(out.deep_view() =~= spec_set_difference(full, excl));
    out
}

} // verus!
