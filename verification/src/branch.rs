//! Backup branch names: how a new backup branch is named, and how the most
//! recent prior backup branch is found among the local branches.

use vstd::prelude::*;
use vstd::string::StringExecFns;
use crate::gitops;
use crate::strutil::{seq_starts_with, str_starts_with};

verus! {

/// The rendered form of a backup branch name:
/// `backup/<host>/<original branch>_<timestamp>`.
pub open spec fn spec_backup_branch_name(
    host: Seq<char>,
    branch: Seq<char>,
    stamp: Seq<char>,
) -> Seq<char> {
    "backup/"@ + host + "/"@ + branch + "_"@ + stamp
}

/// A name under the reserved backup namespace.
pub open spec fn spec_is_backup_branch(name: Seq<char>) -> bool {
    seq_starts_with(name, "backup/"@)
}

/// Every rendered backup branch name lies under the backup namespace.
pub proof fn lemma_backup_name_in_namespace(host: Seq<char>, branch: Seq<char>, stamp: Seq<char>)
    ensures
        spec_is_backup_branch(spec_backup_branch_name(host, branch, stamp)),
{
    let full = spec_backup_branch_name(host, branch, stamp);
    let p = "backup/"@;
    assert(full.subrange(0, p.len() as int) =~= p);
}

/// Renders the backup branch name from the host, the original branch and
/// the timestamp text.
pub fn backup_branch_name(host: &str, branch: &str, stamp: &str) -> (r: String)
    ensures
        r@ == spec_backup_branch_name(host@, branch@, stamp@),
{
    let mut r: String = "backup/".to_owned();
    r.append(host);
    r.append("/");
    r.append(branch);
    r.append("_");
    r.append(stamp);
    r
}

/// Relies on sys_info::hostname: this machine's host name. The result
/// depends on the machine, so nothing is assumed about its value.
#[verifier::external_body]
fn hostname_string() -> (r: Option<String>) {
    sys_info::hostname().ok()
}

/// Relies on chrono's Utc::now and DateTime::format: the current UTC
/// time rendered with second precision (`%Y-%m-%d_%H-%M-%S`). The result
/// depends on the clock, so nothing is assumed about its value.
#[verifier::external_body]
fn current_timestamp_text() -> (r: String) {
    chrono::Utc::now().format("%Y-%m-%d_%H-%M-%S").to_string()
}

/// The name for a fresh backup of `current_branch_name`: the host name (or
/// `Unknown_host` where the machine reports none) and the current UTC
/// time fill the backup branch pattern.
pub fn get_back_up_branch_name(current_branch_name: &str) -> (r: String)
    ensures
        exists|host: Seq<char>, stamp: Seq<char>|
            r@ == spec_backup_branch_name(host, current_branch_name@, stamp),
        spec_is_backup_branch(r@),
{
    let host: String = match hostname_string() {
        Some(h) => h,
        None => "Unknown_host".to_owned(),
    };
    let stamp = current_timestamp_text();
    let r = backup_branch_name(host.as_str(), current_branch_name, stamp.as_str());
    proof {
        lemma_backup_name_in_namespace(host@, current_branch_name@, stamp@);
    }
    r
}

/// The fold that scans branch entries `(name, commit seconds)` and keeps
/// the backup-namespace entry with the greatest commit time; on equal
/// times the earliest entry wins, and entries at or below `best_time`
/// never replace the current best.
pub open spec fn spec_latest_from(
    entries: Seq<(String, i64)>,
    best: Option<Seq<char>>,
    best_time: i64,
) -> Option<Seq<char>>
    decreases entries.len(),
{
    if entries.len() == 0 {
        best
    } else {
        let e = entries[0];
        if spec_is_backup_branch(e.0@) && e.1 > best_time {
            spec_latest_from(entries.drop_first(), Some(e.0@), e.1)
        } else {
            spec_latest_from(entries.drop_first(), best, best_time)
        }
    }
}

/// The most recent prior backup among `entries`: the backup-namespace
/// branch with the greatest positive commit time.
pub open spec fn spec_latest_backup(entries: Seq<(String, i64)>) -> Option<Seq<char>> {
    spec_latest_from(entries, None, 0)
}

/// Picks the latest backup branch from a list of `(name, commit seconds)`
/// entries.
pub fn latest_backup_branch(entries: &Vec<(String, i64)>) -> (r: Option<String>)
    ensures
        match r {
            Some(name) => spec_latest_backup(entries@) == Some(name@),
            None => spec_latest_backup(entries@) is None,
        },
{
    let ghost full = entries@;
    assert(full.skip(0) =~= full);
    let mut best: Option<String> = None;
    let mut best_time: i64 = 0;
    let mut i: usize = 0;
    while i < entries.len()
        invariant
            i <= entries@.len(),
            entries@ == full,
            spec_latest_from(
                full.skip(i as int),
                match best {
                    Some(b) => Some(b@),
                    None => None,
                },
                best_time,
            ) == spec_latest_backup(full),
        decreases entries@.len() - i,
    {
        assert(full.skip(i as int)[0] == full[i as int]);
        assert(full.skip(i as int).drop_first() =~= full.skip(i + 1));
        let entry_name: &String = &entries[i].0;
        let entry_time: i64 = entries[i].1;
        if str_starts_with(entry_name.as_str(), "backup/") && entry_time > best_time {
            best = Some(entry_name.clone());
            best_time = entry_time;
        }
        i += 1;
    }
    assert(full.skip(i as int) =~= Seq::<(String, i64)>::empty());
    best
}

/// The latest backup branch recorded in `repo`, scanning all local
/// branches; the result, if any, lies under the backup namespace.
pub fn get_latest_backup_branch_name(repo: &git2::Repository) -> (r: Option<String>)
    ensures
        r matches Some(name) ==> spec_is_backup_branch(name@),
{
    let entries = gitops::local_branches_with_times(repo);
    let r = latest_backup_branch(&entries);
    proof {
        if r is Some {
            lemma_latest_is_backup(entries@, None, 0);
        }
    }
    r
}

/// The selected branch is a backup-namespace entry with a positive commit
/// time, and no backup-namespace entry is more recent; when none is
/// selected, no backup-namespace entry has a positive commit time.
pub proof fn lemma_latest_backup_is_most_recent(entries: Seq<(String, i64)>)
    ensures
        spec_latest_backup(entries) matches Some(n) ==> exists|i: int|
            0 <= i < entries.len() && (#[trigger] entries[i]).0@ == n && spec_is_backup_branch(
                entries[i].0@,
            ) && entries[i].1 > 0 && forall|j: int|
                0 <= j < entries.len() && spec_is_backup_branch((#[trigger] entries[j]).0@)
                    ==> entries[j].1 <= entries[i].1,
        spec_latest_backup(entries) is None ==> forall|j: int|
            0 <= j < entries.len() && spec_is_backup_branch((#[trigger] entries[j]).0@)
                ==> entries[j].1 <= 0,
{
    lemma_latest_from_bound(entries, None, 0);
    let r = spec_latest_backup(entries);
    if r is Some {
        assert(r != None::<Seq<char>>);
    }
}

/// A maximal entry beats the accumulator or the fold returns the
/// accumulator with nothing beating `best_time`.
spec fn latest_bound_holds(
    entries: Seq<(String, i64)>,
    best: Option<Seq<char>>,
    best_time: i64,
) -> bool {
    let r = spec_latest_from(entries, best, best_time);
    ||| (r == best && (forall|j: int|
        0 <= j < entries.len() && spec_is_backup_branch((#[trigger] entries[j]).0@)
            ==> entries[j].1 <= best_time))
    ||| (exists|i: int|
        0 <= i < entries.len() && r == Some((#[trigger] entries[i]).0@) && spec_is_backup_branch(
            entries[i].0@,
        ) && entries[i].1 > best_time && (forall|j: int|
            0 <= j < entries.len() && spec_is_backup_branch((#[trigger] entries[j]).0@)
                ==> entries[j].1 <= entries[i].1))
}

proof fn lemma_latest_from_bound(entries: Seq<(String, i64)>, best: Option<Seq<char>>, best_time: i64)
    ensures
        latest_bound_holds(entries, best, best_time),
    decreases entries.len(),
{
    if entries.len() == 0 {
        return ;
    }
    let e = entries[0];
    let rest = entries.drop_first();
    if spec_is_backup_branch(e.0@) && e.1 > best_time {
        lemma_latest_from_bound(rest, Some(e.0@), e.1);
        let rr = spec_latest_from(rest, Some(e.0@), e.1);
        assert(spec_latest_from(entries, best, best_time) == rr);
        if exists|i: int|
            0 <= i < rest.len() && rr == Some((#[trigger] rest[i]).0@) && spec_is_backup_branch(
                rest[i].0@,
            ) && rest[i].1 > e.1 && (forall|j: int|
                0 <= j < rest.len() && spec_is_backup_branch((#[trigger] rest[j]).0@)
                    ==> rest[j].1 <= rest[i].1) {
            let i = choose|i: int|
                0 <= i < rest.len() && rr == Some((#[trigger] rest[i]).0@)
                    && spec_is_backup_branch(rest[i].0@) && rest[i].1 > e.1 && (forall|j: int|
                    0 <= j < rest.len() && spec_is_backup_branch((#[trigger] rest[j]).0@)
                        ==> rest[j].1 <= rest[i].1);
            assert(entries[i + 1] == rest[i]);
            assert forall|j: int|
                0 <= j < entries.len() && spec_is_backup_branch((#[trigger] entries[j]).0@)
                    implies entries[j].1 <= entries[i + 1].1 by {
                if j > 0 {
                    assert(rest[j - 1] == entries[j]);
                }
            }
            assert(0 <= i + 1 < entries.len() && spec_latest_from(entries, best, best_time)
                == Some(entries[i + 1].0@) && spec_is_backup_branch(entries[i + 1].0@)
                && entries[i + 1].1 > best_time);
        } else {
            assert(rr == Some(e.0@) && (forall|j: int|
                0 <= j < rest.len() && spec_is_backup_branch((#[trigger] rest[j]).0@)
                    ==> rest[j].1 <= e.1));
            assert forall|j: int|
                0 <= j < entries.len() && spec_is_backup_branch((#[trigger] entries[j]).0@)
                    implies entries[j].1 <= entries[0].1 by {
                if j > 0 {
                    assert(rest[j - 1] == entries[j]);
                }
            }
            assert(0 <= 0 < entries.len() && spec_latest_from(entries, best, best_time)
                == Some(entries[0].0@) && spec_is_backup_branch(entries[0].0@) && entries[0].1
                > best_time);
        }
    } else {
        lemma_latest_from_bound(rest, best, best_time);
        let rr = spec_latest_from(rest, best, best_time);
        assert(spec_latest_from(entries, best, best_time) == rr);
        if exists|i: int|
            0 <= i < rest.len() && rr == Some((#[trigger] rest[i]).0@) && spec_is_backup_branch(
                rest[i].0@,
            ) && rest[i].1 > best_time && (forall|j: int|
                0 <= j < rest.len() && spec_is_backup_branch((#[trigger] rest[j]).0@)
                    ==> rest[j].1 <= rest[i].1) {
            let i = choose|i: int|
                0 <= i < rest.len() && rr == Some((#[trigger] rest[i]).0@)
                    && spec_is_backup_branch(rest[i].0@) && rest[i].1 > best_time && (forall|
                    j: int,
                |
                    0 <= j < rest.len() && spec_is_backup_branch((#[trigger] rest[j]).0@)
                        ==> rest[j].1 <= rest[i].1);
            assert(entries[i + 1] == rest[i]);
            assert forall|j: int|
                0 <= j < entries.len() && spec_is_backup_branch((#[trigger] entries[j]).0@)
                    implies entries[j].1 <= entries[i + 1].1 by {
                if j > 0 {
                    assert(rest[j - 1] == entries[j]);
                } else {
                    assert(entries[0].1 <= best_time);
                    assert(best_time < rest[i].1);
                }
            }
            assert(0 <= i + 1 < entries.len() && spec_latest_from(entries, best, best_time)
                == Some(entries[i + 1].0@) && spec_is_backup_branch(entries[i + 1].0@)
                && entries[i + 1].1 > best_time);
        } else {
            assert(rr == best && (forall|j: int|
                0 <= j < rest.len() && spec_is_backup_branch((#[trigger] rest[j]).0@)
                    ==> rest[j].1 <= best_time));
            assert forall|j: int|
                0 <= j < entries.len() && spec_is_backup_branch((#[trigger] entries[j]).0@)
                    implies entries[j].1 <= best_time by {
                if j > 0 {
                    assert(rest[j - 1] == entries[j]);
                }
            }
        }
    }
}

/// Whatever `spec_latest_from` returns beyond its accumulator came from a
/// backup-namespace entry.
proof fn lemma_latest_is_backup(
    entries: Seq<(String, i64)>,
    best: Option<Seq<char>>,
    best_time: i64,
)
    requires
        best matches Some(b) ==> spec_is_backup_branch(b),
    ensures
        spec_latest_from(entries, best, best_time) matches Some(n) ==> spec_is_backup_branch(n),
    decreases entries.len(),
{
    if entries.len() > 0 {
        let e = entries[0];
        if spec_is_backup_branch(e.0@) && e.1 > best_time {
            lemma_latest_is_backup(entries.drop_first(), Some(e.0@), e.1);
        } else {
            lemma_latest_is_backup(entries.drop_first(), best, best_time);
        }
    }
}

} // verus!
