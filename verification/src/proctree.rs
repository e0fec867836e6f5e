//! Termination of a whole process tree: over one snapshot of the OS
//! process table, every transitive descendant of a root process is
//! found, once, in an order that puts parents before children; the
//! kill order is the reverse, so children are terminated first and no
//! grandchild is orphaned. Pids the snapshot does not list are never
//! targeted.

use vstd::prelude::*;

verus! {

/// One row of a process-table snapshot: a process id and its parent's,
/// if the OS reports one.
#[derive(Clone, Copy)]
pub struct ProcessEntry {
    pub pid: u32,
    pub parent: Option<u32>,
}

/// sysinfo's snapshot of the OS process table.
#[verifier::external_type_specification]
#[verifier::external_body]
pub struct ExSystem(sysinfo::System);

/// Relies on sysinfo::System::new: a fresh snapshot holder with nothing
/// loaded into it yet.
#[verifier::external_body]
fn system_new() -> sysinfo::System {
    sysinfo::System::new()
}

/// Relies on sysinfo::System::refresh_processes: loads the current
/// process table into the snapshot, dropping processes that have died.
#[verifier::external_body]
fn load_process_table(sys: &mut sysinfo::System) {
    sys.refresh_processes(sysinfo::ProcessesToUpdate::All, true);
}

/// Relies on sysinfo::System::processes, sysinfo::Process::parent and
/// sysinfo::Pid::as_u32: hands the snapshot's process table out as plain
/// rows of process id and parent id.
#[verifier::external_body]
fn process_table_entries(sys: &sysinfo::System) -> (r: Vec<ProcessEntry>) {
    sys.processes().iter().map(
        |(pid, process)|
            ProcessEntry { pid: pid.as_u32(), parent: process.parent().map(|p| p.as_u32()) },
    ).collect()
}

/// Relies on sysinfo::System::process and sysinfo::Process::kill: asks
/// the process to terminate if the snapshot still lists the pid, so a
/// pid the snapshot does not list is never targeted; whether the kill
/// lands depends on the OS alone.
#[verifier::external_body]
fn kill_listed_process(sys: &sysinfo::System, pid: u32) -> (r: bool) {
    match sys.process(sysinfo::Pid::from_u32(pid)) {
        Some(process) => process.kill(),
        None => false,
    }
}

/// Whether the snapshot lists `child` with `parent` as its parent.
pub open spec fn has_parent(entries: Seq<ProcessEntry>, child: u32, parent: u32) -> bool {
    exists|k: int|
        0 <= k < entries.len() && entries[k].pid == child && entries[k].parent == Some(parent)
}

/// Whether the snapshot shows a parent chain of length at most `depth`
/// from `pid` up to `root`.
pub open spec fn is_descendant(
    entries: Seq<ProcessEntry>,
    root: u32,
    pid: u32,
    depth: nat,
) -> bool
    decreases depth,
{
    &&& depth > 0
    &&& (has_parent(entries, pid, root) || (exists|mid: u32|
        is_descendant(entries, root, mid, (depth - 1) as nat) && #[trigger] has_parent(
            entries,
            pid,
            mid,
        )))
}

/// Whether some parent chain in the snapshot leads from `pid` up to
/// `root`.
pub open spec fn reachable(entries: Seq<ProcessEntry>, root: u32, pid: u32) -> bool {
    exists|d: nat| is_descendant(entries, root, pid, d)
}

/// Whether the snapshot lists `pid` at all.
pub open spec fn listed_pid(entries: Seq<ProcessEntry>, pid: u32) -> bool {
    exists|k: int| 0 <= k < entries.len() && entries[k].pid == pid
}

fn contains_u32(v: &Vec<u32>, x: u32) -> (r: bool)
    ensures
        r == v@.contains(x),
{
    let n: usize = v.len();
    let mut i: usize = 0;
    while i < n
        invariant
            n == v@.len(),
            i <= n,
            forall|j: int| 0 <= j < i ==> v@[j] != x,
        decreases n - i,
    {
        if v[i] == x {
            assert(v@[i as int] == x);
            return true;
        }
        i = i + 1;
    }
    false
}

proof fn lemma_distinct_pids_bound(result: Seq<u32>, entries: Seq<ProcessEntry>)
    requires
        result.no_duplicates(),
        forall|t: int| 0 <= t < result.len() ==> listed_pid(entries, #[trigger] result[t]),
    ensures
        result.len() <= entries.len(),
{
    broadcast use vstd::seq_lib::seq_to_set_is_finite;
    broadcast use vstd::set::group_set_axioms;

    let pids = entries.map_values(|e: ProcessEntry| e.pid);
    result.unique_seq_to_set();
    assert forall|x: u32| result.to_set().contains(x) implies pids.to_set().contains(x) by {
        let t = choose|t: int| 0 <= t < result.len() && result[t] == x;
        assert(listed_pid(entries, x));
        let k = choose|k: int| 0 <= k < entries.len() && entries[k].pid == x;
        assert(pids[k] == x);
        assert(pids.contains(x));
    };
    assert(result.to_set().subset_of(pids.to_set()));
    vstd::set_lib::lemma_len_subset(result.to_set(), pids.to_set());
    pids.lemma_cardinality_of_set();
}

proof fn lemma_closure_complete(
    entries: Seq<ProcessEntry>,
    root: u32,
    result: Seq<u32>,
    pid: u32,
    d: nat,
)
    requires
        forall|k: int|
            0 <= k < entries.len() && (#[trigger] entries[k].parent) == Some(root)
                ==> result.contains(entries[k].pid),
        forall|t: int, k: int|
            0 <= t < result.len() && 0 <= k < entries.len() && (#[trigger] entries[k].parent)
                == Some(#[trigger] result[t]) ==> result.contains(entries[k].pid),
        is_descendant(entries, root, pid, d),
    ensures
        result.contains(pid),
    decreases d,
{
    if has_parent(entries, pid, root) {
        let k = choose|k: int|
            0 <= k < entries.len() && entries[k].pid == pid && entries[k].parent == Some(root);
        assert(result.contains(entries[k].pid));
    } else {
        let mid = choose|mid: u32|
            is_descendant(entries, root, mid, (d - 1) as nat) && #[trigger] has_parent(
                entries,
                pid,
                mid,
            );
        lemma_closure_complete(entries, root, result, mid, (d - 1) as nat);
        let t = choose|t: int| 0 <= t < result.len() && result[t] == mid;
        let k = choose|k: int|
            0 <= k < entries.len() && entries[k].pid == pid && entries[k].parent == Some(mid);
        assert(entries[k].parent == Some(result[t]));
        assert(result.contains(entries[k].pid));
    }
}

/// Collects every process the snapshot shows to descend from
/// `root_pid`: exactly the reachable pids, each once, discovered so
/// that a process stands after the parent it was discovered through.
pub fn collect_descendants(entries: &Vec<ProcessEntry>, root_pid: u32) -> (r: Vec<u32>)
    ensures
        r@.no_duplicates(),
        forall|i: int| 0 <= i < r@.len() ==> reachable(entries@, root_pid, #[trigger] r@[i]),
        forall|i: int|
            0 <= i < r@.len() ==> has_parent(entries@, #[trigger] r@[i], root_pid) || (exists|
                j: int,
            |
                0 <= j < i && has_parent(entries@, r@[i], r@[j])),
        forall|p: u32| reachable(entries@, root_pid, p) ==> r@.contains(p),
{
    let n: usize = entries.len();
    let mut result: Vec<u32> = Vec::new();
    let mut k: usize = 0;
    while k < n
        invariant
            n == entries@.len(),
            k <= n,
            result@.no_duplicates(),
            forall|t: int|
                0 <= t < result@.len() ==> reachable(entries@, root_pid, #[trigger] result@[t]),
            forall|t: int|
                0 <= t < result@.len() ==> has_parent(entries@, #[trigger] result@[t], root_pid),
            forall|t: int|
                0 <= t < result@.len() ==> listed_pid(entries@, #[trigger] result@[t]),
            forall|kk: int|
                0 <= kk < k && (#[trigger] entries@[kk].parent) == Some(root_pid)
                    ==> result@.contains(entries@[kk].pid),
        decreases n - k,
    {
        let e = entries[k];
        if let Some(p) = e.parent {
            if p == root_pid && !contains_u32(&result, e.pid) {
                let ghost old_result = result@;
                result.push(e.pid);
                proof {
                    assert(entries@[k as int].pid == e.pid && entries@[k as int].parent == Some(
                        root_pid,
                    ));
                    assert(has_parent(entries@, e.pid, root_pid));
                    assert(listed_pid(entries@, e.pid));
                    assert(is_descendant(entries@, root_pid, e.pid, 1));
                    assert(forall|t: int|
                        0 <= t < old_result.len() ==> result@[t] == old_result[t]);
                    assert(forall|x: u32| old_result.contains(x) ==> result@.contains(x));
                    assert(result@[result@.len() - 1] == e.pid);
                }
            }
        }
        k = k + 1;
    }
    proof {
        lemma_distinct_pids_bound(result@, entries@);
    }
    let mut cursor: usize = 0;
    while cursor < result.len()
        invariant
            n == entries@.len(),
            cursor <= result@.len(),
            result@.len() <= n,
            result@.no_duplicates(),
            forall|t: int|
                0 <= t < result@.len() ==> reachable(entries@, root_pid, #[trigger] result@[t]),
            forall|t: int|
                0 <= t < result@.len() ==> has_parent(entries@, #[trigger] result@[t], root_pid)
                    || (exists|j: int| 0 <= j < t && has_parent(entries@, result@[t], result@[j])),
            forall|t: int|
                0 <= t < result@.len() ==> listed_pid(entries@, #[trigger] result@[t]),
            forall|kk: int|
                0 <= kk < n && (#[trigger] entries@[kk].parent) == Some(root_pid)
                    ==> result@.contains(entries@[kk].pid),
            forall|t: int, kk: int|
                0 <= t < cursor && 0 <= kk < n && (#[trigger] entries@[kk].parent) == Some(
                    #[trigger] result@[t],
                ) ==> result@.contains(entries@[kk].pid),
        decreases n - cursor,
    {
        let p = result[cursor];
        let ghost cursor_snap = cursor as int;
        let mut k2: usize = 0;
        while k2 < n
            invariant
                n == entries@.len(),
                k2 <= n,
                cursor_snap == cursor as int,
                cursor < result@.len(),
                result@.len() <= n,
                p == result@[cursor as int],
                result@.no_duplicates(),
                forall|t: int|
                    0 <= t < result@.len() ==> reachable(
                        entries@,
                        root_pid,
                        #[trigger] result@[t],
                    ),
                forall|t: int|
                    0 <= t < result@.len() ==> has_parent(
                        entries@,
                        #[trigger] result@[t],
                        root_pid,
                    ) || (exists|j: int|
                        0 <= j < t && has_parent(entries@, result@[t], result@[j])),
                forall|t: int|
                    0 <= t < result@.len() ==> listed_pid(entries@, #[trigger] result@[t]),
                forall|kk: int|
                    0 <= kk < n && (#[trigger] entries@[kk].parent) == Some(root_pid)
                        ==> result@.contains(entries@[kk].pid),
                forall|t: int, kk: int|
                    0 <= t < cursor && 0 <= kk < n && (#[trigger] entries@[kk].parent) == Some(
                        #[trigger] result@[t],
                    ) ==> result@.contains(entries@[kk].pid),
                forall|kk: int|
                    0 <= kk < k2 && (#[trigger] entries@[kk].parent) == Some(p)
                        ==> result@.contains(entries@[kk].pid),
            decreases n - k2,
        {
            let e = entries[k2];
            if let Some(pp) = e.parent {
                if pp == p && !contains_u32(&result, e.pid) {
                    let ghost old_result = result@;
                    result.push(e.pid);
                    proof {
                        assert(entries@[k2 as int].pid == e.pid && entries@[k2 as int].parent
                            == Some(p));
                        assert(has_parent(entries@, e.pid, p));
                        assert(listed_pid(entries@, e.pid));
                        let d = choose|d: nat| is_descendant(entries@, root_pid, p, d);
                        assert(is_descendant(entries@, root_pid, p, d));
                        assert(is_descendant(entries@, root_pid, e.pid, d + 1));
                        assert(forall|t: int|
                            0 <= t < old_result.len() ==> result@[t] == old_result[t]);
                        assert(forall|x: u32| old_result.contains(x) ==> result@.contains(x));
                        assert(result@[result@.len() - 1] == e.pid);
                        assert(has_parent(entries@, e.pid, result@[cursor as int]));
                        lemma_distinct_pids_bound(result@, entries@);
                    }
                }
            }
            k2 = k2 + 1;
        }
        cursor = cursor + 1;
    }
    proof {
        assert forall|p: u32| reachable(entries@, root_pid, p) implies result@.contains(p) by {
            let d = choose|d: nat| is_descendant(entries@, root_pid, p, d);
            lemma_closure_complete(entries@, root_pid, result@, p, d);
        };
    }
    result
}

/// The order in which the snapshot's descendants of `root_pid` are asked
/// to terminate: exactly the reachable pids, each once, deepest first —
/// every process stands before the parent it was discovered through, so
/// children are terminated before their parents.
pub fn termination_order(entries: &Vec<ProcessEntry>, root_pid: u32) -> (r: Vec<u32>)
    ensures
        r@.no_duplicates(),
        forall|i: int| 0 <= i < r@.len() ==> reachable(entries@, root_pid, #[trigger] r@[i]),
        forall|i: int|
            0 <= i < r@.len() ==> has_parent(entries@, #[trigger] r@[i], root_pid) || (exists|
                j: int,
            |
                i < j < r@.len() && has_parent(entries@, r@[i], r@[j])),
        forall|p: u32| reachable(entries@, root_pid, p) ==> r@.contains(p),
{
    let discovered = collect_descendants(entries, root_pid);
    let ghost c = discovered@;
    let mut r: Vec<u32> = Vec::new();
    let mut i: usize = discovered.len();
    while i > 0
        invariant
            c == discovered@,
            i <= c.len(),
            r@.len() == c.len() - i,
            forall|t: int| 0 <= t < r@.len() ==> r@[t] == c[c.len() - 1 - t],
        decreases i,
    {
        i = i - 1;
        r.push(discovered[i]);
    }
    proof {
        assert forall|t: int, u: int| 0 <= t < u < r@.len() implies r@[t] != r@[u] by {
            assert(r@[t] == c[c.len() - 1 - t]);
            assert(r@[u] == c[c.len() - 1 - u]);
        };
        assert forall|p: u32| reachable(entries@, root_pid, p) implies r@.contains(p) by {
            assert(c.contains(p));
            let t = choose|t: int| 0 <= t < c.len() && c[t] == p;
            assert(r@[c.len() - 1 - t] == p);
        };
        assert forall|t: int|
            0 <= t < r@.len() implies has_parent(entries@, #[trigger] r@[t], root_pid) || (
        exists|u: int| t < u < r@.len() && has_parent(entries@, r@[t], r@[u])) by {
            let ct = c.len() - 1 - t;
            assert(r@[t] == c[ct]);
            if !has_parent(entries@, c[ct], root_pid) {
                let j = choose|j: int| 0 <= j < ct && has_parent(entries@, c[ct], c[j]);
                let u = c.len() - 1 - j;
                assert(r@[u] == c[j]);
                assert(t < u < r@.len());
                assert(has_parent(entries@, r@[t], r@[u]));
            }
        };
    }
    r
}

/// Snapshots the OS process table once, then asks every descendant of
/// `root_pid` it shows to terminate, children before their parents, so
/// no grandchild is orphaned. Best effort: a kill that does not land is
/// not an error, and a process gone from the snapshot is skipped. The
/// root itself is left to its own handle's kill, after this returns.
/// Returns the pids that were targeted, in order, each at most once.
pub fn kill_process_tree(root_pid: u32) -> (targeted: Vec<u32>)
    ensures
        targeted@.no_duplicates(),
{
    let mut sys = system_new();
    load_process_table(&mut sys);
    let entries = process_table_entries(&sys);
    let order = termination_order(&entries, root_pid);
    let n: usize = order.len();
    let mut i: usize = 0;
    while i < n
        invariant
            n == order@.len(),
            i <= n,
        decreases n - i,
    {
        let _landed: bool = kill_listed_process(&sys, order[i]);
        i = i + 1;
    }
    order
}

} // verus!
