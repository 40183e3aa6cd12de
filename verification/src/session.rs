//! The session orchestrator's host discovery: one step of the bounded walk
//! up the process ancestor chain that looks for the terminal emulator by
//! name, case-insensitively.
use vstd::prelude::*;

use crate::text::has_sub;
use crate::text::lower;
use crate::text::lower_char;
use crate::text::lower_seq;
use crate::text::occurs_at;

verus! {

/// Case-insensitive substring search: `p` occurs in `s` up to ASCII case.
pub fn contains_sub_ci(s: &str, p: &str) -> (r: bool)
    ensures
        r == has_sub(lower_seq(s@), lower_seq(p@)),
{
    let ghost ls = lower_seq(s@);
    let ghost lp = lower_seq(p@);
    let sn = s.unicode_len();
    let pn = p.unicode_len();
    if pn > sn {
        assert(forall|k: int| !occurs_at(ls, lp, k));
        return false;
    }
    if pn == 0 {
        proof {
            assert(ls.subrange(0, 0) =~= lp);
            assert(occurs_at(ls, lp, 0));
        }
        return true;
    }
    let mut i: usize = 0;
    while i <= sn - pn
        invariant
            0 <= i <= sn - pn + 1,
            1 <= pn <= sn,
            ls.len() == sn,
            lp.len() == pn,
            forall|k: int| 0 <= k < i ==> !occurs_at(ls, lp, k),
        decreases sn - i,
    {
        let mut j: usize = 0;
        let mut same = true;
        while same && j < pn
            invariant
                0 <= j <= pn,
                i + pn <= sn,
                ls.len() == sn,
                lp.len() == pn,
                same ==> forall|k: int| 0 <= k < j ==> ls[i + k] == lp[k],
                !same ==> !occurs_at(ls, lp, i as int),
            decreases pn - j, (if same { 1int } else { 0int }),
        {
            if lower(s.get_char(i + j)) != lower(p.get_char(j)) {
                proof {
                    assert(ls[i + j] == lower_char(s@[i + j]));
                    assert(lp[j as int] == lower_char(p@[j as int]));
                    assert(ls.subrange(i as int, i + pn)[j as int] != lp[j as int]);
                }
                same = false;
            } else {
                j = j + 1;
            }
        }
        if same {
            proof {
                assert(ls.subrange(i as int, i + pn) =~= lp);
                assert(occurs_at(ls, lp, i as int));
            }
            return true;
        }
        i = i + 1;
    }
    proof {
        assert forall|k: int| !occurs_at(ls, lp, k) by {
            if 0 <= k && k + lp.len() <= ls.len() {
                assert(k < i);
            }
        }
    }
    false
}

/// The outcome of one step of the ancestor walk.
pub enum AncestorStep {
    /// The parent's command name matches the target: record this process id.
    Found { pid: u64 },
    /// No match here: continue the walk from the parent.
    Climb { pid: u64 },
    /// The walk ends: out of hops, no parent, or the parent is the root.
    Stop,
}

/// One step of the bounded ancestor walk. `parent` and `comm` are what the
/// process table reported for the current process's parent; the walk stops
/// at a missing parent, at process id 1 or below, or when no hops are left,
/// and reports a find when the parent's command name contains the target
/// case-insensitively.
pub fn ancestor_step(parent: Option<u64>, comm: Option<&str>, target: &str, hops_left: u64) -> (r:
    AncestorStep)
    ensures
        hops_left == 0 ==> r is Stop,
        hops_left > 0 ==> match parent {
            None => r is Stop,
            Some(pp) => {
                if pp <= 1 {
                    r is Stop
                } else {
                    match comm {
                        Some(c) => {
                            if has_sub(lower_seq(c@), lower_seq(target@)) {
                                r == (AncestorStep::Found { pid: pp })
                            } else {
                                r == (AncestorStep::Climb { pid: pp })
                            }
                        },
                        None => r == (AncestorStep::Climb { pid: pp }),
                    }
                }
            },
        },
{
    if hops_left == 0 {
        return AncestorStep::Stop;
    }
    match parent {
        None => AncestorStep::Stop,
        Some(pp) => {
            if pp <= 1 {
                AncestorStep::Stop
            } else {
                match comm {
                    Some(c) => {
                        if contains_sub_ci(c, target) {
                            AncestorStep::Found { pid: pp }
                        } else {
                            AncestorStep::Climb { pid: pp }
                        }
                    },
                    None => AncestorStep::Climb { pid: pp },
                }
            }
        },
    }
}

/// One row of the process table as the walk needs it: a process, its parent
/// if the process table reported one, and its command name if that query
/// succeeded.
pub struct ProcessEntry {
    pub pid: u64,
    pub parent: Option<u64>,
    pub comm: Option<String>,
}

/// The first table row describing `pid`, if any.
pub open spec fn entry_for(table: Seq<ProcessEntry>, pid: u64) -> Option<ProcessEntry>
    decreases table.len(),
{
    if table.len() == 0 {
        None
    } else if table[0].pid == pid {
        Some(table[0])
    } else {
        entry_for(table.drop_first(), pid)
    }
}

/// Whether a table row's command name contains the target, up to ASCII case.
pub open spec fn comm_matches(e: ProcessEntry, target: Seq<char>) -> bool {
    e.comm matches Some(c) && has_sub(lower_seq(c@), lower_seq(target))
}

/// The ancestor the bounded walk finds from `cur`: at each step it asks the
/// table for the current process's parent, stops when no hops are left, when
/// the parent is unknown, or at process id 1 or below, and otherwise reports
/// the parent as soon as its command name matches the target.
pub open spec fn walk_spec(
    table: Seq<ProcessEntry>,
    cur: u64,
    target: Seq<char>,
    hops: nat,
) -> Option<u64>
    decreases hops,
{
    if hops == 0 {
        None
    } else {
        match entry_for(table, cur) {
            None => None,
            Some(e) => match e.parent {
                None => None,
                Some(pp) => if pp <= 1 {
                    None
                } else if entry_for(table, pp) matches Some(pe) && comm_matches(pe, target) {
                    Some(pp)
                } else {
                    walk_spec(table, pp, target, (hops - 1) as nat)
                },
            },
        }
    }
}

/// Finds the first table row for `pid`, executably.
fn lookup_entry<'a>(table: &'a Vec<ProcessEntry>, pid: u64) -> (r: Option<&'a ProcessEntry>)
    ensures
        r matches Some(e) ==> entry_for(table@, pid) == Some(*e),
        r is None ==> entry_for(table@, pid) is None,
{
    let mut i: usize = 0;
    proof {
        assert(table@.skip(0) =~= table@);
    }
    while i < table.len()
        invariant
            0 <= i <= table@.len(),
            entry_for(table@, pid) == entry_for(table@.skip(i as int), pid),
        decreases table@.len() - i,
    {
        proof {
            assert(table@.skip(i as int)[0] == table@[i as int]);
            assert(table@.skip(i as int).drop_first() =~= table@.skip(i + 1));
        }
        if table[i].pid == pid {
            return Some(&table[i]);
        }
        i = i + 1;
    }
    proof {
        assert(table@.skip(table@.len() as int) =~= Seq::<ProcessEntry>::empty());
    }
    None
}

/// Walks the ancestor chain from `start` through the given process table,
/// for at most `max_hops` steps, and returns the first ancestor whose
/// command name contains `target` case-insensitively.
pub fn find_ancestor_by_name(
    table: &Vec<ProcessEntry>,
    start: u64,
    target: &str,
    max_hops: u64,
) -> (r: Option<u64>)
    ensures
        r == walk_spec(table@, start, target@, max_hops as nat),
{
    let mut cur = start;
    let mut hops = max_hops;
    loop
        invariant
            hops <= max_hops,
            walk_spec(table@, start, target@, max_hops as nat) == walk_spec(
                table@,
                cur,
                target@,
                hops as nat,
            ),
        decreases hops,
    {
        if hops == 0 {
            return None;
        }
        let e = match lookup_entry(table, cur) {
            None => {
                return None;
            },
            Some(e) => e,
        };
        let parent = e.parent;
        let comm: Option<&str> = match parent {
            Some(pp) => {
                if pp > 1 {
                    match lookup_entry(table, pp) {
                        Some(pe) => match &pe.comm {
                            Some(c) => Some(c.as_str()),
                            None => None,
                        },
                        None => None,
                    }
                } else {
                    None
                }
            },
            None => None,
        };
        match ancestor_step(parent, comm, target, hops) {
            AncestorStep::Stop => {
                return None;
            },
            AncestorStep::Found { pid } => {
                return Some(pid);
            },
            AncestorStep::Climb { pid } => {
                cur = pid;
                hops = hops - 1;
            },
        }
    }
}

/// The hop bound the session runner uses for host discovery.
pub open spec fn host_discovery_hops() -> nat {
    24
}

/// Host discovery as the session runner performs it: the bounded ancestor
/// walk with its fixed hop limit.
pub fn discover_host(table: &Vec<ProcessEntry>, start: u64, target: &str) -> (r: Option<u64>)
    ensures
        r == walk_spec(table@, start, target@, host_discovery_hops()),
{
    find_ancestor_by_name(table, start, target, 24)
}

} // verus!
