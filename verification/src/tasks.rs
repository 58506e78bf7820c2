//! The task table: an ordered mapping from task name to a dense,
//! zero-based integer identifier.
//!
//! The enclosing build system hands the table over as one
//! comma-separated list of names; a task's identifier is its position
//! in that list.  When a name occurs twice, the later position wins,
//! as it does when the pairs are collected into a map: the earlier
//! occurrence's identifier is unreachable by name.

use vstd::prelude::*;
use vstd::string::*;
use crate::strutil::{str_eq, strs_view, lemma_strs_view_push};
use crate::UtilError;

verus! {

/// A character sequence split at every separator: one segment per
/// stretch between separators, so the empty sequence yields one empty
/// segment and a separator at either end yields an empty segment
/// there.
pub open spec fn spec_split(s: Seq<char>, sep: char) -> Seq<Seq<char>>
    decreases s.len(),
{
    if s.len() == 0 {
        seq![s]
    } else if s[0] == sep {
        seq![Seq::<char>::empty()] + spec_split(s.drop_first(), sep)
    } else {
        let rest = spec_split(s.drop_first(), sep);
        seq![seq![s[0]] + rest[0]] + rest.drop_first()
    }
}

/// A sequence without the separator splits into itself alone.
proof fn lemma_split_no_sep(s: Seq<char>, sep: char)
    requires
        forall|j: int| 0 <= j < s.len() ==> s[j] != sep,
    ensures
        spec_split(s, sep) == seq![s],
    decreases s.len(),
{
    if s.len() == 0 {
    } else {
        lemma_split_no_sep(s.drop_first(), sep);
        assert(seq![s[0]] + s.drop_first() =~= s);
        assert(spec_split(s, sep) =~= seq![s]);
    }
}

/// Splitting at the first separator: the segment before it, then the
/// split of what follows it.
proof fn lemma_split_at_first_sep(s: Seq<char>, sep: char, i: int)
    requires
        0 <= i < s.len(),
        s[i] == sep,
        forall|j: int| 0 <= j < i ==> s[j] != sep,
    ensures
        spec_split(s, sep) == seq![s.subrange(0, i)] + spec_split(
            s.subrange(i + 1, s.len() as int),
            sep,
        ),
    decreases i,
{
    if i == 0 {
        assert(s.subrange(0, 0) =~= Seq::<char>::empty());
        assert(s.drop_first() =~= s.subrange(1, s.len() as int));
        assert(spec_split(s, sep) =~= seq![s.subrange(0, 0)] + spec_split(
            s.subrange(1, s.len() as int),
            sep,
        ));
    } else {
        let d = s.drop_first();
        assert(d[i - 1] == sep);
        lemma_split_at_first_sep(d, sep, i - 1);
        let rest = spec_split(d, sep);
        assert(d.subrange(0, i - 1) =~= s.subrange(1, i));
        assert(d.subrange(i, d.len() as int) =~= s.subrange(i + 1, s.len() as int));
        assert(rest[0] == s.subrange(1, i));
        assert(seq![s[0]] + rest[0] =~= s.subrange(0, i));
        assert(rest.drop_first() =~= spec_split(s.subrange(i + 1, s.len() as int), sep));
        assert(spec_split(s, sep) =~= seq![s.subrange(0, i)] + spec_split(
            s.subrange(i + 1, s.len() as int),
            sep,
        ));
    }
}

/// Splits a string at every comma, in order.
fn split_names(s: &str) -> (r: Vec<String>)
    ensures
        strs_view(r@) == spec_split(s@, ','),
{
    let n = s.unicode_len();
    let mut result: Vec<String> = Vec::new();
    proof {
        assert(s@.subrange(0, n as int) =~= s@);
        assert(strs_view(result@) =~= Seq::<Seq<char>>::empty());
        assert(strs_view(result@) + spec_split(s@, ',') =~= spec_split(s@, ','));
    }
    let mut start: usize = 0;
    let mut i: usize = 0;
    while i < n
        invariant
            start <= i <= n,
            n == s@.len(),
            spec_split(s@, ',') == strs_view(result@) + spec_split(
                s@.subrange(start as int, n as int),
                ',',
            ),
            forall|j: int| start <= j < i ==> s@[j] != ',',
        decreases n - i,
    {
        if s.get_char(i) == ',' {
            let seg = s.substring_char(start, i);
            let seg_string = String::from_str(seg);
            let ghost pre = result@;
            result.push(seg_string);
            proof {
                let rem = s@.subrange(start as int, n as int);
                lemma_split_at_first_sep(rem, ',', i - start);
                assert(rem.subrange(0, i - start) =~= s@.subrange(start as int, i as int));
                assert(rem.subrange(i - start + 1, rem.len() as int) =~= s@.subrange(
                    i + 1,
                    n as int,
                ));
                lemma_strs_view_push(pre, seg_string);
                assert(strs_view(pre) + seq![seg@] =~= strs_view(result@));
                assert(strs_view(pre) + (seq![seg@] + spec_split(
                    s@.subrange(i + 1, n as int),
                    ',',
                )) =~= (strs_view(pre) + seq![seg@]) + spec_split(
                    s@.subrange(i + 1, n as int),
                    ',',
                ));
            }
            start = i + 1;
        }
        i += 1;
    }
    let seg = s.substring_char(start, n);
    let seg_string = String::from_str(seg);
    let ghost pre = result@;
    result.push(seg_string);
    proof {
        let rem = s@.subrange(start as int, n as int);
        lemma_split_no_sep(rem, ',');
        lemma_strs_view_push(pre, seg_string);
        assert(strs_view(pre) + seq![rem] =~= strs_view(result@));
    }
    result
}

/// Map of task names to their IDs.
pub struct TaskIds {
    names: Vec<String>,
}

impl View for TaskIds {
    type V = Seq<Seq<char>>;

    closed spec fn view(&self) -> Seq<Seq<char>> {
        strs_view(self.names@)
    }
}

/// The identifier assigned to a name in a table: the position of its
/// last occurrence, or `None` when the name does not occur.
pub open spec fn spec_task_id(names: Seq<Seq<char>>, name: Seq<char>) -> Option<int>
    decreases names.len(),
{
    if names.len() == 0 {
        None
    } else if names.last() == name {
        Some(names.len() - 1)
    } else {
        spec_task_id(names.drop_last(), name)
    }
}

/// Index assignment is stable: in a table without duplicate names,
/// every name resolves to exactly its position in the source list.
/// (With a duplicated name, the later position wins instead.)
pub proof fn lemma_unique_names_resolve_to_position(names: Seq<Seq<char>>, i: int)
    requires
        names.no_duplicates(),
        0 <= i < names.len(),
    ensures
        spec_task_id(names, names[i]) == Some(i),
    decreases names.len(),
{
    if i < names.len() - 1 {
        assert(names.last() != names[i]);
        assert(names.drop_last().no_duplicates());
        lemma_unique_names_resolve_to_position(names.drop_last(), i);
    }
}

/// Builds the task table from the comma-separated list of task names:
/// one task per segment, identifier equal to position.
pub fn task_ids(tasks: &str) -> (r: TaskIds)
    ensures
        r@ == spec_split(tasks@, ','),
{
    TaskIds { names: split_names(tasks) }
}

impl TaskIds {
    /// Get the ID of a task by name.
    pub fn get(&self, task_name: &str) -> (r: Option<usize>)
        ensures
            match r {
                Some(id) => spec_task_id(self@, task_name@) == Some(id as int),
                None => spec_task_id(self@, task_name@) is None,
            },
    {
        let mut i: usize = self.names.len();
        proof {
            assert(self@.take(i as int) =~= self@);
        }
        while i > 0
            invariant
                i <= self.names.len(),
                self@ == strs_view(self.names@),
                spec_task_id(self@, task_name@) == spec_task_id(self@.take(i as int), task_name@),
            decreases i,
        {
            let idx = i - 1;
            if str_eq(self.names[idx].as_str(), task_name) {
                proof {
                    assert(self@.take(i as int).last() == task_name@);
                }
                return Some(idx);
            }
            proof {
                assert(self@.take(i as int).last() == self@[idx as int]);
                assert(self@.take(i as int).drop_last() =~= self@.take(idx as int));
            }
            i = idx;
        }
        proof {
            assert(self@.take(0) =~= Seq::<Seq<char>>::empty());
        }
        None
    }

    /// Convert a list of task names into a list of task IDs, ordered
    /// the same.  Fails on the first name that is not in the table,
    /// naming that task; no partial list is returned.
    pub fn names_to_ids(&self, names: &Vec<String>) -> (r: Result<Vec<usize>, UtilError>)
        ensures
            r matches Ok(ids) ==> (ids@.len() == names@.len() && forall|k: int|
                0 <= k < names@.len() ==> #[trigger] spec_task_id(self@, names@[k]@) == Some(
                    ids@[k] as int,
                )),
            r is Ok <==> (forall|k: int|
                0 <= k < names@.len() ==> (#[trigger] spec_task_id(self@, names@[k]@)) is Some),
            r matches Err(e) ==> (e matches UtilError::UnknownTask { name } && exists|k: int|
                0 <= k < names@.len() && name@ == names@[k]@ && (#[trigger] spec_task_id(
                    self@,
                    names@[k]@,
                )) is None && (forall|j: int|
                    0 <= j < k ==> (#[trigger] spec_task_id(self@, names@[j]@)) is Some)),
    {
        let mut ids: Vec<usize> = Vec::new();
        let mut k: usize = 0;
        while k < names.len()
            invariant
                k <= names@.len(),
                ids@.len() == k,
                forall|j: int|
                    0 <= j < k ==> #[trigger] spec_task_id(self@, names@[j]@) == Some(
                        ids@[j] as int,
                    ),
            decreases names@.len() - k,
        {
            match self.get(names[k].as_str()) {
                Some(id) => {
                    ids.push(id);
                },
                None => {
                    let nm = names[k].clone();
                    proof {
                        assert(spec_task_id(self@, names@[k as int]@) is None);
                    }
                    return Err(UtilError::UnknownTask { name: nm });
                },
            }
            k += 1;
        }
        Ok(ids)
    }

    /// Helper function to convert a map of operation names to allowed
    /// callers (by name) to a map of operation names to allowed
    /// callers (by task ID).  Entries keep their order; the first
    /// unknown name anywhere in the values fails the whole
    /// translation.
    pub fn remap_allowed_caller_names_to_ids(
        &self,
        allowed_callers: &Vec<(String, Vec<String>)>,
    ) -> (r: Result<Vec<(String, Vec<usize>)>, UtilError>)
        ensures
            r matches Ok(out) ==> (out@.len() == allowed_callers@.len() && forall|i: int|
                0 <= i < out@.len() ==> (#[trigger] out@[i]).0@ == allowed_callers@[i].0@
                    && out@[i].1@.len() == allowed_callers@[i].1@.len() && (forall|j: int|
                    0 <= j < out@[i].1@.len() ==> spec_task_id(
                        self@,
                        allowed_callers@[i].1@[j]@,
                    ) == Some(#[trigger] out@[i].1@[j] as int))),
            r is Ok <==> (forall|i: int, j: int|
                0 <= i < allowed_callers@.len() && 0 <= j < allowed_callers@[i].1@.len()
                    ==> (#[trigger] spec_task_id(self@, allowed_callers@[i].1@[j]@)) is Some),
            r matches Err(e) ==> (e matches UtilError::UnknownTask { name } && exists|i: int, j: int|
                0 <= i < allowed_callers@.len() && 0 <= j < allowed_callers@[i].1@.len() && name@
                    == allowed_callers@[i].1@[j]@ && (#[trigger] spec_task_id(
                    self@,
                    allowed_callers@[i].1@[j]@,
                )) is None),
    {
        let mut out: Vec<(String, Vec<usize>)> = Vec::new();
        let mut i: usize = 0;
        while i < allowed_callers.len()
            invariant
                i <= allowed_callers@.len(),
                out@.len() == i,
                forall|p: int|
                    0 <= p < i ==> (#[trigger] out@[p]).0@ == allowed_callers@[p].0@
                        && out@[p].1@.len() == allowed_callers@[p].1@.len() && (forall|j: int|
                        0 <= j < out@[p].1@.len() ==> spec_task_id(
                            self@,
                            allowed_callers@[p].1@[j]@,
                        ) == Some(#[trigger] out@[p].1@[j] as int)),
            decreases allowed_callers@.len() - i,
        {
            let pair = &allowed_callers[i];
            match self.names_to_ids(&pair.1) {
                Ok(task_ids) => {
                    out.push((pair.0.clone(), task_ids));
                },
                Err(e) => {
                    return Err(e);
                },
            }
            i += 1;
        }
        proof {
            assert forall|p: int, j: int|
                0 <= p < allowed_callers@.len() && 0 <= j
                    < allowed_callers@[p].1@.len() implies (#[trigger] spec_task_id(
                self@,
                allowed_callers@[p].1@[j]@,
            )) is Some by {
                assert(out@[p].1@.len() == allowed_callers@[p].1@.len());
                assert(spec_task_id(self@, allowed_callers@[p].1@[j]@) == Some(
                    out@[p].1@[j] as int,
                ));
            }
        }
        Ok(out)
    }
}

} // verus!
