use vstd::prelude::*;
use vstd::string::StringExecFns;

use crate::actions::{
    action_from_tag, action_tag, action_value, lemma_tag_round_trip, Action,
};

verus! {

/// The persisted configuration: the action program.
pub struct Config {
    pub actions: Vec<Action>,
}

/// The stored form of a program: each action as its tag and argument, in order.
pub open spec fn records_of(s: Seq<Action>) -> Seq<(Seq<char>, i32)> {
    s.map_values(|a: Action| (action_tag(a), action_value(a)))
}

/// The program a stored form describes; `None` when a tag is unknown.
pub open spec fn program_of(records: Seq<(Seq<char>, i32)>) -> Option<Seq<Action>>
    decreases records.len(),
{
    if records.len() == 0 {
        Some(Seq::empty())
    } else {
        match (program_of(records.drop_last()), action_from_tag(records.last().0, records.last().1)) {
            (Some(s), Some(a)) => Some(s.push(a)),
            _ => None,
        }
    }
}

/// The views of a list of (tag, argument) pairs.
pub open spec fn records_view(records: Seq<(String, i32)>) -> Seq<(Seq<char>, i32)> {
    records.map_values(|r: (String, i32)| (r.0@, r.1))
}

/// Reading back the stored form of a program gives the same program.
pub proof fn lemma_records_round_trip(s: Seq<Action>)
    ensures
        program_of(records_of(s)) == Some(s),
    decreases s.len(),
{
    if s.len() > 0 {
        lemma_records_round_trip(s.drop_last());
        assert(records_of(s).drop_last() =~= records_of(s.drop_last()));
        lemma_tag_round_trip(s.last());
        assert(s.drop_last().push(s.last()) =~= s);
    } else {
        assert(records_of(s) =~= Seq::<(Seq<char>, i32)>::empty());
    }
}

/// Appending an action and then saving and loading the program gives the program
/// with that action at the end.
pub proof fn lemma_append_save_load(s: Seq<Action>, a: Action)
    ensures
        program_of(records_of(s.push(a))) == Some(s.push(a)),
{
    lemma_records_round_trip(s.push(a));
}

/// The stored form of a program, one (tag, argument) pair per action.
pub fn action_records(actions: &Vec<Action>) -> (r: Vec<(String, i32)>)
    ensures
        records_view(r@) == records_of(actions@),
{
    let mut r: Vec<(String, i32)> = Vec::new();
    let mut k: usize = 0;
    while k < actions.len()
        invariant
            k <= actions@.len(),
            r@.len() == k,
            records_view(r@) == records_of(actions@.subrange(0, k as int)),
        decreases actions@.len() - k,
    {
        let a = actions[k];
        let ghost before = r@;
        r.push((String::from_str(a.tag()), a.value()));
        proof {
            let done = actions@.subrange(0, k as int);
            let next = actions@.subrange(0, k + 1);
            assert forall|i: int| 0 <= i < k + 1 implies #[trigger] records_view(r@)[i]
                == records_of(next)[i] by {
                if i < k {
                    assert(r@[i] == before[i]);
                    assert(records_view(before)[i] == records_of(done)[i]);
                    assert(next[i] == done[i]);
                }
            }
            assert(records_view(r@) =~= records_of(next));
        }
        k = k + 1;
    }
    assert(actions@.subrange(0, actions@.len() as int) =~= actions@);
    r
}

/// The program a stored form describes; `None` when a tag is not one of the seven.
pub fn actions_from_records(records: &Vec<(String, i32)>) -> (r: Option<Vec<Action>>)
    ensures
        match program_of(records_view(records@)) {
            Some(s) => r is Some && r->0@ == s,
            None => r is None,
        },
{
    let ghost rv = records_view(records@);
    let mut out: Vec<Action> = Vec::new();
    let mut k: usize = 0;
    while k < records.len()
        invariant
            k <= records@.len(),
            rv == records_view(records@),
            program_of(rv.subrange(0, k as int)) == Some(out@),
        decreases records@.len() - k,
    {
        let ghost next = rv.subrange(0, k + 1);
        assert(next.drop_last() =~= rv.subrange(0, k as int));
        let (tag, value) = (&records[k].0, records[k].1);
        match Action::from_tag(tag.as_str(), value) {
            Some(a) => {
                out.push(a);
            },
            None => {
                proof {
                    lemma_unknown_stays_unknown(rv, k as int + 1);
                }
                return None;
            },
        }
        k = k + 1;
    }
    assert(rv.subrange(0, records@.len() as int) =~= rv);
    Some(out)
}

/// Once a prefix names an unknown tag, every longer prefix does too.
proof fn lemma_unknown_stays_unknown(rv: Seq<(Seq<char>, i32)>, n: int)
    requires
        0 <= n <= rv.len(),
        program_of(rv.subrange(0, n)) is None,
    ensures
        program_of(rv) is None,
    decreases rv.len() - n,
{
    if n < rv.len() {
        let next = rv.subrange(0, n + 1);
        assert(next.drop_last() =~= rv.subrange(0, n));
        lemma_unknown_stays_unknown(rv, n + 1);
    } else {
        assert(rv.subrange(0, n) =~= rv);
    }
}

/// The configuration to write when saving `actions`: the one that was loaded (or an
/// empty one when loading failed) with its program replaced by a copy of `actions`.
pub fn save_actions(loaded: Option<Config>, actions: &Vec<Action>) -> (r: Config)
    ensures
        r.actions@ == actions@,
{
    let mut config = match loaded {
        Some(c) => c,
        None => Config { actions: Vec::new() },
    };
    let mut copy: Vec<Action> = Vec::new();
    let mut k: usize = 0;
    while k < actions.len()
        invariant
            k <= actions@.len(),
            copy@ == actions@.subrange(0, k as int),
        decreases actions@.len() - k,
    {
        copy.push(actions[k]);
        k = k + 1;
        assert(copy@ =~= actions@.subrange(0, k as int));
    }
    assert(copy@ =~= actions@);
    config.actions = copy;
    config
}

} // verus!
