//! Laws of the area store, stated over a map model of the backend.
//!
//! A law follows an operation's record through the backend: a read answered
//! truthfully by the records `m` (see [`answers`]), the action the operation
//! chose, and the records once that action was carried out (see [`after`]).

use vstd::prelude::*;
use crate::codec::{decoded, le_bytes, le_value, lemma_round_trip, StoreError};
use crate::store::{
    adjust_outcome, adjusted, after, answers, clean_outcome, declare_outcome, score_result,
    Action, Fetched, Records,
};

verus! {

/// The score `current` after each of `deltas` in turn.
pub open spec fn adjusted_all(current: u32, deltas: Seq<i32>) -> u32
    decreases deltas.len(),
{
    if deltas.len() == 0 {
        current
    } else {
        adjusted_all(adjusted(current, deltas[0]), deltas.drop_first())
    }
}

/// The records after `adjust_score(n, d)` for each `d` of `deltas` in turn.
pub open spec fn replay(m: Records, n: Seq<char>, deltas: Seq<i32>) -> Records
    decreases deltas.len(),
{
    if deltas.len() == 0 {
        m
    } else {
        replay(m.insert(n, le_bytes(adjusted(le_value(m[n]), deltas[0]))), n, deltas.drop_first())
    }
}

/// Once `declare_area(n)` has written its record, `score_of(n)` is zero.
pub proof fn lemma_declared_area_scores_zero(
    m: Records,
    n: Seq<char>,
    f1: Fetched,
    a: Action<String>,
    f2: Fetched,
)
    requires
        answers(f1, m, n),
        declare_outcome(n, f1, a),
        a is Persist,
        answers(f2, after(m, a), n),
    ensures
        score_result(f2) == Ok::<Option<u32>, StoreError>(Some(0u32)),
{
    lemma_round_trip(0);
}

/// Declaring an area a second time fails with `AlreadyExists` and writes nothing.
pub proof fn lemma_declare_twice(
    m: Records,
    n: Seq<char>,
    f1: Fetched,
    a1: Action<String>,
    f2: Fetched,
    a2: Action<String>,
)
    requires
        answers(f1, m, n),
        declare_outcome(n, f1, a1),
        a1 is Persist,
        answers(f2, after(m, a1), n),
        declare_outcome(n, f2, a2),
    ensures
        a2 == Action::<String>::Reply(Err(StoreError::AlreadyExists)),
        after(after(m, a1), a2) == after(m, a1),
{
}

/// An area that was never declared has no score, and cleaning or adjusting
/// it fails with `NotFound` and writes nothing.
pub proof fn lemma_undeclared_area(
    m: Records,
    n: Seq<char>,
    f: Fetched,
    delta: i32,
    c: Action<String>,
    a: Action<u32>,
)
    requires
        answers(f, m, n),
        !m.contains_key(n),
        clean_outcome(n, f, c),
        adjust_outcome(n, delta, f, a),
    ensures
        score_result(f) == Ok::<Option<u32>, StoreError>(None),
        c == Action::<String>::Reply(Err(StoreError::NotFound)),
        a == Action::<u32>::Reply(Err(StoreError::NotFound)),
        after(m, c) == m,
        after(m, a) == m,
{
}

/// One `adjust_score(n, delta)` on a well-formed record writes and returns
/// the clamped sum, `max(current + delta, 0)` wherever that fits in a `u32`,
/// and `score_of(n)` then reads it back.
pub proof fn lemma_adjust_step(
    m: Records,
    n: Seq<char>,
    delta: i32,
    f1: Fetched,
    a: Action<u32>,
    f2: Fetched,
)
    requires
        answers(f1, m, n),
        m.contains_key(n),
        m[n].len() == 4,
        adjust_outcome(n, delta, f1, a),
        answers(f2, after(m, a), n),
    ensures
        a is Persist,
        a->Persist_1 == adjusted(le_value(m[n]), delta),
        after(m, a) == m.insert(n, le_bytes(adjusted(le_value(m[n]), delta))),
        score_result(f2) == Ok::<Option<u32>, StoreError>(Some(a->Persist_1)),
        le_value(m[n]) as int + delta as int <= u32::MAX as int ==> a->Persist_1 as int == if le_value(
            m[n],
        ) as int + delta as int >= 0 {
            le_value(m[n]) as int + delta as int
        } else {
            0
        },
{
    lemma_round_trip(adjusted(le_value(m[n]), delta));
}

/// Through any sequence of adjustments a declared area keeps a well-formed
/// record, so `score_of(n)` always gives a score, and that score is the
/// clamped running sum.
pub proof fn lemma_adjust_sequence(m: Records, n: Seq<char>, deltas: Seq<i32>)
    requires
        m.contains_key(n),
        m[n].len() == 4,
    ensures
        replay(m, n, deltas).contains_key(n),
        decoded(replay(m, n, deltas)[n]) == Ok::<u32, StoreError>(
            adjusted_all(le_value(m[n]), deltas),
        ),
    decreases deltas.len(),
{
    if deltas.len() > 0 {
        let next = m.insert(n, le_bytes(adjusted(le_value(m[n]), deltas[0])));
        lemma_round_trip(adjusted(le_value(m[n]), deltas[0]));
        lemma_adjust_sequence(next, n, deltas.drop_first());
    }
}

/// Cleaning a declared area twice in a row leaves score zero both times;
/// the second clean changes nothing.
pub proof fn lemma_clean_twice(
    m: Records,
    n: Seq<char>,
    f1: Fetched,
    c1: Action<String>,
    f2: Fetched,
    c2: Action<String>,
    f3: Fetched,
)
    requires
        answers(f1, m, n),
        m.contains_key(n),
        clean_outcome(n, f1, c1),
        answers(f2, after(m, c1), n),
        clean_outcome(n, f2, c2),
        answers(f3, after(after(m, c1), c2), n),
    ensures
        c1 is Persist,
        c2 is Persist,
        score_result(f2) == Ok::<Option<u32>, StoreError>(Some(0u32)),
        score_result(f3) == Ok::<Option<u32>, StoreError>(Some(0u32)),
        after(after(m, c1), c2) == after(m, c1),
{
    lemma_round_trip(0);
    assert(after(after(m, c1), c2) =~= after(m, c1));
}

} // verus!
