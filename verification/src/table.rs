//! The channel table as its UNIQUE columns keep it: no channel id and no
//! owner id occurs in two rows. A write that would break this is refused by
//! the database, and the handlers abort when a row write of theirs fails.

use vstd::prelude::*;
use crate::connect::{ConnectAction, ConnectEvent, ConnectMachine, connect_step_spec, inserts_row};
use crate::text::decimal;
use crate::voice::{AbortReason, Outcome};

verus! {

/// The rows of the channel table, each a channel id and an owner id as text.
pub open spec fn unique_rows(t: Seq<(Seq<char>, Seq<char>)>) -> bool {
    forall|i: int, j: int|
        #![trigger t[i], t[j]]
        0 <= i < t.len() && 0 <= j < t.len() && i != j ==> t[i].0 != t[j].0 && t[i].1 != t[j].1
}

/// Whether some row records channel `v`.
pub open spec fn has_channel(t: Seq<(Seq<char>, Seq<char>)>, v: Seq<char>) -> bool {
    exists|i: int| 0 <= i < t.len() && #[trigger] t[i].0 == v
}

/// Whether some row records owner `o`.
pub open spec fn has_owner(t: Seq<(Seq<char>, Seq<char>)>, o: Seq<char>) -> bool {
    exists|i: int| 0 <= i < t.len() && #[trigger] t[i].1 == o
}

/// Inserting the row `(v, o)`: refused when either id is already recorded,
/// else the row is added.
pub open spec fn table_insert(t: Seq<(Seq<char>, Seq<char>)>, v: Seq<char>, o: Seq<char>) -> Option<Seq<(Seq<char>, Seq<char>)>> {
    if has_channel(t, v) || has_owner(t, o) {
        None
    } else {
        Some(t.push((v, o)))
    }
}

/// Setting the owner of channel `v` to `o`: refused when `o` owns another
/// channel, else the row of `v` (if any) gets owner `o`.
pub open spec fn table_set_owner(t: Seq<(Seq<char>, Seq<char>)>, v: Seq<char>, o: Seq<char>) -> Option<Seq<(Seq<char>, Seq<char>)>> {
    if exists|i: int| 0 <= i < t.len() && #[trigger] t[i].1 == o && t[i].0 != v {
        None
    } else {
        Some(t.map_values(|r: (Seq<char>, Seq<char>)| if r.0 == v { (v, o) } else { r }))
    }
}

/// A row of a channel other than `v`.
pub open spec fn other_channel(v: Seq<char>) -> spec_fn((Seq<char>, Seq<char>)) -> bool {
    |r: (Seq<char>, Seq<char>)| r.0 != v
}

/// Deleting the row of channel `v`.
pub open spec fn table_delete(t: Seq<(Seq<char>, Seq<char>)>, v: Seq<char>) -> Seq<(Seq<char>, Seq<char>)> {
    t.filter(other_channel(v))
}

/// Every write that the table accepts keeps one owner per channel and one
/// channel per owner.
pub proof fn law_rows_stay_unique(t: Seq<(Seq<char>, Seq<char>)>, v: Seq<char>, o: Seq<char>)
    requires
        unique_rows(t),
    ensures
        table_insert(t, v, o) matches Some(t2) ==> unique_rows(t2),
        table_set_owner(t, v, o) matches Some(t2) ==> unique_rows(t2),
        unique_rows(table_delete(t, v)),
{
    if let Some(t2) = table_insert(t, v, o) {
        assert forall|i: int, j: int|
            #![trigger t2[i], t2[j]]
            0 <= i < t2.len() && 0 <= j < t2.len() && i != j implies t2[i].0 != t2[j].0
                && t2[i].1 != t2[j].1 by {
            if i == t.len() as int {
                assert(!has_channel(t, v) && !has_owner(t, o));
                assert(t2[j] == t[j]);
            } else if j == t.len() as int {
                assert(!has_channel(t, v) && !has_owner(t, o));
                assert(t2[i] == t[i]);
            } else {
                assert(t2[i] == t[i] && t2[j] == t[j]);
            }
        }
    }
    if let Some(t2) = table_set_owner(t, v, o) {
        assert forall|i: int, j: int|
            #![trigger t2[i], t2[j]]
            0 <= i < t2.len() && 0 <= j < t2.len() && i != j implies t2[i].0 != t2[j].0
                && t2[i].1 != t2[j].1 by {
            assert(t[i].0 != t[j].0 && t[i].1 != t[j].1);
            if t[i].0 == v {
                assert(t2[i] == (v, o));
                assert(t2[j] == t[j]);
                if t[j].1 == o {
                    assert(0 <= j < t.len() && t[j].1 == o && t[j].0 != v);
                }
            } else if t[j].0 == v {
                assert(t2[j] == (v, o));
                assert(t2[i] == t[i]);
                if t[i].1 == o {
                    assert(0 <= i < t.len() && t[i].1 == o && t[i].0 != v);
                }
            } else {
                assert(t2[i] == t[i] && t2[j] == t[j]);
            }
        }
    }
    lemma_filter_keeps_unique(t, v);
}

/// Deleting a channel's row keeps the rows unique.
proof fn lemma_filter_keeps_unique(t: Seq<(Seq<char>, Seq<char>)>, v: Seq<char>)
    requires
        unique_rows(t),
    ensures
        unique_rows(table_delete(t, v)),
    decreases t.len(),
{
    let f = other_channel(v);
    reveal_with_fuel(Seq::filter, 1);
    if t.len() > 0 {
        let s = t.drop_last();
        assert(unique_rows(s)) by {
            assert forall|i: int, j: int|
                #![trigger s[i], s[j]]
                0 <= i < s.len() && 0 <= j < s.len() && i != j implies s[i].0 != s[j].0
                    && s[i].1 != s[j].1 by {
                assert(s[i] == t[i] && s[j] == t[j]);
                assert(t[i].0 != t[j].0 && t[i].1 != t[j].1);
            }
        }
        lemma_filter_keeps_unique(s, v);
        let d = table_delete(s, v);
        assert(table_delete(t, v) == if f(t.last()) { d.push(t.last()) } else { d });
        if f(t.last()) {
            let d2 = d.push(t.last());
            assert forall|i: int, j: int|
                #![trigger d2[i], d2[j]]
                0 <= i < d2.len() && 0 <= j < d2.len() && i != j implies d2[i].0 != d2[j].0
                    && d2[i].1 != d2[j].1 by {
                if i == d.len() as int || j == d.len() as int {
                    let k = if i == d.len() as int { j } else { i };
                    assert(d2[k] == d[k]);
                    assert(d.contains(d[k]));
                    s.lemma_filter_contains_rev(f, d[k]);
                    let m = choose|m: int| 0 <= m < s.len() && s[m] == d[k];
                    assert(t[m] == s[m]);
                    assert(t[t.len() - 1] == t.last());
                    assert(t[m].0 != t[t.len() - 1].0 && t[m].1 != t[t.len() - 1].1);
                } else {
                    assert(d2[i] == d[i] && d2[j] == d[j]);
                }
            }
        }
    } else {
        assert(table_delete(t, v) =~= t);
    }
}

/// When the member already owns a row, the row insert that the join handler
/// asks for is refused by the table, and the run then aborts: a run that
/// moves the member back to their channel, or finds their channel gone,
/// never leaves a second row with them as owner.
pub proof fn law_join_insert_refused_for_an_owner(
    t: Seq<(Seq<char>, Seq<char>)>,
    m: ConnectMachine,
    e: ConnectEvent,
    r: (ConnectMachine, ConnectAction),
    r2: (ConnectMachine, ConnectAction),
)
    requires
        has_owner(t, decimal(m.member.user_id as nat)),
        connect_step_spec(m, e, r),
        r.1 matches ConnectAction::InsertRecord { .. },
        connect_step_spec(r.0, ConnectEvent::Completed { ok: false }, r2),
    ensures
        r.1 matches ConnectAction::InsertRecord { voice_id, owner_id } && table_insert(t, voice_id@, owner_id@) is None,
        r2.1 == ConnectAction::Finish(Outcome::Abort(AbortReason::DatabaseFailed)),
{
}

/// When the member owns no row and the channel just created is recorded
/// nowhere, the table accepts the row insert that the join handler asks for,
/// and the rows stay unique, now recording the channel with the member as
/// owner.
pub proof fn law_join_insert_fits_a_fresh_owner(
    t: Seq<(Seq<char>, Seq<char>)>,
    a: ConnectAction,
    created: u64,
    member: u64,
)
    requires
        unique_rows(t),
        inserts_row(a, created, member),
        !has_owner(t, decimal(member as nat)),
        !has_channel(t, decimal(created as nat)),
    ensures
        a matches ConnectAction::InsertRecord { voice_id, owner_id } && table_insert(t, voice_id@, owner_id@) matches Some(t2)
            && unique_rows(t2) && t2.last() == (decimal(created as nat), decimal(member as nat)),
{
    if let ConnectAction::InsertRecord { voice_id, owner_id } = a {
        law_rows_stay_unique(t, voice_id@, owner_id@);
    }
}

} // verus!
