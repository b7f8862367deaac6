//! What holds of the operations together, stated over the entries that
//! `document` reads from the content.
use crate::document::{clear_entries, get_reply, set_entries, Error};
use serde_json::Value;
use vstd::prelude::*;

verus! {

/// A value that was set is what a lookup of its key gives back.
pub proof fn lemma_set_then_get(m: Map<Seq<char>, Value>, key: Seq<char>, v: Value)
    ensures
        get_reply(set_entries(m, key, v), key) == Ok::<Value, Error>(v),
{
}

/// After a key is set it is present; after it is cleared it is absent.
pub proof fn lemma_set_clear_presence(m: Map<Seq<char>, Value>, key: Seq<char>, v: Value)
    ensures
        set_entries(m, key, v).contains_key(key),
        !clear_entries(m, key).contains_key(key),
        !clear_entries(set_entries(m, key, v), key).contains_key(key),
{
}

/// Clearing a key that is absent leaves the entries as they were.
pub proof fn lemma_clear_absent(m: Map<Seq<char>, Value>, key: Seq<char>)
    requires
        !m.contains_key(key),
    ensures
        clear_entries(m, key) == m,
{
    assert(clear_entries(m, key) =~= m);
}

/// A lookup of a key that is absent, or that was just cleared, fails with
/// `NotFound`.
pub proof fn lemma_get_missing(m: Map<Seq<char>, Value>, key: Seq<char>)
    ensures
        !m.contains_key(key) ==> get_reply(m, key) == Err::<Value, Error>(Error::NotFound),
        get_reply(clear_entries(m, key), key) == Err::<Value, Error>(Error::NotFound),
{
}

/// The entries after a run of changes, each a key with the value it is set
/// to, or with `None` where it is cleared.
pub open spec fn apply_changes(
    m: Map<Seq<char>, Value>,
    changes: Seq<(Seq<char>, Option<Value>)>,
) -> Map<Seq<char>, Value>
    decreases changes.len(),
{
    if changes.len() == 0 {
        m
    } else {
        let before = apply_changes(m, changes.drop_last());
        let (key, change) = changes.last();
        match change {
            Some(v) => set_entries(before, key, v),
            None => clear_entries(before, key),
        }
    }
}

/// The last change of a key in the run, if there is one.
pub open spec fn last_change(changes: Seq<(Seq<char>, Option<Value>)>, key: Seq<char>) -> Option<
    Option<Value>,
>
    decreases changes.len(),
{
    if changes.len() == 0 {
        None
    } else if changes.last().0 == key {
        Some(changes.last().1)
    } else {
        last_change(changes.drop_last(), key)
    }
}

/// After a run of changes, each key holds the value it was last set to, is
/// absent where it was last cleared, and is as before where it was not
/// touched.
pub proof fn lemma_changes_kept(
    m: Map<Seq<char>, Value>,
    changes: Seq<(Seq<char>, Option<Value>)>,
    key: Seq<char>,
)
    ensures
        match last_change(changes, key) {
            Some(Some(v)) => apply_changes(m, changes).contains_key(key) && apply_changes(
                m,
                changes,
            )[key] == v,
            Some(None) => !apply_changes(m, changes).contains_key(key),
            None => get_reply(apply_changes(m, changes), key) == get_reply(m, key),
        },
    decreases changes.len(),
{
    if changes.len() > 0 {
        lemma_changes_kept(m, changes.drop_last(), key);
    }
}

} // verus!
