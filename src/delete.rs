use vstd::prelude::*;

use crate::error::MigrationError;
use crate::model::KeyRecord;

verus! {

/// Whether every key has an id.
pub open spec fn all_have_ids(keys: Seq<KeyRecord>) -> bool {
    forall|i: int| 0 <= i < keys.len() ==> (#[trigger] keys[i]).id is Some
}

/// The ids of the keys to delete, in order, or the position of the first key
/// that has no id, before any deletion is asked for.
pub fn deletion_targets(keys: &Vec<KeyRecord>) -> (r: Result<Vec<String>, MigrationError>)
    ensures
        r is Ok <==> all_have_ids(keys@),
        r matches Ok(ids) ==> ids@.len() == keys@.len() && forall|i: int|
            0 <= i < ids@.len() ==> keys@[i].id == Some(#[trigger] ids@[i]),
        r matches Err(e) ==> exists|i: int|
            0 <= i < keys@.len() && keys@[i].id is None && e == MigrationError::MissingId(i as usize)
                && all_have_ids(keys@.subrange(0, i)),
{
    let mut ids: Vec<String> = Vec::new();
    let mut i: usize = 0;
    while i < keys.len()
        invariant
            i <= keys@.len(),
            ids@.len() == i,
            forall|j: int| 0 <= j < i ==> keys@[j].id == Some(#[trigger] ids@[j]),
            forall|j: int| 0 <= j < i ==> (#[trigger] keys@[j]).id is Some,
        decreases keys@.len() - i,
    {
        match &keys[i].id {
            Some(id) => ids.push(id.clone()),
            None => {
                proof {
                    assert forall|j: int| 0 <= j < i implies (#[trigger] keys@.subrange(
                        0,
                        i as int,
                    )[j]).id is Some by {
                        assert(keys@.subrange(0, i as int)[j] == keys@[j]);
                    }
                }
                return Err(MigrationError::MissingId(i));
            },
        }
        i = i + 1;
    }
    Ok(ids)
}

/// What a best-effort deletion did: how many deletions were asked for, and
/// how many of them the store confirmed.
#[derive(Debug, Clone, PartialEq, Eq)]
pub struct DeletionReport {
    pub attempted: usize,
    pub confirmed: usize,
}

/// How many of the replies are confirmations.
pub open spec fn confirmed_count(replies: Seq<Result<(), String>>) -> nat
    decreases replies.len(),
{
    if replies.len() == 0 {
        0
    } else {
        confirmed_count(replies.drop_last()) + if replies.last() is Ok {
            1nat
        } else {
            0nat
        }
    }
}

/// Sums up the replies to the deletions: each asked-for deletion counts as
/// attempted, whatever its reply; failures are not reported further.
pub fn deletion_report(replies: &Vec<Result<(), String>>) -> (r: DeletionReport)
    ensures
        r.attempted == replies@.len(),
        r.confirmed == confirmed_count(replies@),
{
    let mut confirmed: usize = 0;
    let mut i: usize = 0;
    while i < replies.len()
        invariant
            i <= replies@.len(),
            confirmed == confirmed_count(replies@.subrange(0, i as int)),
            confirmed <= i,
        decreases replies@.len() - i,
    {
        proof {
            assert(replies@.subrange(0, i + 1).drop_last() == replies@.subrange(0, i as int));
        }
        if replies[i].is_ok() {
            confirmed = confirmed + 1;
        }
        i = i + 1;
    }
    assert(replies@.subrange(0, replies@.len() as int) == replies@);
    DeletionReport { attempted: replies.len(), confirmed }
}

} // verus!
