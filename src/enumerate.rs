use vstd::prelude::*;

use crate::error::MigrationError;
use crate::model::{keys_from_usage_plan_keys, keys_of_usage_plan_keys, KeyRecord, UsagePlanKeyRecord};

verus! {

/// Whether a listing is over once a page came with `next` as its position,
/// after asking from `previous`: no further position, an empty one, or the
/// one just asked from again.
pub open spec fn cursor_exhausted(previous: Option<String>, next: Option<String>) -> bool {
    match next {
        None => true,
        Some(p) => p@.len() == 0 || (previous matches Some(q) && q@ == p@),
    }
}

/// A listing that the store serves in pages: each page comes with the
/// position of the next one. Pages are joined in the order received, with
/// nothing sorted or removed. A failed page ends the listing, and what came
/// before it is dropped.
///
/// The caller asks `next_page` where to read from, reads that page, and hands
/// the reply to `add_page`, until `next_page` gives `None`.
pub struct Listing<T> {
    items: Vec<T>,
    position: Option<String>,
    finished: bool,
    failure: Option<String>,
}

impl<T> Listing<T> {
    /// The items received so far.
    pub closed spec fn items(&self) -> Seq<T> {
        self.items@
    }

    /// Where the next page starts; `None` for the first page.
    pub closed spec fn position(&self) -> Option<String> {
        self.position
    }

    pub closed spec fn finished(&self) -> bool {
        self.finished
    }

    /// The reason of a failed page.
    pub closed spec fn failure(&self) -> Option<String> {
        self.failure
    }

    pub open spec fn wf(&self) -> bool {
        self.failure() is Some ==> self.finished()
    }

    pub fn new() -> (r: Listing<T>)
        ensures
            r.wf(),
            r.items().len() == 0,
            r.position() is None,
            !r.finished(),
            r.failure() is None,
    {
        Listing { items: Vec::new(), position: None, finished: false, failure: None }
    }

    /// The position to read the next page from (`Some(None)` for the first
    /// page), or `None` once the listing is over.
    pub fn next_page(&self) -> (r: Option<Option<String>>)
        ensures
            self.finished() ==> r is None,
            !self.finished() ==> r == Some(self.position()),
    {
        if self.finished {
            None
        } else {
            match &self.position {
                Some(p) => Some(Some(p.clone())),
                None => Some(None),
            }
        }
    }

    /// Takes in the reply for the page asked for: its items and the position
    /// of the next page, or the reason it failed.
    pub fn add_page(&mut self, reply: Result<(Vec<T>, Option<String>), String>)
        requires
            old(self).wf(),
            !old(self).finished(),
        ensures
            final(self).wf(),
            match reply {
                Ok((page, next)) => {
                    &&& final(self).items() == old(self).items() + page@
                    &&& final(self).finished() == cursor_exhausted(old(self).position(), next)
                    &&& final(self).position() == next
                    &&& final(self).failure() is None
                },
                Err(reason) => {
                    &&& final(self).finished()
                    &&& final(self).failure() == Some(reason)
                },
            },
    {
        match reply {
            Ok((page, next)) => {
                let mut page = page;
                self.items.append(&mut page);
                let exhausted = match &next {
                    None => true,
                    Some(p) => p.as_str().is_empty() || same_position(&self.position, p),
                };
                self.finished = exhausted;
                self.position = next;
            },
            Err(reason) => {
                self.finished = true;
                self.failure = Some(reason);
            },
        }
    }

    /// Ends the listing: all items in the order received, or the failure of
    /// a page (earlier pages are dropped).
    pub fn finish(self) -> (r: Result<Vec<T>, MigrationError>)
        requires
            self.wf(),
        ensures
            self.failure() matches Some(reason) ==> r == Err::<Vec<T>, MigrationError>(
                MigrationError::ListFailed(reason),
            ),
            self.failure() is None ==> (r matches Ok(items) && items@ == self.items()),
    {
        match self.failure {
            Some(reason) => Err(MigrationError::ListFailed(reason)),
            None => Ok(self.items),
        }
    }
}

impl Listing<UsagePlanKeyRecord> {
    /// Ends a listing made through a usage plan: the keys rebuilt from it in
    /// order, each without description and with the enabled flag false, or the
    /// failure of a page.
    pub fn finish_as_keys(self) -> (r: Result<Vec<KeyRecord>, MigrationError>)
        requires
            self.wf(),
        ensures
            self.failure() matches Some(reason) ==> r == Err::<Vec<KeyRecord>, MigrationError>(
                MigrationError::ListFailed(reason),
            ),
            self.failure() is None ==> (r matches Ok(keys) && keys@ == keys_of_usage_plan_keys(
                self.items(),
            )),
    {
        match self.finish() {
            Ok(items) => Ok(keys_from_usage_plan_keys(&items)),
            Err(e) => Err(e),
        }
    }
}

/// Whether `p` is the position held in `previous`.
fn same_position(previous: &Option<String>, p: &String) -> (r: bool)
    ensures
        r == (previous matches Some(q) && q@ == p@),
{
    match previous {
        Some(q) => *q == *p,
        None => false,
    }
}

} // verus!
