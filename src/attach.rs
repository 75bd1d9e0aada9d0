use vstd::prelude::*;

use crate::error::MigrationError;
use crate::model::KeyRecord;

verus! {

/// What the destination store is asked for to attach one key to a usage plan.
#[derive(Debug, Clone, PartialEq, Eq)]
pub struct AttachRequest {
    pub plan_id: String,
    pub key_id: String,
}

/// Attaches created keys, in order, to a usage plan, and stops at the first
/// failure. Without a plan it asks for nothing.
///
/// The caller asks `next_request` for a request, sends it, and hands the reply
/// to `record_reply`, until `next_request` gives `None`.
pub struct Attacher {
    plan_id: Option<String>,
    keys: Vec<KeyRecord>,
    attached: usize,
    pending: bool,
    failure: Option<MigrationError>,
}

impl Attacher {
    pub closed spec fn plan_id(&self) -> Option<String> {
        self.plan_id
    }

    pub closed spec fn keys(&self) -> Seq<KeyRecord> {
        self.keys@
    }

    /// How many keys, from the first on, are attached.
    pub closed spec fn attached(&self) -> nat {
        self.attached as nat
    }

    /// A request was handed out and its reply is awaited.
    pub closed spec fn pending(&self) -> bool {
        self.pending
    }

    /// Why the attaching stopped, if it failed.
    pub closed spec fn failure(&self) -> Option<MigrationError> {
        self.failure
    }

    pub open spec fn wf(&self) -> bool {
        &&& self.attached() <= self.keys().len()
        &&& self.pending() ==> self.failure() is None && self.plan_id() is Some
            && self.attached() < self.keys().len()
            && self.keys()[self.attached() as int].id is Some
    }

    /// No further key will be attached.
    pub open spec fn done(&self) -> bool {
        self.plan_id() is None || self.failure() is Some || self.attached() == self.keys().len()
    }

    pub fn new(keys: Vec<KeyRecord>, plan_id: Option<String>) -> (r: Attacher)
        ensures
            r.wf(),
            r.keys() == keys@,
            r.plan_id() == plan_id,
            r.attached() == 0,
            !r.pending(),
            r.failure() is None,
    {
        Attacher { plan_id, keys, attached: 0, pending: false, failure: None }
    }

    /// The request for the next key, or `None` once there is nothing left to
    /// do. A next key without an id stops the attaching with a failure.
    pub fn next_request(&mut self) -> (r: Option<AttachRequest>)
        requires
            old(self).wf(),
            !old(self).pending(),
        ensures
            final(self).wf(),
            final(self).keys() == old(self).keys(),
            final(self).plan_id() == old(self).plan_id(),
            final(self).attached() == old(self).attached(),
            old(self).done() ==> r is None && *final(self) == *old(self),
            !old(self).done() ==> ({
                let i = old(self).attached();
                let key = old(self).keys()[i as int];
                match key.id {
                    Some(id) => {
                        &&& r == Some(AttachRequest { plan_id: old(self).plan_id()->Some_0, key_id: id })
                        &&& final(self).pending()
                        &&& final(self).failure() is None
                    },
                    None => {
                        &&& r is None
                        &&& !final(self).pending()
                        &&& final(self).failure() == Some(MigrationError::MissingId(i as usize))
                    },
                }
            }),
    {
        let plan_id = match &self.plan_id {
            Some(p) => p,
            None => return None,
        };
        if self.failure.is_some() || self.attached == self.keys.len() {
            return None;
        }
        let i = self.attached;
        match &self.keys[i].id {
            Some(id) => {
                let req = AttachRequest { plan_id: plan_id.clone(), key_id: id.clone() };
                self.pending = true;
                Some(req)
            },
            None => {
                self.failure = Some(MigrationError::MissingId(i));
                None
            },
        }
    }

    /// Records the store's reply to the pending request. A failure stops the
    /// attaching; the keys attached before it stay attached.
    pub fn record_reply(&mut self, reply: Result<(), String>)
        requires
            old(self).wf(),
            old(self).pending(),
        ensures
            final(self).wf(),
            final(self).keys() == old(self).keys(),
            final(self).plan_id() == old(self).plan_id(),
            !final(self).pending(),
            match reply {
                Ok(_) => final(self).attached() == old(self).attached() + 1
                    && final(self).failure() is None,
                Err(reason) => final(self).attached() == old(self).attached()
                    && final(self).failure() == Some(
                    MigrationError::AttachFailed {
                        key_id: old(self).keys()[old(self).attached() as int].id->Some_0,
                        plan_id: old(self).plan_id()->Some_0,
                        reason,
                    },
                ),
            },
    {
        self.pending = false;
        match reply {
            Ok(_) => {
                let n = self.keys.len();
                assert(self.attached < n);
                self.attached = self.attached + 1;
            },
            Err(reason) => {
                let key_id = match &self.keys[self.attached].id {
                    Some(id) => id.clone(),
                    None => {
                        assert(false);
                        String::new()
                    },
                };
                let plan_id = match &self.plan_id {
                    Some(p) => p.clone(),
                    None => {
                        assert(false);
                        String::new()
                    },
                };
                self.failure = Some(MigrationError::AttachFailed { key_id, plan_id, reason });
            },
        }
    }

    /// Whether nothing is left to do.
    pub fn is_done(&self) -> (r: bool)
        ensures
            r == self.done(),
    {
        self.plan_id.is_none() || self.failure.is_some() || self.attached == self.keys.len()
    }

    /// Ends the attaching: how many keys were attached, or the failure that
    /// stopped it.
    pub fn finish(self) -> (r: Result<usize, MigrationError>)
        requires
            self.wf(),
            !self.pending(),
        ensures
            self.failure() matches Some(e) ==> r == Err::<usize, MigrationError>(e),
            self.failure() is None ==> r == Ok::<usize, MigrationError>(self.attached() as usize),
    {
        match self.failure {
            Some(e) => Err(e),
            None => Ok(self.attached),
        }
    }
}

} // verus!
