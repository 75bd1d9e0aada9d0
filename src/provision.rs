use vstd::prelude::*;

use crate::error::MigrationError;
use crate::model::{copy_opt, KeyRecord};
use crate::rename::{renamed, transform, RenameRule};

verus! {

/// What the destination store is asked to create for one source key.
#[derive(Debug, Clone, PartialEq, Eq)]
pub struct CreateRequest {
    pub name: String,
    pub value: String,
    pub description: String,
    pub enabled: bool,
}

/// The request for `key` under `rule`: the renamed name, the secret value as
/// it is, the description or an empty one, and the same enabled flag.
pub open spec fn is_request_for(req: CreateRequest, key: KeyRecord, rule: Option<RenameRule>) -> bool {
    &&& key.name matches Some(n) && req.name@ == renamed(rule, n@)
    &&& key.value == Some(req.value)
    &&& match key.description {
        Some(d) => req.description == d,
        None => req.description@ == Seq::<char>::empty(),
    }
    &&& req.enabled == key.enabled
}

/// Whether a key has the fields that its creation needs.
pub open spec fn can_request(key: KeyRecord) -> bool {
    key.name is Some && key.value is Some
}

/// The error for a key, at `position` in its batch, that lacks a needed field.
pub open spec fn missing_field_error(key: KeyRecord, position: usize) -> MigrationError {
    match key.name {
        None => MigrationError::MissingName(position),
        Some(n) => MigrationError::MissingValue(n),
    }
}

/// Builds the creation request for one key, or the error for a missing name or
/// value.
pub fn create_request(key: &KeyRecord, position: usize, rule: &Option<RenameRule>) -> (r: Result<
    CreateRequest,
    MigrationError,
>)
    ensures
        r is Ok <==> can_request(*key),
        r matches Ok(req) ==> is_request_for(req, *key, *rule),
        r matches Err(e) ==> e == missing_field_error(*key, position),
{
    let name = match &key.name {
        Some(n) => n,
        None => return Err(MigrationError::MissingName(position)),
    };
    let value = match &key.value {
        Some(v) => v.clone(),
        None => return Err(MigrationError::MissingValue(name.clone())),
    };
    let description = match &key.description {
        Some(d) => d.clone(),
        None => String::new(),
    };
    Ok(CreateRequest {
        name: transform(name.as_str(), rule),
        value,
        description,
        enabled: key.enabled,
    })
}

/// What became of one source key: the key created for it, or why it failed.
#[derive(Debug, PartialEq, Eq)]
pub struct ProvisioningOutcome {
    pub source: KeyRecord,
    pub result: Result<KeyRecord, MigrationError>,
}

/// The error recorded when the store refuses to create `key`.
pub open spec fn create_failed_error(key: KeyRecord, reason: String) -> MigrationError {
    MigrationError::CreateFailed {
        key_name: key.name.unwrap(),
        reason,
    }
}

/// `keys` are the destination keys of `outcomes`, all successes, in order.
pub open spec fn created_keys(outcomes: Seq<ProvisioningOutcome>, keys: Seq<KeyRecord>) -> bool {
    &&& keys.len() == outcomes.len()
    &&& forall|i: int| 0 <= i < keys.len() ==> (#[trigger] outcomes[i]).result == Ok::<KeyRecord, MigrationError>(keys[i])
}

/// Recreates a batch of keys one at a time and stops at the first failure.
///
/// The caller asks `next_request` for a request, sends it to the store, and
/// hands the reply to `record_reply`, until `next_request` gives `None`.
/// Keys created before a failure stay created; the keys after it are never
/// asked for.
pub struct Provisioner {
    sources: Vec<KeyRecord>,
    rule: Option<RenameRule>,
    outcomes: Vec<ProvisioningOutcome>,
    pending: bool,
    halted: bool,
}

impl Provisioner {
    pub closed spec fn sources(&self) -> Seq<KeyRecord> {
        self.sources@
    }

    pub closed spec fn rule(&self) -> Option<RenameRule> {
        self.rule
    }

    /// The outcomes so far, one per source key handled, in batch order.
    pub closed spec fn outcomes(&self) -> Seq<ProvisioningOutcome> {
        self.outcomes@
    }

    /// A request was handed out and its reply is awaited.
    pub closed spec fn pending(&self) -> bool {
        self.pending
    }

    /// A key failed and the batch stopped.
    pub closed spec fn halted(&self) -> bool {
        self.halted
    }

    /// The consistency of a batch in progress: outcome `i` is that of source
    /// `i`; every outcome but a failing last one is a success; a halted batch
    /// ends in a failure.
    pub open spec fn wf(&self) -> bool {
        &&& self.outcomes().len() <= self.sources().len()
        &&& forall|i: int|
            0 <= i < self.outcomes().len() ==> (#[trigger] self.outcomes()[i]).source
                == self.sources()[i]
        &&& forall|i: int|
            0 <= i < self.outcomes().len() && !(self.halted() && i == self.outcomes().len() - 1)
                ==> (#[trigger] self.outcomes()[i]).result is Ok
        &&& self.halted() ==> self.outcomes().len() > 0 && self.outcomes().last().result is Err
        &&& self.pending() ==> !self.halted() && self.outcomes().len() < self.sources().len()
            && can_request(self.sources()[self.outcomes().len() as int])
    }

    /// No further key will be asked for.
    pub open spec fn done(&self) -> bool {
        self.halted() || self.outcomes().len() == self.sources().len()
    }

    pub fn new(sources: Vec<KeyRecord>, rule: Option<RenameRule>) -> (r: Provisioner)
        ensures
            r.wf(),
            r.sources() == sources@,
            r.rule() == rule,
            r.outcomes().len() == 0,
            !r.pending(),
            !r.halted(),
    {
        Provisioner { sources, rule, outcomes: Vec::new(), pending: false, halted: false }
    }

    /// The request for the next key, or `None` once the batch is over. A next
    /// key without a name or value ends the batch with a failure, before any
    /// request for it.
    pub fn next_request(&mut self) -> (r: Option<CreateRequest>)
        requires
            old(self).wf(),
            !old(self).pending(),
        ensures
            final(self).wf(),
            final(self).sources() == old(self).sources(),
            final(self).rule() == old(self).rule(),
            old(self).done() ==> r is None && *final(self) == *old(self),
            !old(self).done() ==> ({
                let i = old(self).outcomes().len();
                let key = old(self).sources()[i as int];
                if can_request(key) {
                    &&& r matches Some(req) && is_request_for(req, key, old(self).rule())
                    &&& final(self).pending()
                    &&& !final(self).halted()
                    &&& final(self).outcomes() == old(self).outcomes()
                } else {
                    &&& r is None
                    &&& !final(self).pending()
                    &&& final(self).halted()
                    &&& final(self).outcomes() == old(self).outcomes().push(
                        ProvisioningOutcome {
                            source: key,
                            result: Err(missing_field_error(key, i as usize)),
                        },
                    )
                }
            }),
    {
        if self.halted || self.outcomes.len() == self.sources.len() {
            return None;
        }
        let i = self.outcomes.len();
        match create_request(&self.sources[i], i, &self.rule) {
            Ok(req) => {
                self.pending = true;
                Some(req)
            },
            Err(e) => {
                let source = self.sources[i].duplicate();
                self.outcomes.push(ProvisioningOutcome { source, result: Err(e) });
                self.halted = true;
                None
            },
        }
    }

    /// Records the store's reply to the pending request: the created key, or
    /// the reason of a failure, which stops the batch.
    pub fn record_reply(&mut self, reply: Result<KeyRecord, String>)
        requires
            old(self).wf(),
            old(self).pending(),
        ensures
            final(self).wf(),
            final(self).sources() == old(self).sources(),
            final(self).rule() == old(self).rule(),
            !final(self).pending(),
            final(self).halted() == reply is Err,
            ({
                let key = old(self).sources()[old(self).outcomes().len() as int];
                final(self).outcomes() == old(self).outcomes().push(
                    ProvisioningOutcome {
                        source: key,
                        result: match reply {
                            Ok(k) => Ok(k),
                            Err(reason) => Err(create_failed_error(key, reason)),
                        },
                    },
                )
            }),
    {
        let i = self.outcomes.len();
        let source = self.sources[i].duplicate();
        let result = match reply {
            Ok(k) => Ok(k),
            Err(reason) => {
                let key_name = match &source.name {
                    Some(n) => n.clone(),
                    None => {
                        assert(false);
                        String::new()
                    },
                };
                self.halted = true;
                Err(MigrationError::CreateFailed { key_name, reason })
            },
        };
        self.outcomes.push(ProvisioningOutcome { source, result });
        self.pending = false;
        proof {
            assert(self.outcomes@.last() == self.outcomes@[i as int]);
        }
    }

    /// Whether the batch is over.
    pub fn is_done(&self) -> (r: bool)
        ensures
            r == self.done(),
    {
        self.halted || self.outcomes.len() == self.sources.len()
    }

    /// Ends a finished batch: the created keys in batch order, or the failure
    /// that stopped it.
    pub fn finish(self) -> (r: Result<Vec<KeyRecord>, MigrationError>)
        requires
            self.wf(),
            !self.pending(),
            self.done(),
        ensures
            self.halted() ==> r == Err::<Vec<KeyRecord>, MigrationError>(
                self.outcomes().last().result->Err_0,
            ),
            !self.halted() ==> (r matches Ok(keys) && created_keys(self.outcomes(), keys@)),
    {
        let mut outcomes = self.outcomes;
        if self.halted {
            let last = outcomes.pop();
            match last {
                Some(o) => match o.result {
                    Err(e) => Err(e),
                    Ok(_) => {
                        assert(false);
                        Err(MigrationError::ListFailed(String::new()))
                    },
                },
                None => {
                    assert(false);
                    Err(MigrationError::ListFailed(String::new()))
                },
            }
        } else {
            let mut keys: Vec<KeyRecord> = Vec::new();
            let mut i: usize = 0;
            while i < outcomes.len()
                invariant
                    i <= outcomes@.len(),
                    forall|j: int| 0 <= j < outcomes@.len() ==> (#[trigger] outcomes@[j]).result is Ok,
                    keys@.len() == i,
                    forall|j: int| 0 <= j < i ==> #[trigger] keys@[j] == outcomes@[j].result->Ok_0,
                decreases outcomes@.len() - i,
            {
                match &outcomes[i].result {
                    Ok(k) => keys.push(k.duplicate()),
                    Err(_) => {
                        assert(false);
                    },
                }
                i = i + 1;
            }
            Ok(keys)
        }
    }

    /// The outcomes so far, in batch order.
    pub fn outcomes_ref(&self) -> (r: &Vec<ProvisioningOutcome>)
        ensures
            r@ == self.outcomes(),
    {
        &self.outcomes
    }
}


/// Without a rename rule, the key created for a source key bears the source
/// key's own name.
pub proof fn lemma_no_rule_keeps_name(req: CreateRequest, key: KeyRecord)
    requires
        is_request_for(req, key, None),
    ensures
        key.name matches Some(n) && req.name@ == n@,
{
}

/// Once a key has failed, the batch is over: no later key is asked for, and
/// every key handled before the failing one was created.
pub proof fn lemma_failure_ends_batch(p: Provisioner)
    requires
        p.wf(),
        p.halted(),
    ensures
        p.done(),
        !p.pending(),
        p.outcomes().last().result is Err,
        forall|i: int| 0 <= i < p.outcomes().len() - 1 ==> (#[trigger] p.outcomes()[i]).result is Ok,
{
}

} // verus!
