use vstd::prelude::*;

verus! {

/// Copies an optional string, keeping its contents.
pub fn copy_opt(s: &Option<String>) -> (r: Option<String>)
    ensures
        r == *s,
{
    match s {
        Some(v) => Some(v.clone()),
        None => None,
    }
}

/// One API key, as read from an account or as returned by its creation.
///
/// A field that the store left out is `None`.
#[derive(Debug, Clone, PartialEq, Eq)]
pub struct KeyRecord {
    pub id: Option<String>,
    pub name: Option<String>,
    pub value: Option<String>,
    pub description: Option<String>,
    pub enabled: bool,
}

impl KeyRecord {
    /// A copy holding the same fields.
    pub fn duplicate(&self) -> (r: KeyRecord)
        ensures
            r == *self,
    {
        KeyRecord {
            id: copy_opt(&self.id),
            name: copy_opt(&self.name),
            value: copy_opt(&self.value),
            description: copy_opt(&self.description),
            enabled: self.enabled,
        }
    }

    /// The key that a usage-plan listing stands for. That listing carries no
    /// description and no enabled flag: the description is left out and the
    /// flag is false, whatever the key holds in its account.
    pub fn from_usage_plan_key(k: &UsagePlanKeyRecord) -> (r: KeyRecord)
        ensures
            r == key_of_usage_plan_key(*k),
    {
        KeyRecord {
            id: copy_opt(&k.id),
            name: copy_opt(&k.name),
            value: copy_opt(&k.value),
            description: None,
            enabled: false,
        }
    }
}

/// A usage plan of an account.
#[derive(Debug, Clone, PartialEq, Eq)]
pub struct UsagePlanRecord {
    pub id: Option<String>,
    pub name: Option<String>,
}

/// A key as a usage plan lists it: no description and no enabled flag.
#[derive(Debug, Clone, PartialEq, Eq)]
pub struct UsagePlanKeyRecord {
    pub id: Option<String>,
    pub name: Option<String>,
    pub value: Option<String>,
}

/// The key record rebuilt from a usage-plan listing.
pub open spec fn key_of_usage_plan_key(k: UsagePlanKeyRecord) -> KeyRecord {
    KeyRecord { id: k.id, name: k.name, value: k.value, description: None, enabled: false }
}

/// The key records rebuilt from a whole usage-plan listing, in its order.
pub open spec fn keys_of_usage_plan_keys(ks: Seq<UsagePlanKeyRecord>) -> Seq<KeyRecord> {
    ks.map_values(|k: UsagePlanKeyRecord| key_of_usage_plan_key(k))
}

/// Rebuilds key records from a usage-plan listing, one for each entry and in
/// the same order, each without description and with the enabled flag false.
pub fn keys_from_usage_plan_keys(ks: &Vec<UsagePlanKeyRecord>) -> (r: Vec<KeyRecord>)
    ensures
        r@ == keys_of_usage_plan_keys(ks@),
{
    let mut r: Vec<KeyRecord> = Vec::new();
    let mut i: usize = 0;
    while i < ks.len()
        invariant
            i <= ks@.len(),
            r@ == keys_of_usage_plan_keys(ks@.subrange(0, i as int)),
        decreases ks@.len() - i,
    {
        r.push(KeyRecord::from_usage_plan_key(&ks[i]));
        proof {
            assert(ks@.subrange(0, i + 1) == ks@.subrange(0, i as int).push(ks@[i as int]));
        }
        i = i + 1;
        proof {
            assert(r@ =~= keys_of_usage_plan_keys(ks@.subrange(0, i as int)));
        }
    }
    assert(ks@.subrange(0, ks@.len() as int) == ks@);
    r
}

/// Sign-in details for one account: access key, secret, optional session
/// token and region.
pub struct AwsCredentials {
    access_key_id: String,
    secret_access_key: String,
    session_token: Option<String>,
    region: String,
}

impl AwsCredentials {
    pub fn new(
        access_key_id: String,
        secret_access_key: String,
        session_token: Option<String>,
        region: String,
    ) -> (r: Self)
        ensures
            r.access_key_id() == access_key_id,
            r.secret_access_key() == secret_access_key,
            r.session_token() == session_token,
            r.region() == region,
    {
        AwsCredentials { access_key_id, secret_access_key, session_token, region }
    }

    pub closed spec fn access_key_id(&self) -> String {
        self.access_key_id
    }

    pub closed spec fn secret_access_key(&self) -> String {
        self.secret_access_key
    }

    pub closed spec fn session_token(&self) -> Option<String> {
        self.session_token
    }

    pub closed spec fn region(&self) -> String {
        self.region
    }

    /// Takes the credentials apart: access key, secret, session token, region.
    pub fn into_parts(self) -> (r: (String, String, Option<String>, String))
        ensures
            r == (self.access_key_id(), self.secret_access_key(), self.session_token(), self.region()),
    {
        (self.access_key_id, self.secret_access_key, self.session_token, self.region)
    }
}

} // verus!
