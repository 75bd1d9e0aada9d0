use exodus::attach::{AttachRequest, Attacher};
use exodus::delete::{deletion_report, deletion_targets, DeletionReport};
use exodus::enumerate::Listing;
use exodus::error::MigrationError;
use exodus::model::{keys_from_usage_plan_keys, AwsCredentials, KeyRecord, UsagePlanKeyRecord};
use exodus::provision::{create_request, CreateRequest, Provisioner};
use exodus::rename::{rule_from_options, transform, RenameRule};

fn key(id: &str, name: &str, value: &str, description: Option<&str>, enabled: bool) -> KeyRecord {
    KeyRecord {
        id: Some(id.to_string()),
        name: Some(name.to_string()),
        value: Some(value.to_string()),
        description: description.map(|d| d.to_string()),
        enabled,
    }
}

fn created(id: &str, req: &CreateRequest) -> KeyRecord {
    KeyRecord {
        id: Some(id.to_string()),
        name: Some(req.name.clone()),
        value: Some(req.value.clone()),
        description: Some(req.description.clone()),
        enabled: req.enabled,
    }
}

#[test]
fn rename_replaces_first_match_only() {
    let rule = RenameRule::new("test".to_string(), "prod".to_string()).unwrap();
    assert_eq!(rule.apply("test-test"), "prod-test");
    assert_eq!(transform("test-test", &Some(rule)), "prod-test");
}

#[test]
fn rename_without_match_keeps_name() {
    let rule = RenameRule::new("^svc-".to_string(), "app-".to_string()).unwrap();
    assert_eq!(rule.apply("other"), "other");
}

#[test]
fn transform_without_rule_keeps_name() {
    assert_eq!(transform("svc-a", &None), "svc-a");
    assert_eq!(transform("", &None), "");
}

#[test]
fn invalid_pattern_is_rejected_up_front() {
    let r = rule_from_options(Some("(".to_string()), Some("x".to_string()));
    assert_eq!(r.unwrap_err(), MigrationError::InvalidPattern("(".to_string()));
    assert!(matches!(
        RenameRule::new("[a-".to_string(), "b".to_string()),
        Err(MigrationError::InvalidPattern(_))
    ));
}

#[test]
fn rule_needs_both_pattern_and_replacement() {
    assert!(rule_from_options(Some("(".to_string()), None).unwrap().is_none());
    assert!(rule_from_options(None, Some("x".to_string())).unwrap().is_none());
    assert!(rule_from_options(Some("a".to_string()), Some("b".to_string())).unwrap().is_some());
}

#[test]
fn no_rule_keeps_every_name() {
    let sources = vec![key("1", "alpha", "v1", None, true), key("2", "beta-beta", "v2", Some("d"), false)];
    let mut p = Provisioner::new(sources.clone(), None);
    let mut i = 0;
    while let Some(req) = p.next_request() {
        assert_eq!(Some(req.name.clone()), sources[i].name);
        p.record_reply(Ok(created("new", &req)));
        i += 1;
    }
    assert_eq!(i, 2);
    assert_eq!(p.finish().unwrap().len(), 2);
}

#[test]
fn request_copies_value_description_and_flag() {
    let k = key("1", "svc-a", "secret-a", Some("first"), true);
    let rule = Some(RenameRule::new("^svc-".to_string(), "app-".to_string()).unwrap());
    let req = create_request(&k, 0, &rule).unwrap();
    assert_eq!(
        req,
        CreateRequest {
            name: "app-a".to_string(),
            value: "secret-a".to_string(),
            description: "first".to_string(),
            enabled: true
        }
    );
    let plain = key("2", "b", "secret-b", None, false);
    let req = create_request(&plain, 1, &None).unwrap();
    assert_eq!(req.description, "");
    assert!(!req.enabled);
}

#[test]
fn missing_name_or_value_is_an_error() {
    let mut no_name = key("1", "n", "v", None, true);
    no_name.name = None;
    assert_eq!(create_request(&no_name, 4, &None).unwrap_err(), MigrationError::MissingName(4));
    let mut no_value = key("1", "n", "v", None, true);
    no_value.value = None;
    assert_eq!(
        create_request(&no_value, 0, &None).unwrap_err(),
        MigrationError::MissingValue("n".to_string())
    );
}

#[test]
fn second_of_three_failing_stops_the_batch() {
    let sources = vec![
        key("1", "k1", "v1", None, true),
        key("2", "k2", "v2", None, true),
        key("3", "k3", "v3", None, true),
    ];
    let mut p = Provisioner::new(sources, None);
    let first = p.next_request().unwrap();
    p.record_reply(Ok(created("d1", &first)));
    let second = p.next_request().unwrap();
    assert_eq!(second.name, "k2");
    p.record_reply(Err("throttled".to_string()));
    assert!(p.is_done());
    assert!(p.next_request().is_none());
    let outcomes = p.outcomes_ref();
    assert_eq!(outcomes.len(), 2);
    assert_eq!(outcomes.iter().filter(|o| o.result.is_ok()).count(), 1);
    assert_eq!(
        p.finish().unwrap_err(),
        MigrationError::CreateFailed { key_name: "k2".to_string(), reason: "throttled".to_string() }
    );
}

#[test]
fn key_without_value_stops_the_batch_before_its_request() {
    let mut bad = key("2", "k2", "v2", None, true);
    bad.value = None;
    let mut p = Provisioner::new(vec![key("1", "k1", "v1", None, true), bad, key("3", "k3", "v3", None, true)], None);
    let first = p.next_request().unwrap();
    p.record_reply(Ok(created("d1", &first)));
    assert!(p.next_request().is_none());
    assert!(p.is_done());
    assert_eq!(p.finish().unwrap_err(), MigrationError::MissingValue("k2".to_string()));
}

#[test]
fn empty_batch_is_done_at_once() {
    let mut p = Provisioner::new(vec![], None);
    assert!(p.next_request().is_none());
    assert_eq!(p.finish().unwrap(), vec![]);
}

#[test]
fn usage_plan_listing_loses_description_and_flag() {
    let listed = vec![
        UsagePlanKeyRecord { id: Some("1".to_string()), name: Some("k1".to_string()), value: Some("v1".to_string()) },
        UsagePlanKeyRecord { id: Some("2".to_string()), name: Some("k2".to_string()), value: Some("v2".to_string()) },
    ];
    let keys = keys_from_usage_plan_keys(&listed);
    assert_eq!(keys, vec![key("1", "k1", "v1", None, false), key("2", "k2", "v2", None, false)]);

    let mut l: Listing<UsagePlanKeyRecord> = Listing::new();
    assert_eq!(l.next_page(), Some(None));
    l.add_page(Ok((listed, None)));
    assert_eq!(l.next_page(), None);
    let keys = l.finish_as_keys().unwrap();
    assert!(keys.iter().all(|k| !k.enabled && k.description.is_none()));
    assert_eq!(keys.len(), 2);
}

#[test]
fn pages_are_joined_in_order() {
    let mut l: Listing<KeyRecord> = Listing::new();
    l.add_page(Ok((vec![key("1", "a", "v", None, true)], Some("p2".to_string()))));
    assert_eq!(l.next_page(), Some(Some("p2".to_string())));
    l.add_page(Ok((vec![key("2", "b", "v", None, true), key("3", "c", "v", None, false)], Some("p3".to_string()))));
    l.add_page(Ok((vec![], None)));
    assert_eq!(l.next_page(), None);
    let names: Vec<String> = l.finish().unwrap().into_iter().map(|k| k.name.unwrap()).collect();
    assert_eq!(names, vec!["a", "b", "c"]);
}

#[test]
fn empty_or_repeated_position_ends_listing() {
    let mut l: Listing<KeyRecord> = Listing::new();
    l.add_page(Ok((vec![], Some(String::new()))));
    assert_eq!(l.next_page(), None);

    let mut l: Listing<KeyRecord> = Listing::new();
    l.add_page(Ok((vec![], Some("p".to_string()))));
    assert_eq!(l.next_page(), Some(Some("p".to_string())));
    l.add_page(Ok((vec![], Some("p".to_string()))));
    assert_eq!(l.next_page(), None);
}

#[test]
fn failed_page_drops_the_listing() {
    let mut l: Listing<KeyRecord> = Listing::new();
    l.add_page(Ok((vec![key("1", "a", "v", None, true)], Some("p2".to_string()))));
    l.add_page(Err("denied".to_string()));
    assert_eq!(l.next_page(), None);
    assert_eq!(l.finish().unwrap_err(), MigrationError::ListFailed("denied".to_string()));
}

#[test]
fn attaching_follows_creation_order() {
    let keys = vec![key("d1", "a", "v", None, true), key("d2", "b", "v", None, true)];
    let mut a = Attacher::new(keys, Some("plan".to_string()));
    let r1 = a.next_request().unwrap();
    assert_eq!(r1, AttachRequest { plan_id: "plan".to_string(), key_id: "d1".to_string() });
    a.record_reply(Ok(()));
    let r2 = a.next_request().unwrap();
    assert_eq!(r2.key_id, "d2");
    a.record_reply(Ok(()));
    assert!(a.next_request().is_none());
    assert_eq!(a.finish().unwrap(), 2);
}

#[test]
fn attaching_without_plan_does_nothing() {
    let mut a = Attacher::new(vec![key("d1", "a", "v", None, true)], None);
    assert!(a.is_done());
    assert!(a.next_request().is_none());
    assert_eq!(a.finish().unwrap(), 0);
}

#[test]
fn attach_failure_stops_the_rest() {
    let keys = vec![key("d1", "a", "v", None, true), key("d2", "b", "v", None, true), key("d3", "c", "v", None, true)];
    let mut a = Attacher::new(keys, Some("plan".to_string()));
    a.next_request().unwrap();
    a.record_reply(Ok(()));
    a.next_request().unwrap();
    a.record_reply(Err("conflict".to_string()));
    assert!(a.next_request().is_none());
    assert_eq!(
        a.finish().unwrap_err(),
        MigrationError::AttachFailed {
            key_id: "d2".to_string(),
            plan_id: "plan".to_string(),
            reason: "conflict".to_string()
        }
    );
}

#[test]
fn attaching_a_key_without_id_fails() {
    let mut k = key("d1", "a", "v", None, true);
    k.id = None;
    let mut a = Attacher::new(vec![k], Some("plan".to_string()));
    assert!(a.next_request().is_none());
    assert_eq!(a.finish().unwrap_err(), MigrationError::MissingId(0));
}

#[test]
fn deletion_counts_attempts_whatever_the_replies() {
    let keys = vec![key("1", "a", "v", None, true), key("2", "b", "v", None, true), key("3", "c", "v", None, true)];
    let ids = deletion_targets(&keys).unwrap();
    assert_eq!(ids, vec!["1", "2", "3"]);
    let replies: Vec<Result<(), String>> = vec![Ok(()), Err("gone".to_string()), Err("denied".to_string())];
    assert_eq!(deletion_report(&replies), DeletionReport { attempted: 3, confirmed: 1 });
    let all_failed: Vec<Result<(), String>> = vec![Err("x".to_string()); 3];
    assert_eq!(deletion_report(&all_failed).attempted, 3);
    assert_eq!(deletion_report(&vec![]), DeletionReport { attempted: 0, confirmed: 0 });
}

#[test]
fn deletion_needs_every_id() {
    let mut k = key("2", "b", "v", None, true);
    k.id = None;
    let keys = vec![key("1", "a", "v", None, true), k];
    assert_eq!(deletion_targets(&keys).unwrap_err(), MigrationError::MissingId(1));
}

#[test]
fn end_to_end_prefix_and_rename() {
    // The store answers the name query "svc" with the two keys whose names start with it.
    let mut listing: Listing<KeyRecord> = Listing::new();
    listing.add_page(Ok((
        vec![key("s1", "svc-a", "secret-a", Some("first"), true), key("s2", "svc-b", "secret-b", None, false)],
        None,
    )));
    let sources = listing.finish().unwrap();
    assert_eq!(sources.len(), 2);

    let rule = rule_from_options(Some("^svc-".to_string()), Some("app-".to_string())).unwrap();
    let mut p = Provisioner::new(sources.clone(), rule);
    let mut destination: Vec<CreateRequest> = Vec::new();
    let mut n = 0;
    while let Some(req) = p.next_request() {
        n += 1;
        p.record_reply(Ok(created(&format!("d{}", n), &req)));
        destination.push(req);
    }
    let created_keys = p.finish().unwrap();
    assert_eq!(destination.iter().map(|r| r.name.as_str()).collect::<Vec<_>>(), vec!["app-a", "app-b"]);
    for (req, src) in destination.iter().zip(sources.iter()) {
        assert_eq!(Some(req.value.clone()), src.value);
        assert_eq!(req.description, src.description.clone().unwrap_or_default());
        assert_eq!(req.enabled, src.enabled);
    }

    let mut a = Attacher::new(created_keys, Some("plan-2".to_string()));
    let mut attached = Vec::new();
    while let Some(req) = a.next_request() {
        attached.push(req.key_id);
        a.record_reply(Ok(()));
    }
    assert_eq!(attached, vec!["d1", "d2"]);
    assert_eq!(a.finish().unwrap(), 2);

    let ids = deletion_targets(&sources).unwrap();
    assert_eq!(ids, vec!["s1", "s2"]);
}

#[test]
fn credentials_keep_their_parts() {
    let c = AwsCredentials::new("AK".to_string(), "SK".to_string(), None, "eu-west-1".to_string());
    assert_eq!(c.into_parts(), ("AK".to_string(), "SK".to_string(), None, "eu-west-1".to_string()));
}
