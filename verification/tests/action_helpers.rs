use cloudillo::action::helpers::{
    apply_key_pattern, apply_open_flag_visibility, check_attachment_count, check_identity_field,
    check_subject_field, content_snippet, extract_type_and_subtype, get_subscription_role,
    is_capability_enabled, is_open, serialize_content, SubscriptionRole, MAX_ATTACHMENTS,
};
use cloudillo::action::subject_ref::{parse_subject_ref, SubjectRef};
use cloudillo::json::Json;
use cloudillo::types::Error;

fn text(s: &str) -> Json {
    Json::Text(s.to_string())
}

fn object(members: &[(&str, Json)]) -> Json {
    Json::Object(members.iter().map(|(k, v)| (k.to_string(), v.duplicate())).collect())
}

fn message(r: Result<(), Error>) -> Option<String> {
    match r {
        Err(Error::ValidationError(m)) => Some(m),
        _ => None,
    }
}

#[test]
fn subscription_role_comes_from_server_metadata_only() {
    let x = object(&[("role", text("admin"))]);
    assert_eq!(get_subscription_role(Some(&x)), SubscriptionRole::Admin);

    // No metadata: an ordinary member, whatever the action claimed.
    assert_eq!(get_subscription_role(None), SubscriptionRole::Member);

    // An unrecognised role falls to the least authority, not the most.
    let bogus = object(&[("role", text("wizard"))]);
    assert_eq!(get_subscription_role(Some(&bogus)), SubscriptionRole::Observer);
}

#[test]
fn test_check_identity_field() {
    assert!(check_identity_field("issuer", "alice.example.com", true).is_ok());

    let msg = message(check_identity_field("issuer", "Alice.Example.com", false));
    assert!(msg.unwrap().contains("issuer"));
}

#[test]
fn an_identity_subject_must_be_canonical() {
    assert!(check_subject_field("@club.example.com", true).is_ok());

    let msg = message(check_subject_field("@Club.Example.COM", false));
    let msg = msg.expect("a non-canonical identity subject must be rejected");
    assert!(msg.contains("subject"), "error should name the field: {msg}");

    // The two non-identity forms are untouched.
    assert!(check_subject_field("a1~abc", false).is_ok());
    assert!(check_subject_field("@42", false).is_ok());

    // `@a1~abc` is an identity, and not a valid one.
    assert!(check_subject_field("@a1~abc", false).is_err());
}

#[test]
fn an_over_long_attachment_list_is_refused() {
    let at_cap: Vec<String> = (0..MAX_ATTACHMENTS).map(|i| format!("f1~{i}")).collect();
    assert!(check_attachment_count(Some(&at_cap)).is_ok(), "the cap itself is allowed");
    assert!(check_attachment_count(None).is_ok());

    let over: Vec<String> = (0..=MAX_ATTACHMENTS).map(|i| format!("f1~{i}")).collect();
    assert!(matches!(check_attachment_count(Some(&over)), Err(Error::ValidationError(_))));
}

#[test]
fn test_extract_type_and_subtype_simple() {
    let (t, st) = extract_type_and_subtype("POST");
    assert_eq!(t, "POST");
    assert_eq!(st, None);
}

#[test]
fn test_extract_type_and_subtype_with_subtype() {
    let (t, st) = extract_type_and_subtype("POST:TEXT");
    assert_eq!(t, "POST");
    assert_eq!(st, Some("TEXT".to_string()));
}

#[test]
fn test_extract_type_and_subtype_multiple_colons() {
    let (t, st) = extract_type_and_subtype("POST:TEXT:EXTRA");
    assert_eq!(t, "POST");
    assert_eq!(st, Some("TEXT:EXTRA".to_string()));
}

#[test]
fn test_apply_key_pattern_full() {
    let pattern = "{type}:{parent}:{issuer}";
    let key = apply_key_pattern(pattern, "REACT", "user1", None, Some("action123"), None, None);
    assert_eq!(key, "REACT:action123:user1");
}

#[test]
fn test_apply_key_pattern_empty_optionals() {
    let pattern = "{type}:{parent}:{issuer}:{audience}:{subject}";
    let key = apply_key_pattern(pattern, "POST", "user1", None, None, None, None);
    assert_eq!(key, "POST::user1::");
}

#[test]
fn test_apply_key_pattern_all_fields() {
    let pattern = "{type}:{parent}:{issuer}:{audience}:{subject}";
    let key = apply_key_pattern(
        pattern,
        "MSG",
        "user1",
        Some("user2"),
        Some("parent123"),
        Some("hello"),
        None,
    );
    assert_eq!(key, "MSG:parent123:user1:user2:hello");
}

#[test]
fn test_apply_key_pattern_content_field() {
    let pattern = "{type}:{issuer}:{audience}:{content.idTag}";
    let content = object(&[("idTag", text("test5.home.w9.hu")), ("lang", text("hu"))]);
    let key = apply_key_pattern(
        pattern,
        "IDP",
        "home.w9.hu",
        Some("home.w9.hu"),
        None,
        None,
        Some(&content),
    );
    assert_eq!(key, "IDP:home.w9.hu:home.w9.hu:test5.home.w9.hu");
}

#[test]
fn test_apply_key_pattern_content_field_missing() {
    let pattern = "{type}:{content.name}:{content.missing}";
    let content = object(&[("name", text("quillo"))]);
    // A missing field substitutes empty, like the absent action optionals.
    let key = apply_key_pattern(pattern, "APKG", "user1", None, None, None, Some(&content));
    assert_eq!(key, "APKG:quillo:");
    // So does content that is absent entirely.
    let key = apply_key_pattern(pattern, "APKG", "user1", None, None, None, None);
    assert_eq!(key, "APKG::");
}

#[test]
fn test_serialize_content_none() {
    assert_eq!(serialize_content(None), None);
}

#[test]
fn test_serialize_content_string() {
    let value = text("hello");
    assert_eq!(serialize_content(Some(&value)), Some("\"hello\"".to_string()));
}

#[test]
fn test_serialize_content_object() {
    let value = object(&[("key", text("value"))]);
    assert_eq!(serialize_content(Some(&value)), Some("{\"key\":\"value\"}".to_string()));
}

#[test]
fn test_is_capability_enabled() {
    assert!(is_capability_enabled(None, 'R'));
    assert!(is_capability_enabled(Some(""), 'R'));
    assert!(!is_capability_enabled(Some("r"), 'R'));
    assert!(is_capability_enabled(Some("c"), 'R')); // 'c' doesn't affect 'R'
}

#[test]
fn test_is_open_uppercase() {
    assert!(is_open(Some("rcO")));
    assert!(is_open(Some("O")));
}

#[test]
fn test_is_open_lowercase() {
    assert!(!is_open(Some("RCo")));
    assert!(!is_open(Some("rc")));
}

#[test]
fn test_open_flag_never_promotes_subscribed() {
    // An open group's 'S' survives the open flag,
    assert_eq!(apply_open_flag_visibility(Some("rcO"), Some('S')), Some('S'));
    assert_eq!(apply_open_flag_visibility(Some("O"), Some('S')), Some('S'));
    // other visibilities are promoted,
    assert_eq!(apply_open_flag_visibility(Some("rcO"), Some('F')), Some('C'));
    assert_eq!(apply_open_flag_visibility(Some("O"), None), Some('C'));
    // and closed actions are untouched.
    assert_eq!(apply_open_flag_visibility(Some("rco"), Some('S')), Some('S'));
    assert_eq!(apply_open_flag_visibility(None, Some('F')), Some('F'));
}

#[test]
fn test_subscription_role_from_str() {
    assert_eq!("admin".parse::<SubscriptionRole>().unwrap(), SubscriptionRole::Admin);
    assert_eq!("ADMIN".parse::<SubscriptionRole>().unwrap(), SubscriptionRole::Admin);
    assert_eq!("moderator".parse::<SubscriptionRole>().unwrap(), SubscriptionRole::Moderator);
    assert_eq!("member".parse::<SubscriptionRole>().unwrap(), SubscriptionRole::Member);
    assert_eq!("observer".parse::<SubscriptionRole>().unwrap(), SubscriptionRole::Observer);
    assert_eq!("unknown".parse::<SubscriptionRole>().unwrap(), SubscriptionRole::Observer);
}

#[test]
fn test_subscription_role_ordering() {
    assert!(SubscriptionRole::Admin > SubscriptionRole::Moderator);
    assert!(SubscriptionRole::Moderator > SubscriptionRole::Member);
    assert!(SubscriptionRole::Member > SubscriptionRole::Observer);
}

#[test]
fn test_content_snippet_object_text() {
    let value = object(&[("text", text("hello"))]);
    assert_eq!(content_snippet(Some(&value)), "hello");
}

#[test]
fn test_content_snippet_object_content() {
    let value = object(&[("content", text("world"))]);
    assert_eq!(content_snippet(Some(&value)), "world");
}

#[test]
fn test_content_snippet_object_title() {
    let value = object(&[
        ("doc", text("a.org:f1~x")),
        ("contentType", text("cloudillo/quillo")),
        ("title", text("Q3 terv")),
    ]);
    assert_eq!(content_snippet(Some(&value)), "Q3 terv");
}

#[test]
fn test_content_snippet_string() {
    assert_eq!(content_snippet(Some(&text("hi there"))), "hi there");
}

#[test]
fn test_content_snippet_none() {
    assert_eq!(content_snippet(None), "");
}

#[test]
fn test_content_snippet_caps_at_200() {
    let long = "x".repeat(500);
    assert_eq!(content_snippet(Some(&text(&long))).chars().count(), 200);
}

#[test]
fn parses_action_id() {
    assert_eq!(parse_subject_ref("a1~abcdef"), Some(SubjectRef::Action("a1~abcdef")));
    assert_eq!(parse_subject_ref("a17~xyz"), Some(SubjectRef::Action("a17~xyz")));
}

#[test]
fn parses_placeholder() {
    assert_eq!(parse_subject_ref("@42"), Some(SubjectRef::Placeholder(42)));
    assert_eq!(parse_subject_ref("@1"), Some(SubjectRef::Placeholder(1)));
    assert_eq!(parse_subject_ref("@0"), Some(SubjectRef::Placeholder(0)));
}

#[test]
fn parses_identity() {
    assert_eq!(
        parse_subject_ref("@community.example.com"),
        Some(SubjectRef::Identity("community.example.com"))
    );
    assert_eq!(
        parse_subject_ref("@alice.example.com"),
        Some(SubjectRef::Identity("alice.example.com"))
    );
    assert_eq!(parse_subject_ref("@a1~abc"), Some(SubjectRef::Identity("a1~abc")));
}

#[test]
fn placeholders_are_wholly_numeric() {
    assert_eq!(parse_subject_ref("@+42"), Some(SubjectRef::Identity("+42")));
    assert_eq!(parse_subject_ref("@042"), Some(SubjectRef::Placeholder(42)));
    assert_eq!(
        parse_subject_ref("@18446744073709551615"),
        Some(SubjectRef::Placeholder(u64::MAX))
    );
    assert_eq!(
        parse_subject_ref("@18446744073709551616"),
        Some(SubjectRef::Identity("18446744073709551616"))
    );
}

#[test]
fn unreadable_roles_have_the_least_authority() {
    let number = object(&[("role", Json::Unsigned(7))]);
    assert_eq!(get_subscription_role(Some(&number)), SubscriptionRole::Observer);
    let null = object(&[("role", Json::Null)]);
    assert_eq!(get_subscription_role(Some(&null)), SubscriptionRole::Observer);
    assert_eq!(get_subscription_role(Some(&object(&[]))), SubscriptionRole::Member);
}

#[test]
fn content_is_filled_into_keys_once() {
    let content = object(&[("a", text("{content.a}")), ("b", text("x")), ("n", Json::Unsigned(3))]);
    let key = |p: &str| apply_key_pattern(p, "T", "i", None, None, None, Some(&content));
    assert_eq!(key("{content.a}"), "{content.a}");
    assert_eq!(key("{content.a}:{content.b}{content.n}"), "{content.a}:x3");
    assert_eq!(key("{type}{content.b"), "T{content.b");
    assert_eq!(key("plain"), "plain");
}

#[test]
fn rejects_empty_forms() {
    assert_eq!(parse_subject_ref(""), None);
    assert_eq!(parse_subject_ref("@"), None);
}
