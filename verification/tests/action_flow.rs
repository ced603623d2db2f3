use cloudillo::action::dsl::definitions::get_definitions;
use cloudillo::action::dsl::engine::DslEngine;
use cloudillo::action::filter::subscribed_container_id;
use cloudillo::action::forward::{
    email_throttle_group, get_email_setting_key, get_push_setting_key, is_email_notifiable,
    notify_action_label, should_push_notify,
};
use cloudillo::action::hooks::{
    HookContext, HookFunction, HookImplementation, HookRegistry, HookResult, HookType,
};
use cloudillo::action::key_cache::{FailureEntry, FailureType, KeyFetchCache};
use cloudillo::action::native_hooks::{
    cmnt, conn, fllw, fshr, idp, invt, ownership, prinvt, react, stat_emit_task, subs,
};
use cloudillo::action::task::CreateAction;
use cloudillo::auth::access::AccessLevel;
use cloudillo::json::Json;
use cloudillo::str_map::StrMap;
use cloudillo::types::{ActionView, Error, ProfileInfo, Timestamp, TnId};

fn action_view(
    action_id: &str,
    typ: &str,
    root_id: Option<&str>,
    subject: Option<&str>,
) -> ActionView {
    ActionView {
        action_id: action_id.to_string(),
        typ: typ.to_string(),
        sub_typ: None,
        parent_id: None,
        root_id: root_id.map(str::to_string),
        issuer: ProfileInfo {
            id_tag: "alice.example.com".to_string(),
            name: "Alice".to_string(),
        },
        audience: None,
        content: None,
        subject: subject.map(str::to_string),
        created_at: Timestamp(0),
        expires_at: None,
        status: Some("A".to_string()),
        visibility: Some('S'),
        flags: None,
        x: None,
    }
}

fn view(issuer: &str, audience: Option<&str>) -> ActionView {
    let mut a = action_view("a1~x", "POST", None, None);
    a.issuer = ProfileInfo { id_tag: issuer.to_string(), name: "I".to_string() };
    a.audience =
        audience.map(|t| ProfileInfo { id_tag: t.to_string(), name: "A".to_string() });
    a
}

#[test]
fn test_load_definition_from_json() {
    let mut engine = DslEngine::new();
    let mut definitions = get_definitions();
    let mut d = definitions.pop().unwrap();
    d.typ = "TEST".to_string();
    engine.load_definition(d);
    assert!(engine.has_definition("TEST"));
}

#[test]
fn test_subscribed_container_id_conv_is_itself() {
    let conv = action_view("a1~conv", "CONV", None, None);
    assert_eq!(subscribed_container_id(&conv), "a1~conv");
}

#[test]
fn test_subscribed_container_id_msg_uses_root() {
    let msg = action_view("a2~msg", "MSG", Some("a1~conv"), None);
    assert_eq!(subscribed_container_id(&msg), "a1~conv");
}

#[test]
fn test_subscribed_container_id_subs_uses_subject() {
    let subs = action_view("a3~subs", "SUBS", None, Some("a1~conv"));
    assert_eq!(subscribed_container_id(&subs), "a1~conv");
    let invt = action_view("a4~invt", "INVT", None, Some("a1~conv"));
    assert_eq!(subscribed_container_id(&invt), "a1~conv");
}

#[test]
fn test_subscribed_container_id_root_beats_subject() {
    let a = action_view("a5~x", "MSG", Some("a1~root"), Some("a9~subj"));
    assert_eq!(subscribed_container_id(&a), "a1~root");
}

#[test]
fn test_should_push_notify() {
    assert!(should_push_notify("MSG", None));
    assert!(should_push_notify("CONN", None));
    assert!(should_push_notify("FSHR", None));
    assert!(should_push_notify("CMNT", None));

    assert!(!should_push_notify("POST", None));
    assert!(!should_push_notify("FLLW", None));
    assert!(!should_push_notify("REACT", None));

    // Retractions don't notify
    assert!(!should_push_notify("MSG", Some("DEL")));
    assert!(!should_push_notify("CONN", Some("DEL")));
}

#[test]
fn test_get_push_setting_key() {
    assert_eq!(get_push_setting_key("MSG"), "notify.push.message");
    assert_eq!(get_push_setting_key("CONN"), "notify.push.connection");
    assert_eq!(get_push_setting_key("FSHR"), "notify.push.file_share");
    assert_eq!(get_push_setting_key("UNKNOWN"), "notify.push");
}

#[test]
fn test_is_email_notifiable() {
    assert!(is_email_notifiable("POST", None));
    assert!(is_email_notifiable("REACT", None));
    assert!(is_email_notifiable("FLLW", None));
    assert!(is_email_notifiable("CMNT", None));

    // Retractions never notify.
    assert!(!is_email_notifiable("REACT", Some("DEL")));
    assert!(!is_email_notifiable("CMNT", Some("DEL")));

    // Unknown types are skipped.
    assert!(!is_email_notifiable("UNKNOWN", None));
}

#[test]
fn test_push_email_keys_agree_on_membership() {
    for ty in ["MSG", "CONN", "FSHR", "FLLW", "CMNT", "REACT", "POST", "UNKNOWN", "DEL"] {
        let push_specific = get_push_setting_key(ty) != "notify.push";
        let email_specific = get_email_setting_key(ty) != "notify.email";
        assert_eq!(push_specific, email_specific, "mismatch for type {ty}");
    }
}

#[test]
fn test_notify_action_label() {
    assert_eq!(notify_action_label("MSG"), "message");
    assert_eq!(notify_action_label("CONN"), "connection request");
    assert_eq!(notify_action_label("CMNT"), "comment");
    assert_eq!(notify_action_label("UNKNOWN"), "notification");
}

#[test]
fn test_email_throttle_group() {
    assert_eq!(email_throttle_group("MSG"), Some("direct"));
    assert_eq!(email_throttle_group("CMNT"), Some("engagement"));
    assert_eq!(email_throttle_group("POST"), Some("social"));
    assert_eq!(email_throttle_group("UNKNOWN"), None);
}

#[test]
fn test_hook_type_str_conversion() {
    assert_eq!(HookType::OnCreate.as_str(), "on_create");
    assert_eq!(HookType::OnReceive.as_str(), "on_receive");
    assert_eq!(HookType::OnAccept.as_str(), "on_accept");
    assert_eq!(HookType::OnReject.as_str(), "on_reject");
}

#[test]
fn test_hook_result_default() {
    let result = HookResult::default();
    assert_eq!(result.vars.len(), 0);
    assert!(result.continue_processing);
    assert!(result.return_value.is_none());
}

#[test]
fn test_hook_registry_create() {
    let registry = HookRegistry::new();
    assert!(registry.registered_types().is_empty());
}

#[test]
fn test_hook_registry_register_hook() {
    let mut registry = HookRegistry::new();
    registry.register_hook("TEST", HookType::OnCreate, HookFunction(1));
    assert!(registry.has_hook("TEST", HookType::OnCreate));
    assert!(!registry.has_hook("TEST", HookType::OnReceive));
}

#[test]
fn test_hook_implementation_default() {
    let impl_hook = HookImplementation::default();
    assert!(matches!(impl_hook, HookImplementation::Absent));
}

#[test]
fn test_hook_context_creation() {
    let context = HookContext {
        action_id: "a1~test".to_string(),
        typ: "POST".to_string(),
        subtype: None,
        issuer: "user1".to_string(),
        audience: None,
        parent: None,
        subject: None,
        content: None,
        attachments: None,
        created_at: "2025-11-09T00:00:00Z".to_string(),
        expires_at: None,
        tenant_id: 1,
        tenant_tag: "dev".to_string(),
        tenant_type: "user".to_string(),
        is_inbound: false,
        is_outbound: true,
        client_address: None,
        pre_approved: false,
        vars: StrMap::new(),
    };

    assert_eq!(context.action_id, "a1~test");
    assert_eq!(context.typ, "POST");
    assert_eq!(context.issuer, "user1");
}

#[test]
fn test_failure_type_ttl() {
    assert_eq!(FailureType::NetworkError.ttl_secs(), 5 * 60);
    assert_eq!(FailureType::NotFound.ttl_secs(), 60 * 60);
    assert_eq!(FailureType::Unauthorized.ttl_secs(), 60 * 60);
    assert_eq!(FailureType::ParseError.ttl_secs(), 60 * 60);
}

#[test]
fn test_failure_entry_expiration() {
    let entry = FailureEntry::new(FailureType::NetworkError);
    assert!(!entry.is_expired());
    assert!(entry.seconds_until_retry() > 0);
}

#[test]
fn test_cache_operations() {
    let mut cache = KeyFetchCache::new(10);

    assert!(cache.is_empty());
    assert!(cache.check_failure("alice.example.com", "key-1").is_none());

    cache.record_failure("alice.example.com", "key-1", &Error::NotFound);

    assert!(!cache.is_empty());
    assert_eq!(cache.len(), 1);

    let failure = cache.check_failure("alice.example.com", "key-1");
    assert!(failure.is_some());
    assert_eq!(failure.unwrap().failure_type, FailureType::NotFound);

    cache.clear_failure("alice.example.com", "key-1");
    assert!(cache.is_empty());
}

#[test]
fn test_cache_lru_eviction() {
    let mut cache = KeyFetchCache::new(2);

    cache.record_failure("a.com", "k1", &Error::NotFound);
    cache.record_failure("b.com", "k2", &Error::NotFound);
    assert_eq!(cache.len(), 2);

    // A third entry evicts the least recently used one
    cache.record_failure("c.com", "k3", &Error::NotFound);
    assert_eq!(cache.len(), 2);

    assert!(cache.check_failure("a.com", "k1").is_none());
    assert!(cache.check_failure("b.com", "k2").is_some());
    assert!(cache.check_failure("c.com", "k3").is_some());
}

#[test]
fn test_failure_type_from_error() {
    assert_eq!(
        FailureType::from_error(&Error::NetworkError("test".into())),
        FailureType::NetworkError
    );
    assert_eq!(FailureType::from_error(&Error::NotFound), FailureType::NotFound);
    assert_eq!(FailureType::from_error(&Error::PermissionDenied), FailureType::Unauthorized);
    assert_eq!(FailureType::from_error(&Error::Unauthorized), FailureType::Unauthorized);
    assert_eq!(FailureType::from_error(&Error::Parse), FailureType::ParseError);
}

#[test]
fn perm_char_agrees_with_the_access_level_vocabulary() {
    for (sub_typ, level) in [
        ("ADMIN", AccessLevel::Admin),
        ("WRITE", AccessLevel::Write),
        ("COMMENT", AccessLevel::Comment),
    ] {
        let c = fshr::perm_char_for_sub_typ(Some(sub_typ));
        assert_eq!(Some(c), level.to_perm_char(), "{sub_typ} must map to {level:?}");
        assert_eq!(AccessLevel::from_perm_char(c), level);
    }

    for sub_typ in [None, Some("READ"), Some("write"), Some("")] {
        assert_eq!(fshr::perm_char_for_sub_typ(sub_typ), 'R');
    }
    assert_eq!(AccessLevel::Read.to_perm_char(), Some('R'));
}

#[test]
fn self_revocation_is_the_only_ungated_del() {
    assert!(fshr::is_self_revocation("bob.example.com", "bob.example.com"));
    assert!(!fshr::is_self_revocation("bob.example.com", "alice.example.com"));
    // Exact match only.
    assert!(!fshr::is_self_revocation("bob.example.com", "sub.bob.example.com"));
    assert!(!fshr::is_self_revocation("", "alice.example.com"));
}

#[test]
fn only_a_moderator_or_the_original_inviter_may_revoke() {
    assert!(invt::community_revoke_allowed("mod.example.com", Some("alice.example.com"), true));
    assert!(invt::community_revoke_allowed("mod.example.com", None, true));

    // The original inviter keeps the right even after being demoted.
    assert!(invt::community_revoke_allowed(
        "alice.example.com",
        Some("alice.example.com"),
        false
    ));

    assert!(!invt::community_revoke_allowed(
        "mallory.example.com",
        Some("alice.example.com"),
        false
    ));
    assert!(!invt::community_revoke_allowed("mallory.example.com", None, false));
}

#[test]
fn only_the_invite_and_its_revocation_are_judgeable_subtypes() {
    assert!(invt::community_invt_subtype_known(None));
    assert!(invt::community_invt_subtype_known(Some("DEL")));

    assert!(!invt::community_invt_subtype_known(Some("XYZ")));
    assert!(!invt::community_invt_subtype_known(Some("del")));
    assert!(!invt::community_invt_subtype_known(Some("")));
}

#[test]
fn only_an_identity_invt_addressed_to_this_tenant_is_gated() {
    let club = "club.example.com";
    assert!(invt::is_community_invt("INVT", Some("@club.example.com"), club));
    assert!(invt::is_community_invt("INVT:DEL", Some("@club.example.com"), club));
    assert!(!invt::is_community_invt("INVT", Some("@Club.Example.COM"), club));

    assert!(!invt::is_community_invt("INVT", Some("@other.example.com"), club));
    assert!(!invt::is_community_invt("INVT", Some("a1~abc"), club));
    assert!(!invt::is_community_invt("INVT", None, club));
    assert!(!invt::is_community_invt("CONN", Some("@club.example.com"), club));
}

/// The standing that a set of roles gives.
fn moderates(roles: &[&str]) -> bool {
    roles.iter().any(|r| *r == "moderator" || *r == "leader")
}

#[test]
fn only_the_community_itself_or_a_moderator_may_invite() {
    let club = "club.example.com";
    // The community's own account has no roles to read.
    assert!(invt::community_invite_allowed(club, club, moderates(&[])));

    assert!(invt::community_invite_allowed("mod.example.com", club, moderates(&["moderator"])));
    assert!(invt::community_invite_allowed("boss.example.com", club, moderates(&["leader"])));

    assert!(!invt::community_invite_allowed(
        "member.example.com",
        club,
        moderates(&["contributor"])
    ));
    // No profile, and a profile without roles.
    assert!(!invt::community_invite_allowed("stranger.example.com", club, false));
    assert!(!invt::community_invite_allowed("stranger.example.com", club, moderates(&[])));
}

#[test]
fn a_plain_member_is_refused_but_the_tenant_tag_as_actor_would_not_be() {
    let member = "member.example.com";
    let community = "club.example.com";
    let moderator = moderates(&["contributor"]);

    assert!(!invt::community_invite_allowed(member, community, moderator));
    assert!(invt::community_invite_allowed(community, community, moderator));
}

#[test]
fn test_hook_functions_exist() {
    let _ = cmnt::on_create;
    let _ = cmnt::on_receive;
    let _ = conn::on_create;
    let _ = conn::on_receive;
    let _ = conn::on_accept;
    let _ = conn::on_reject;
    let _ = fllw::on_create;
    let _ = fllw::on_receive;
    let _ = idp::idp_reg_on_receive;
    let _ = fshr::on_receive;
    let _ = fshr::on_accept;
    let _ = react::on_create;
    let _ = react::on_receive;
    let _ = subs::on_create;
    let _ = subs::on_receive;
    let _ = invt::on_create;
    let _ = invt::on_receive;
    let _ = invt::on_accept;
    let _ = prinvt::on_receive;
}

#[test]
fn self_post_owned_by_issuer() {
    assert!(ownership::owns_subject(&view("us@example", None), "us@example"));
}

#[test]
fn community_post_on_our_community_owned_by_us() {
    assert!(ownership::owns_subject(
        &view("member@example", Some("us@example")),
        "us@example"
    ));
}

#[test]
fn community_post_on_other_community_not_owned_by_us() {
    assert!(!ownership::owns_subject(
        &view("us@example", Some("other@example")),
        "us@example"
    ));
}

#[test]
fn third_party_post_not_owned_by_us() {
    assert!(!ownership::owns_subject(&view("other@example", None), "us@example"));
}

#[test]
fn moderator_accepts_join_request_addressed_to_the_community() {
    let action = view("stranger@example", Some("community@example"));
    assert!(ownership::owns_subject(&action, "community@example"));
    assert!(ownership::accept_authority(&action, "mod@example", moderates(&["moderator"])));
}

#[test]
fn action_addressed_to_a_member_is_not_applicable_on_the_community() {
    let action = view("stranger@example", Some("member@example"));
    assert!(!ownership::owns_subject(&action, "community@example"));
}

#[test]
fn stranger_feed_post_is_not_applicable() {
    assert!(!ownership::owns_subject(&view("stranger@example", None), "community@example"));
}

#[test]
fn plain_member_who_is_not_the_audience_has_no_authority() {
    let action = view("stranger@example", Some("community@example"));
    assert!(ownership::owns_subject(&action, "community@example"));
    assert!(!ownership::accept_authority(&action, "member@example", moderates(&["member"])));
}

#[test]
fn plain_member_who_is_the_audience_may_answer() {
    let action = view("stranger@example", Some("member@example"));
    assert!(ownership::owns_subject(&action, "member@example"));
    assert!(ownership::accept_authority(&action, "member@example", moderates(&["member"])));
}

#[test]
fn audience_less_third_party_action_is_applicable_for_the_tenant_owner() {
    let action = view("followee.example", None);
    assert!(!ownership::owns_subject(&action, "us.example"));
    assert!(ownership::accept_applicable(&action, "us.example", "us.example"));

    // An unrelated caller gains nothing.
    assert!(!ownership::accept_applicable(&action, "us.example", "stranger.example"));
}

#[test]
fn id_tags_are_compared_raw() {
    let action = view("stranger.example", Some("community.example"));
    assert!(ownership::owns_subject(&action, "community.example"));
    assert!(ownership::accept_authority(&action, "community.example", moderates(&[])));

    assert!(!ownership::owns_subject(&action, "Community.Example"));
}

#[test]
fn serialize_build_roundtrip() {
    let task = stat_emit_task::StatEmitTask {
        tn_id: TnId(42),
        subject_id: "subj-abc".into(),
        tenant_tag: "owner.example".into(),
        first_scheduled_at: 1_700_000_000,
    };
    let json = task.serialize();
    let parsed = stat_emit_task::StatEmitTask::build(&json).expect("build should succeed");
    assert_eq!(parsed.kind_of(), "stat.emit");

    assert_eq!(parsed.tn_id, TnId(42));
    assert_eq!(parsed.subject_id, "subj-abc");
    assert_eq!(parsed.tenant_tag, "owner.example");
    assert_eq!(parsed.first_scheduled_at, 1_700_000_000);
}

#[test]
fn test_create_action_struct() {
    let action = CreateAction {
        typ: "MSG".into(),
        audience_tag: Some("bob.example.com".into()),
        content: Some(Json::Text("Hello".to_string())),
        ..Default::default()
    };

    assert_eq!(action.typ, "MSG");
    assert_eq!(action.content, Some(Json::Text("Hello".to_string())));
    assert_eq!(action.audience_tag.as_deref(), Some("bob.example.com"));
}

#[test]
fn test_create_action_without_audience() {
    let action = CreateAction {
        typ: "POST".into(),
        sub_typ: Some("TEXT".into()),
        content: Some(Json::Text("Hello world".to_string())),
        flags: Some("RC".into()), // Reactions and comments allowed
        ..Default::default()
    };

    assert_eq!(action.typ, "POST");
    assert!(action.audience_tag.is_none());
    assert_eq!(action.flags.as_deref(), Some("RC"));
}
