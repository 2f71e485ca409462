use voxply::alliances::{
    alliance_invite, attributed_content, check_invite, check_share_channel, delete_after_leave, invite_token, inviter_base_url,
    alliance_owner_step, delivery_outcome, first_owner, local_shared_channels, mirrored_member_url, owner_step_rejection,
    peer_owns_channel, AllianceRejection, OwnerStep, SharedChannelResponse,
};
use voxply::dms::{
    check_read_dm, check_send_dm, delivery_targets, federated_envelope, hub_for, is_member, member_keys, pick_existing_dm,
    plan_conversation, plan_receive, received_event_time, ConvMember, CreateConversationRequest, DmRejection,
    ReceiveAction,
};
use voxply::friends::{
    accept_outcome, cached_name_usable, friend_entries, friend_info, links, pending_entries, plan_friend_request,
    FriendRejection, FriendRequest, FriendStatus, FriendshipRow,
};
use voxply::identity::Identity;
use voxply::outbox::{backoff_delay, immediate_failure, outbox_step, select_due, OutboxAction, OutboxRow};

fn member(key: &str, hub: Option<&str>) -> ConvMember {
    ConvMember { public_key: key.to_string(), hub_url: hub.map(|h| h.to_string()) }
}

fn conv_req(members: &[&str], hubs: &[(&str, &str)]) -> CreateConversationRequest {
    CreateConversationRequest {
        members: members.iter().map(|m| m.to_string()).collect(),
        member_hubs: hubs.iter().map(|(k, h)| (k.to_string(), h.to_string())).collect(),
    }
}

#[test]
fn create_dm_conversation() {
    let plan = plan_conversation(&conv_req(&["bob"], &[]), "alice").unwrap();
    assert_eq!(plan.conv_type, "dm");
    assert_eq!(plan.all_members, vec!["bob".to_string(), "alice".to_string()]);
    assert_eq!(plan.member_rows.len(), 1);
    assert_eq!(plan.member_rows[0].hub_url, None);
}

#[test]
fn create_group_dm() {
    let plan = plan_conversation(&conv_req(&["bob", "carol"], &[("carol", "https://c.example")]), "alice").unwrap();
    assert_eq!(plan.conv_type, "group");
    assert_eq!(plan.all_members.len(), 3);
    assert_eq!(plan.member_rows[1].hub_url, Some("https://c.example".to_string()));
    assert_eq!(plan.member_rows[0].hub_url, None);
}

#[test]
fn cannot_create_empty_conversation() {
    assert_eq!(plan_conversation(&conv_req(&[], &[]), "alice").unwrap_err(), DmRejection::NoMembers);
    assert_eq!(DmRejection::NoMembers.status(), 400);
}

#[test]
fn dm_conversation_dedup() {
    let candidates = vec![("group-ish".to_string(), 3), ("pair".to_string(), 2), ("other".to_string(), 2)];
    assert_eq!(pick_existing_dm(&candidates), Some("pair".to_string()));
    assert_eq!(pick_existing_dm(&vec![("x".to_string(), 3)]), None);
}

#[test]
fn first_hub_entry_wins() {
    let hubs = vec![("k".to_string(), "https://one".to_string()), ("k".to_string(), "https://two".to_string())];
    assert_eq!(hub_for(&hubs, "k"), Some("https://one".to_string()));
    assert_eq!(hub_for(&hubs, "z"), None);
}

#[test]
fn cannot_send_to_conversation_youre_not_in() {
    let members = vec![member("alice", None), member("bob", None)];
    assert!(is_member(&members, "bob"));
    assert_eq!(check_send_dm(&members, "mallory", Some("dm".to_string())), Err(DmRejection::NotMember));
    assert_eq!(check_send_dm(&members, "alice", None), Err(DmRejection::NotFound));
    assert_eq!(check_send_dm(&members, "alice", Some("dm".to_string())), Ok("dm".to_string()));
    assert_eq!(check_read_dm(0), Err(DmRejection::NotMember));
    assert_eq!(check_read_dm(1), Ok(()));
    assert_eq!(DmRejection::NotMember.status(), 403);
}

#[test]
fn messages_go_to_remote_hubs_of_others() {
    let members = vec![
        member("alice", Some("https://a.example")),
        member("bob", Some("https://b.example")),
        member("carol", None),
        member("dave", Some("https://d.example")),
    ];
    assert_eq!(delivery_targets(&members, "alice"), vec!["https://b.example".to_string(), "https://d.example".to_string()]);
    assert_eq!(member_keys(&members), vec!["alice", "bob", "carol", "dave"]);
    let env = federated_envelope(
        "m1".to_string(),
        "c1".to_string(),
        "group".to_string(),
        "alice".to_string(),
        member_keys(&members),
        "hi".to_string(),
        None,
        5,
    );
    assert_eq!(env.members.len(), 4);
    assert_eq!(env.conv_type, "group");
}

#[test]
fn receiving_is_idempotent() {
    assert_eq!(plan_receive(true, false), ReceiveAction::AlreadyStored);
    assert_eq!(plan_receive(false, false), ReceiveAction::CreateConversationAndStore);
    assert_eq!(plan_receive(false, true), ReceiveAction::Store);
    assert_eq!(received_event_time(100, 50), 100);
    assert_eq!(received_event_time(10, 50), 50);
}

#[test]
fn outbox_backoff_schedule() {
    let expected = [10, 60, 300, 1800, 3600, 21600, 86400];
    for (i, d) in expected.iter().enumerate() {
        assert_eq!(backoff_delay(i as i64), Some(*d));
    }
    assert_eq!(backoff_delay(7), None);
    assert_eq!(backoff_delay(-1), None);
}

#[test]
fn outbox_steps() {
    let failed = || Some(Err("connection refused".to_string()));
    let err = || "connection refused".to_string();
    assert_eq!(outbox_step(3, None, 1000), OutboxAction::DropOrphan);
    assert_eq!(outbox_step(3, Some(Ok(())), 1000), OutboxAction::Delivered);
    assert_eq!(outbox_step(0, failed(), 1000), OutboxAction::Retry { attempts: 1, next_attempt_at: 1010, last_error: err() });
    assert_eq!(outbox_step(6, failed(), 1000), OutboxAction::Retry { attempts: 7, next_attempt_at: 87400, last_error: err() });
    assert_eq!(outbox_step(7, failed(), 1000), OutboxAction::Bounce { attempts: 8, bounced_at: 1000, last_error: err() });
    assert_eq!(immediate_failure(1000, err()), outbox_step(0, failed(), 1000));
}

#[test]
fn outbox_records_the_delivery_error() {
    match outbox_step(2, Some(Err("timeout".to_string())), 50) {
        OutboxAction::Retry { last_error, .. } => assert_eq!(last_error, "timeout"),
        other => panic!("unexpected {other:?}"),
    }
    match outbox_step(9, Some(Err("502 from peer".to_string())), 50) {
        OutboxAction::Bounce { last_error, bounced_at, .. } => {
            assert_eq!(last_error, "502 from peer");
            assert_eq!(bounced_at, 50);
        }
        other => panic!("unexpected {other:?}"),
    }
}

#[test]
fn outbox_row_is_bounced_after_the_schedule() {
    let mut attempts = 0;
    let mut now = 0;
    loop {
        match outbox_step(attempts, Some(Err(format!("failure {attempts}"))), now) {
            OutboxAction::Retry { attempts: a, next_attempt_at, last_error } => {
                assert!(next_attempt_at > now);
                assert_eq!(last_error, format!("failure {attempts}"));
                attempts = a;
                now = next_attempt_at;
            }
            OutboxAction::Bounce { attempts: a, last_error, .. } => {
                assert_eq!(a, 8);
                assert_eq!(last_error, "failure 7");
                break;
            }
            other => panic!("unexpected {other:?}"),
        }
    }
    assert_eq!(now, 10 + 60 + 300 + 1800 + 3600 + 21600 + 86400);
}

#[test]
fn outbox_selects_due_rows() {
    let row = |id: &str, at: i64, bounced: bool| OutboxRow {
        message_id: id.to_string(),
        recipient_hub_url: "https://h".to_string(),
        attempts: 0,
        next_attempt_at: at,
        bounced,
    };
    let rows = vec![row("a", 5, false), row("b", 50, false), row("c", 1, true), row("d", 10, false)];
    let due = select_due(&rows, 10);
    let ids: Vec<&str> = due.iter().map(|r| r.message_id.as_str()).collect();
    assert_eq!(ids, vec!["a", "d"]);
    let many: Vec<OutboxRow> = (0..150).map(|i| row(&format!("m{i}"), 0, false)).collect();
    let due = select_due(&many, 0);
    assert_eq!(due.len(), 100);
    assert_eq!(due[99].message_id, "m99");
}

#[test]
fn friend_requests() {
    let req = |target: &str, hub: Option<&str>| FriendRequest {
        target_public_key: target.to_string(),
        hub_url: hub.map(|h| h.to_string()),
        display_name: None,
    };
    assert_eq!(plan_friend_request("me", &req("me", None)), Err(FriendRejection::SelfFriend));
    assert_eq!(plan_friend_request("me", &req("you", None)), Ok(FriendStatus::Pending));
    assert_eq!(plan_friend_request("me", &req("you", Some("https://h"))), Ok(FriendStatus::Accepted));
    assert_eq!(FriendStatus::Accepted.as_str(), "accepted");
    assert_eq!(accept_outcome(0), Err(FriendRejection::NoPendingRequest));
    assert_eq!(accept_outcome(1), Ok(()));
    assert_eq!(FriendRejection::NoPendingRequest.status(), 404);
}

#[test]
fn friend_lists() {
    let row = |a: &str, b: &str, status: FriendStatus, hub: Option<&str>, name: Option<&str>| FriendshipRow {
        user_a: a.to_string(),
        user_b: b.to_string(),
        status,
        hub_url: hub.map(|h| h.to_string()),
        display_name: name.map(|n| n.to_string()),
        created_at: 7,
    };
    let rows = vec![
        row("me", "x", FriendStatus::Accepted, Some("https://x.example"), Some("Xavier")),
        row("y", "me", FriendStatus::Accepted, Some("https://ignored"), Some("ignored")),
        row("z", "me", FriendStatus::Pending, None, None),
        row("p", "q", FriendStatus::Accepted, None, None),
    ];
    let friends = friend_entries(&rows, "me");
    assert_eq!(friends.len(), 2);
    assert_eq!(friends[0].friend_key, "x");
    assert_eq!(friends[0].hub_url, Some("https://x.example".to_string()));
    assert_eq!(friends[1].friend_key, "y");
    assert_eq!(friends[1].hub_url, None);
    assert_eq!(friends[1].cached_name, None);
    let pending = pending_entries(&rows, "me");
    assert_eq!(pending.len(), 1);
    assert_eq!(pending[0].friend_key, "z");

    assert!(links(&rows[1], "me", "y"));
    assert!(links(&rows[1], "y", "me"));
    assert!(!links(&rows[1], "me", "x"));

    assert!(cached_name_usable(&Some("A".to_string())));
    assert!(!cached_name_usable(&Some(String::new())));
    let info = friend_info(friends[0].clone(), Some("local".to_string()));
    assert_eq!(info.display_name, Some("Xavier".to_string()));
    let info = friend_info(friends[1].clone(), Some("local".to_string()));
    assert_eq!(info.display_name, Some("local".to_string()));
    assert_eq!(info.since, 7);
}

#[test]
fn alliance_invites_roundtrip() {
    let hub = Identity::generate();
    let token = invite_token(&hub, "alliance-1");
    assert_eq!(check_invite(&hub.public_key_hex(), "alliance-1", &token), Ok(()));
    assert_eq!(check_invite(&hub.public_key_hex(), "alliance-2", &token), Err(AllianceRejection::InvalidInvite));
    assert_eq!(check_invite(&hub.public_key_hex(), "alliance-1", "not-hex"), Err(AllianceRejection::InvalidInviteHex));
    let other = Identity::generate();
    assert_eq!(check_invite(&other.public_key_hex(), "alliance-1", &token), Err(AllianceRejection::InvalidInvite));
    assert_eq!(AllianceRejection::InvalidInvite.status(), 403);
    let invite = alliance_invite(&hub, "alliance-1".to_string(), "Friends".to_string());
    assert_eq!(invite.hub_url, "self");
    assert_eq!(invite.token, token);
    assert_eq!(check_invite(&hub.public_key_hex(), &invite.alliance_id, &invite.token), Ok(()));
    assert_eq!(AllianceRejection::InvalidInviteHex.status(), 400);
}

#[test]
fn forwarded_messages_carry_attribution() {
    assert_eq!(attributed_content(Some("alice"), "k", "voxply.example", "hello"), "[alice via voxply.example] hello");
    let key = "0123456789abcdef0123456789abcdef";
    assert_eq!(attributed_content(None, key, "hub", "hi"), "[0123456789abcdef via hub] hi");
}

#[test]
fn alliance_member_rows_and_urls() {
    assert_eq!(mirrored_member_url("me", "me", "https://me.example"), "self");
    assert_eq!(mirrored_member_url("them", "me", "https://them.example"), "https://them.example");
    assert_eq!(inviter_base_url("https://hub.example//"), "https://hub.example");
    assert_eq!(inviter_base_url("https://hub.example"), "https://hub.example");
    assert_eq!(check_share_channel(false, true, true), Err(AllianceRejection::Forbidden));
    assert_eq!(check_share_channel(true, false, true), Err(AllianceRejection::AllianceNotFound));
    assert_eq!(check_share_channel(true, true, false), Err(AllianceRejection::ChannelNotFound));
    assert_eq!(check_share_channel(true, true, true), Ok(()));
    assert!(delete_after_leave(0));
    assert!(!delete_after_leave(2));
}

#[test]
fn alliance_channel_owners() {
    let local = local_shared_channels(&vec![("c1".to_string(), "general".to_string())], "hubkey", "Hub");
    assert_eq!(local.len(), 1);
    assert_eq!(local[0].hub_public_key, "hubkey");
    assert_eq!(local[0].channel_name, "general");
    let remote = vec![SharedChannelResponse {
        channel_id: "c9".to_string(),
        channel_name: "news".to_string(),
        hub_public_key: "peer".to_string(),
        hub_name: "Peer".to_string(),
    }];
    assert!(peer_owns_channel(&remote, "c9"));
    assert!(!peer_owns_channel(&remote, "c1"));
    assert!(!peer_owns_channel(&vec![], "c9"));
}

fn shared(id: &str) -> SharedChannelResponse {
    SharedChannelResponse {
        channel_id: id.to_string(),
        channel_name: "name".to_string(),
        hub_public_key: "peer".to_string(),
        hub_name: "Peer".to_string(),
    }
}

#[test]
fn alliance_channel_routing() {
    let listing = vec![shared("c2"), shared("c9")];
    assert_eq!(alliance_owner_step(true, None, "c9", true), OwnerStep::ServeLocally);
    assert_eq!(alliance_owner_step(true, Some(&listing), "c1", false), OwnerStep::ServeLocally);
    assert_eq!(alliance_owner_step(false, Some(&listing), "c9", false), OwnerStep::UsePeer);
    assert_eq!(alliance_owner_step(false, Some(&listing), "c1", true), OwnerStep::NextPeer);
    assert_eq!(alliance_owner_step(false, None, "c9", true), OwnerStep::NextPeer);
    assert_eq!(alliance_owner_step(false, Some(&listing), "c1", false), OwnerStep::NotFound);
    assert_eq!(alliance_owner_step(false, None, "c9", false), OwnerStep::NotFound);
    assert_eq!(owner_step_rejection(OwnerStep::NotFound), Some(AllianceRejection::NotOnAnyHub));
    assert_eq!(owner_step_rejection(OwnerStep::UsePeer), None);
    assert_eq!(AllianceRejection::NotOnAnyHub.status(), 404);
}

#[test]
fn alliance_channel_first_owner() {
    let probes = vec![None, Some(vec![shared("c1")]), Some(vec![shared("c2"), shared("c9")]), Some(vec![shared("c9")])];
    assert_eq!(first_owner(&probes, "c9"), Some(2));
    assert_eq!(first_owner(&probes, "c1"), Some(1));
    assert_eq!(first_owner(&probes, "c7"), None);
    assert_eq!(first_owner(&vec![], "c9"), None);
}

#[test]
fn alliance_delivery_failure_is_bad_gateway() {
    assert_eq!(delivery_outcome(true), Ok(()));
    assert_eq!(delivery_outcome(false), Err(AllianceRejection::BadGateway));
    assert_eq!(AllianceRejection::BadGateway.status(), 502);
}
