use voxply::channels::{
    channel_response, check_channel_delete, check_create_channel, is_unique_violation, next_display_order,
    plan_channel_update, reorder_positions, ChannelRejection, UpdateChannelRequest,
};
use voxply::games::{
    default_max_players, default_min_players, derive_id_from_entry_url, entry_url_allowed, prepare_install,
    uninstall_outcome, GameManifest, GameRejection,
};
use voxply::hub::{
    branding, default_approval_status, health, hub_info, hub_settings, me_response, member_admin_info, plan_hub_update,
    profile_fields, stored_avatar, HubRejection, UpdateHubRequest,
};
use voxply::messages::{check_delete_message, check_edit_message, check_send_message, page_limit, MessageRejection};
use voxply::roles::{
    check_assign_role, check_create_role, check_delete_role, check_remove_role, check_update_role, require_not_builtin,
    role_response, stored_flag, RoleRejection, EVERYONE_ROLE, OWNER_ROLE,
};
use voxply::text::{is_blank, trim};
use voxply::schema::{after_step, schema_steps, StepOutcome, SCHEMA_STEP_COUNT};

fn manifest(name: &str, entry_url: &str) -> GameManifest {
    GameManifest {
        id: None,
        name: name.to_string(),
        description: None,
        version: None,
        entry_url: entry_url.to_string(),
        thumbnail_url: None,
        author: None,
        min_players: default_min_players(),
        max_players: default_max_players(),
    }
}

#[test]
fn channel_create_rules() {
    assert_eq!(check_create_channel(false, false, None), Err(ChannelRejection::Forbidden));
    assert_eq!(check_create_channel(true, false, None), Ok(()));
    assert_eq!(check_create_channel(true, true, None), Err(ChannelRejection::ParentNotFound));
    assert_eq!(check_create_channel(true, true, Some(0)), Err(ChannelRejection::ParentNotCategory));
    assert_eq!(check_create_channel(true, true, Some(1)), Ok(()));
    assert_eq!(ChannelRejection::ParentNotFound.status(), 404);
    assert_eq!(ChannelRejection::NameTaken.status(), 409);
}

#[test]
fn channel_update_rules() {
    let req = |p: Option<Option<&str>>| UpdateChannelRequest {
        description: Some("topic".to_string()),
        parent_id: p.map(|x| x.map(|s| s.to_string())),
    };
    assert_eq!(plan_channel_update(false, true, "c1", req(None), None).unwrap_err(), ChannelRejection::Forbidden);
    assert_eq!(plan_channel_update(true, false, "c1", req(None), None).unwrap_err(), ChannelRejection::NotFound);
    assert_eq!(plan_channel_update(true, true, "c1", req(Some(Some("c1"))), Some(1)).unwrap_err(), ChannelRejection::SelfParent);
    assert_eq!(plan_channel_update(true, true, "c1", req(Some(Some("cat"))), Some(0)).unwrap_err(), ChannelRejection::ParentNotCategory);
    assert_eq!(plan_channel_update(true, true, "c1", req(Some(Some("cat"))), None).unwrap_err(), ChannelRejection::ParentNotFound);
    let moved = plan_channel_update(true, true, "c1", req(Some(Some("cat"))), Some(1)).unwrap();
    assert_eq!(moved.parent, Some(Some("cat".to_string())));
    assert_eq!(moved.description, Some("topic".to_string()));
    let top = plan_channel_update(true, true, "c1", req(Some(None)), None).unwrap();
    assert_eq!(top.parent, Some(None));
    let same = plan_channel_update(true, true, "c1", req(None), None).unwrap();
    assert_eq!(same.parent, None);
}

#[test]
fn channel_reorder_and_delete() {
    let ids = vec!["b".to_string(), "a".to_string(), "c".to_string()];
    assert_eq!(
        reorder_positions(true, &ids),
        Ok(vec![("b".to_string(), 0), ("a".to_string(), 1), ("c".to_string(), 2)])
    );
    assert_eq!(reorder_positions(false, &ids), Err(ChannelRejection::Forbidden));
    assert_eq!(next_display_order(None), 0);
    assert_eq!(next_display_order(Some(4)), 5);
    let c = channel_response("id".to_string(), "general".to_string(), "me".to_string(), None, 1, 3, None, 9);
    assert!(c.is_category);
    assert_eq!(c.display_order, 3);
    assert_eq!(check_channel_delete(true, true, 2), Err(ChannelRejection::HasChildren));
    assert_eq!(check_channel_delete(true, false, 0), Err(ChannelRejection::NotFound));
    assert_eq!(check_channel_delete(false, true, 0), Err(ChannelRejection::Forbidden));
    assert_eq!(check_channel_delete(true, true, 0), Ok(()));
    assert!(is_unique_violation("UNIQUE constraint failed: channels.name"));
    assert!(!is_unique_violation("unique"));
}

#[test]
fn message_rules() {
    assert_eq!(check_send_message(false, false, false, true), Err(MessageRejection::Forbidden));
    assert_eq!(check_send_message(true, true, false, true), Err(MessageRejection::Muted));
    assert_eq!(check_send_message(true, false, true, true), Err(MessageRejection::ChannelBanned));
    assert_eq!(check_send_message(true, false, false, false), Err(MessageRejection::ChannelNotFound));
    assert_eq!(check_send_message(true, false, false, true), Ok(()));

    let m = Some(("alice".to_string(), "c1".to_string()));
    assert_eq!(check_edit_message(None, "c1", "alice"), Err(MessageRejection::MessageNotFound));
    assert_eq!(check_edit_message(m.clone(), "c2", "alice"), Err(MessageRejection::NotInChannel));
    assert_eq!(check_edit_message(m.clone(), "c1", "bob"), Err(MessageRejection::NotAuthor));
    assert_eq!(check_edit_message(m.clone(), "c1", "alice"), Ok(()));
    assert_eq!(check_delete_message(m.clone(), "c1", "bob", false), Err(MessageRejection::Forbidden));
    assert_eq!(check_delete_message(m.clone(), "c1", "bob", true), Ok(()));
    assert_eq!(check_delete_message(m, "c1", "alice", false), Ok(()));
    assert_eq!(MessageRejection::NotInChannel.status(), 404);
}

#[test]
fn history_page_sizes() {
    assert_eq!(page_limit(None), 50);
    assert_eq!(page_limit(Some(20)), 20);
    assert_eq!(page_limit(Some(100)), 100);
    assert_eq!(page_limit(Some(500)), 100);
}

#[test]
fn role_rank_rules() {
    assert_eq!(check_create_role(false, 100, 1), Err(RoleRejection::Forbidden));
    assert_eq!(check_create_role(true, 100, 100), Err(RoleRejection::PriorityTooHigh));
    assert_eq!(check_create_role(true, 100, 99), Ok(()));
    assert_eq!(check_update_role("r1", true, 100, Some(50), Some(100)), Err(RoleRejection::PriorityTooHigh));
    assert_eq!(check_update_role("r1", true, 100, Some(100), None), Err(RoleRejection::PriorityTooHigh));
    assert_eq!(check_update_role("r1", true, 100, None, None), Err(RoleRejection::NotFound));
    assert_eq!(check_update_role("r1", true, 100, Some(50), Some(60)), Ok(()));
    assert_eq!(check_assign_role(true, 10, Some(10)), Err(RoleRejection::PriorityTooHigh));
    assert_eq!(check_assign_role(true, 10, Some(9)), Ok(()));
    assert_eq!(RoleRejection::NotFound.status(), 404);
    assert_eq!(RoleRejection::LastOwner.status(), 403);
}

#[test]
fn builtin_roles_are_fixed() {
    assert_eq!(require_not_builtin(OWNER_ROLE), Err(RoleRejection::BuiltinRole));
    assert_eq!(require_not_builtin(EVERYONE_ROLE), Err(RoleRejection::BuiltinRole));
    assert_eq!(require_not_builtin("mods"), Ok(()));
    assert_eq!(check_update_role(OWNER_ROLE, true, i64::MAX, Some(0), None), Err(RoleRejection::BuiltinRole));
    assert_eq!(check_delete_role(EVERYONE_ROLE, true, i64::MAX, Some(0)), Err(RoleRejection::BuiltinRole));
    assert_eq!(check_delete_role("mods", true, 10, Some(5)), Ok(()));
}

#[test]
fn everyone_and_last_owner_stay() {
    assert_eq!(check_remove_role(EVERYONE_ROLE, true, 1000, Some(0), 5), Err(RoleRejection::CannotRemoveEveryone));
    assert_eq!(check_remove_role(OWNER_ROLE, true, 1001, Some(1000), 1), Err(RoleRejection::LastOwner));
    assert_eq!(check_remove_role(OWNER_ROLE, true, 1001, Some(1000), 2), Ok(()));
    assert_eq!(check_remove_role("mods", false, 1001, Some(10), 1), Err(RoleRejection::Forbidden));
}

#[test]
fn role_rows() {
    assert_eq!(stored_flag(true), 1);
    assert_eq!(stored_flag(false), 0);
    let r = role_response("r".to_string(), "Mods".to_string(), 5, 2, 7, vec!["kick".to_string()]);
    assert!(r.display_separately);
    assert_eq!(r.priority, 5);
    let r = role_response("r".to_string(), "Mods".to_string(), 5, 0, 7, vec![]);
    assert!(!r.display_separately);
}

#[test]
fn game_ids_are_derived_from_the_entry_url() {
    // FNV-1a 64 of the empty input is the offset basis.
    assert_eq!(derive_id_from_entry_url(""), "game-cbf29ce484222325");
    // FNV-1a 64 of "a".
    assert_eq!(derive_id_from_entry_url("a"), "game-af63dc4c8601ec8c");
    let id = derive_id_from_entry_url("https://example.com/g/index.html");
    assert!(id.starts_with("game-"));
    assert_eq!(id.len(), 21);
    assert_eq!(id, derive_id_from_entry_url("https://example.com/g/index.html"));
}

#[test]
fn install_derives_id_and_version_when_omitted() {
    let g = prepare_install(
        true,
        manifest("Quick Install Test", "https://example.com/g/index.html"),
        "admin".to_string(),
        5,
        "inline:https://example.com/g/index.html".to_string(),
    )
    .unwrap();
    assert!(g.id.starts_with("game-"), "derived id should be prefixed: got {}", g.id);
    assert_eq!(g.version, "1.0.0", "default version should be 1.0.0");
    let again = prepare_install(true, manifest("Renamed", "https://example.com/g/index.html"), "admin".to_string(), 6, String::new()).unwrap();
    assert_eq!(again.id, g.id, "same entry_url should upsert, not duplicate");
    assert_eq!(again.name, "Renamed");
}

#[test]
fn install_keeps_explicit_id_and_version() {
    let mut m = manifest("Dice", "/demo-games/dice.html");
    m.id = Some("demo-dice".to_string());
    m.version = Some("2.1.0".to_string());
    let g = prepare_install(true, m, "owner".to_string(), 1, "builtin:dice".to_string()).unwrap();
    assert_eq!(g.id, "demo-dice");
    assert_eq!(g.version, "2.1.0");
    assert_eq!(g.manifest_url, "builtin:dice");
    assert_eq!(g.installed_by, "owner");
}

#[test]
fn install_rejects_missing_name() {
    let r = prepare_install(true, manifest("  ", "https://example.com/g.html"), "a".to_string(), 1, String::new());
    assert_eq!(r.unwrap_err(), GameRejection::NameRequired);
}

#[test]
fn install_rejects_bad_entry_url() {
    let r = prepare_install(true, manifest("Bad", "javascript:alert(1)"), "a".to_string(), 1, String::new());
    assert_eq!(r.unwrap_err(), GameRejection::BadEntryUrl);
    assert!(!entry_url_allowed("file:///etc/passwd"));
    assert!(entry_url_allowed("data:text/html,hi"));
    assert!(entry_url_allowed("http://x"));
}

#[test]
fn non_admin_cannot_install_games() {
    let r = prepare_install(false, manifest("Evil", "https://example.com/evil.html"), "a".to_string(), 1, String::new());
    assert_eq!(r.unwrap_err(), GameRejection::Forbidden);
    assert_eq!(GameRejection::Forbidden.status(), 403);
    assert_eq!(uninstall_outcome(true, 0), Err(GameRejection::NotFound));
    assert_eq!(uninstall_outcome(false, 1), Err(GameRejection::Forbidden));
    assert_eq!(uninstall_outcome(true, 1), Ok(()));
}

#[test]
fn hub_info_and_settings() {
    assert_eq!(health().status, "ok");
    let info = hub_info("Hub".to_string(), "0.1.0".to_string(), "ab".to_string(), Some("8"), Some("true"));
    assert_eq!(info.min_security_level, 8);
    assert!(info.invite_only);
    let info = hub_info("Hub".to_string(), "0.1.0".to_string(), "ab".to_string(), Some("x"), None);
    assert_eq!(info.min_security_level, 0);
    assert!(!info.invite_only);
    let s = hub_settings(Some("true"), Some("false"));
    assert!(s.require_approval);
    assert!(!s.invite_only);
}

#[test]
fn hub_branding_update() {
    let req = UpdateHubRequest {
        name: Some("  My Hub  ".to_string()),
        description: Some("desc".to_string()),
        icon: Some(String::new()),
        require_approval: Some(false),
    };
    assert_eq!(plan_hub_update(false, &req).unwrap_err(), HubRejection::Forbidden);
    let writes = plan_hub_update(true, &req).unwrap();
    assert_eq!(
        writes,
        vec![
            ("hub_name".to_string(), "My Hub".to_string()),
            ("hub_description".to_string(), "desc".to_string()),
            ("hub_icon".to_string(), String::new()),
            ("require_approval".to_string(), "false".to_string()),
        ]
    );
    let blank = UpdateHubRequest { name: Some(" \t".to_string()), description: None, icon: None, require_approval: None };
    assert_eq!(plan_hub_update(true, &blank).unwrap_err(), HubRejection::EmptyName);
    assert_eq!(HubRejection::EmptyName.status(), 400);
    let b = branding(None, "Default".to_string(), None, Some("icon".to_string()));
    assert_eq!(b.name, "Default");
    let b = branding(Some("Stored".to_string()), "Default".to_string(), None, None);
    assert_eq!(b.name, "Stored");
}

#[test]
fn profile_defaults() {
    assert_eq!(default_approval_status(), "approved");
    assert_eq!(profile_fields(None), (None, "approved".to_string(), None));
    let row = (Some("Al".to_string()), "pending".to_string(), Some("pic".to_string()));
    assert_eq!(profile_fields(Some(row.clone())), row);
    assert_eq!(stored_avatar(""), None);
    assert_eq!(stored_avatar("data:x"), Some("data:x"));
    let online = vec!["a".to_string(), "k".to_string()];
    assert!(member_admin_info("k".to_string(), None, &online, 1, 2, vec![]).online);
    assert!(!member_admin_info("z".to_string(), None, &online, 1, 2, vec![]).online);
    let me = me_response("k".to_string(), None, vec![]);
    assert_eq!(me.approval_status, "approved");
    assert_eq!(me.public_key, "k");
}

#[test]
fn migrations_create_all_core_tables() {
    let steps = schema_steps();
    assert_eq!(steps.len(), SCHEMA_STEP_COUNT);
    for table in [
        "users", "sessions", "channels", "messages", "peers", "federated_channels", "federated_messages", "roles",
        "role_permissions", "user_roles", "bans", "mutes", "invites", "hub_settings", "alliances", "alliance_members",
        "alliance_shared_channels", "channel_bans", "voice_mutes", "channel_settings", "conversations",
        "conversation_members", "friends",
    ] {
        let create = format!("CREATE TABLE IF NOT EXISTS {table} (");
        assert!(steps.iter().any(|s| s.sql.starts_with(&create) && s.required), "Table '{table}' should exist after migrations");
    }
}

#[test]
fn migrations_required_steps_can_run_again() {
    let steps = schema_steps();
    for s in steps.iter().filter(|s| s.required) {
        assert!(
            s.sql.starts_with("CREATE TABLE IF NOT EXISTS ")
                || s.sql.starts_with("CREATE INDEX IF NOT EXISTS ")
                || s.sql.starts_with("INSERT OR IGNORE INTO "),
            "{}",
            s.sql
        );
    }
    assert!(steps[0].sql.starts_with("CREATE TABLE IF NOT EXISTS users ("));
    assert!(steps.iter().any(|s| s.sql == "ALTER TABLE channels ADD COLUMN is_category INTEGER NOT NULL DEFAULT 0"));
}

#[test]
fn migrations_add_columns_best_effort() {
    let steps = schema_steps();
    for s in &steps {
        assert_eq!(s.required, !s.sql.starts_with("ALTER TABLE"), "{}", s.sql);
    }
    assert!(steps.iter().any(|s| s.sql == "ALTER TABLE channels ADD COLUMN parent_id TEXT REFERENCES channels(id)"));
    assert_eq!(after_step(true, false), StepOutcome::Abort);
    assert_eq!(after_step(false, false), StepOutcome::Continue);
    assert_eq!(after_step(true, true), StepOutcome::Continue);
}

#[test]
fn whitespace_agrees_with_std_on_every_char() {
    for n in 0u32..=0x10FFFF {
        if let Some(c) = char::from_u32(n) {
            let one = c.to_string();
            assert_eq!(is_blank(&one), c.is_whitespace(), "U+{n:04X}");
            assert_eq!(trim(&one).is_empty(), c.is_whitespace(), "U+{n:04X}");
        }
    }
    assert_eq!(trim("\u{3000} name \u{85}"), "name");
}
