use voxply::auth::AuthRejection;
use voxply::identity::Identity;
use voxply::pairing::{check_claim, check_complete, check_offer, status_kind, PairingRejection, StatusKind, StoredOffer};
use voxply::subkey::DeviceSubkey;
use voxply::voice::{default_first, next_packet_header, preferred_device_index, resolve_opus_rate, VadState, VoiceRoster};
use voxply::wire::{PairingClaim, PairingComplete, PairingOffer, SubkeyCert, WireError};
use voxply::ws::{apply_close, ws_user, SessionAction, VoiceParticipantInfo, WsClientMessage, WsServerMessage, WsSession};

const TOKEN: &str = "0123456789abcdef0123456789abcdef";

fn offer(master: &voxply::master::MasterIdentity, token: &str, issued_at: u64, expires_at: u64) -> PairingOffer {
    let master_pubkey = master.public_key_hex();
    let home_hubs = vec!["https://home.example".to_string()];
    let bytes = PairingOffer::signing_bytes(&master_pubkey, &home_hubs, token, issued_at, expires_at);
    PairingOffer {
        master_pubkey,
        home_hubs,
        pairing_token: token.to_string(),
        issued_at,
        expires_at,
        signature: hex::encode(master.sign(&bytes).to_bytes()),
    }
}

fn claim(subkey: &DeviceSubkey, token: &str) -> PairingClaim {
    let subkey_pubkey = subkey.public_key_hex();
    let bytes = PairingClaim::signing_bytes(token, &subkey_pubkey, "phone");
    PairingClaim {
        pairing_token: token.to_string(),
        subkey_pubkey,
        device_label: "phone".to_string(),
        proof: hex::encode(subkey.sign(&bytes).to_bytes()),
    }
}

fn complete(master: &voxply::master::MasterIdentity, subkey_pubkey: &str) -> PairingComplete {
    let master_pubkey = master.public_key_hex();
    let bytes = SubkeyCert::signing_bytes(&master_pubkey, subkey_pubkey, "phone", 100, None, &[]);
    PairingComplete {
        pairing_token: TOKEN.to_string(),
        cert: SubkeyCert {
            master_pubkey,
            subkey_pubkey: subkey_pubkey.to_string(),
            device_label: "phone".to_string(),
            issued_at: 100,
            not_after: None,
            fallback_hubs: vec![],
            signature: hex::encode(master.sign(&bytes).to_bytes()),
        },
        wrapped_blob_key_hex: "00".to_string(),
    }
}

#[test]
fn pairing_offer_rules() {
    let master = Identity::generate().master().unwrap();
    assert_eq!(check_offer(&offer(&master, TOKEN, 1000, 1200), 1100), Ok(()));
    assert_eq!(check_offer(&offer(&master, TOKEN, 1000, 1000), 900), Err(PairingRejection::NonPositiveLifetime));
    assert_eq!(check_offer(&offer(&master, TOKEN, 1000, 1301), 1100), Err(PairingRejection::LifetimeTooLong));
    assert_eq!(check_offer(&offer(&master, TOKEN, 1000, 1300), 1100), Ok(()));
    assert_eq!(check_offer(&offer(&master, TOKEN, 1000, 1200), 1200), Err(PairingRejection::AlreadyExpired));
    assert_eq!(check_offer(&offer(&master, "short", 1000, 1200), 1100), Err(PairingRejection::TokenTooShort));
    let mut tampered = offer(&master, TOKEN, 1000, 1200);
    tampered.expires_at = 1250;
    assert!(matches!(check_offer(&tampered, 1100), Err(PairingRejection::BadSignature(WireError::Signature(_)))));
    assert_eq!(PairingRejection::TokenTooShort.status(), 400);
}

#[test]
fn pairing_claim_rules() {
    let phone = DeviceSubkey::generate("phone".to_string());
    let c = claim(&phone, TOKEN);
    assert_eq!(check_claim(&c, Some(("pending", 500)), 400), Ok(()));
    assert_eq!(check_claim(&c, None, 400), Err(PairingRejection::NotFound));
    assert_eq!(check_claim(&c, Some(("pending", 300)), 400), Err(PairingRejection::Expired));
    assert_eq!(check_claim(&c, Some(("claimed", 500)), 400), Err(PairingRejection::WrongState));
    let mut forged = c.clone();
    forged.device_label = "evil".to_string();
    assert!(matches!(check_claim(&forged, Some(("pending", 500)), 400), Err(PairingRejection::BadSignature(_))));
    assert_eq!(PairingRejection::Expired.status(), 410);
    assert_eq!(PairingRejection::WrongState.status(), 409);
}

#[test]
fn pairing_complete_rules() {
    let master = Identity::generate().master().unwrap();
    let phone = DeviceSubkey::generate("phone".to_string());
    let done = complete(&master, &phone.public_key_hex());
    let stored = |state: &str, m: &str, s: Option<&str>, exp: i64| {
        Some(StoredOffer { state: state.to_string(), master_pubkey: m.to_string(), subkey_pubkey: s.map(|x| x.to_string()), expires_at: exp })
    };
    let m = master.public_key_hex();
    let k = phone.public_key_hex();
    assert_eq!(check_complete(&done, &stored("claimed", &m, Some(&k), 500), 400), Ok(()));
    assert_eq!(check_complete(&done, &None, 400), Err(PairingRejection::NotFound));
    assert_eq!(check_complete(&done, &stored("claimed", &m, Some(&k), 300), 400), Err(PairingRejection::Expired));
    assert_eq!(check_complete(&done, &stored("pending", &m, None, 500), 400), Err(PairingRejection::WrongState));
    assert_eq!(check_complete(&done, &stored("claimed", "other", Some(&k), 500), 400), Err(PairingRejection::MasterMismatch));
    assert_eq!(check_complete(&done, &stored("claimed", &m, Some("other"), 500), 400), Err(PairingRejection::SubkeyMismatch));
    assert_eq!(check_complete(&done, &stored("claimed", &m, None, 500), 400), Err(PairingRejection::SubkeyMismatch));
}

#[test]
fn pairing_status_rules() {
    assert_eq!(status_kind("claimed", 10, 20), Ok(StatusKind::Expired));
    assert_eq!(status_kind("pending", 30, 20), Ok(StatusKind::Pending));
    assert_eq!(status_kind("claimed", 30, 20), Ok(StatusKind::Claimed));
    assert_eq!(status_kind("complete", 30, 20), Ok(StatusKind::Complete));
    assert_eq!(status_kind("weird", 30, 20), Err(PairingRejection::UnknownState));
    assert_eq!(PairingRejection::UnknownState.status(), 500);
}

#[test]
fn ws_subscriptions() {
    let mut s = WsSession::new("me".to_string(), vec!["conv1".to_string()]);
    assert!(!s.forwards_chat("general"));
    assert!(matches!(s.apply(WsClientMessage::Subscribe { channel_id: "general".to_string() }), SessionAction::Nothing));
    s.apply(WsClientMessage::Subscribe { channel_id: "general".to_string() });
    assert!(s.forwards_chat("general"));
    assert!(!s.forwards_chat("random"));
    s.apply(WsClientMessage::Unsubscribe { channel_id: "general".to_string() });
    assert!(!s.forwards_chat("general"));
    s.apply(WsClientMessage::SubscribeAll);
    assert!(s.forwards_chat("random"));
    s.apply(WsClientMessage::Unsubscribe { channel_id: "random".to_string() });
    assert!(s.forwards_chat("random"));
}

#[test]
fn ws_voice_and_dm_relay() {
    let mut s = WsSession::new("me".to_string(), vec!["conv1".to_string()]);
    let speaking = |who: &str| WsServerMessage::VoiceParticipantSpeaking {
        channel_id: "v1".to_string(),
        public_key: who.to_string(),
        speaking: true,
    };
    assert!(!s.forwards_voice("v1", &speaking("bob")));
    let act = s.apply(WsClientMessage::VoiceJoin { channel_id: "v1".to_string(), udp_port: 5000 });
    assert!(matches!(act, SessionAction::JoinVoice { ref channel_id, udp_port: 5000 } if channel_id == "v1"));
    assert_eq!(s.voice_channel(), Some("v1".to_string()));
    assert!(s.forwards_voice("v1", &speaking("bob")));
    assert!(!s.forwards_voice("v1", &speaking("me")));
    assert!(!s.forwards_voice("v2", &speaking("bob")));
    let joined = WsServerMessage::VoiceParticipantJoined {
        channel_id: "v1".to_string(),
        participant: VoiceParticipantInfo { public_key: "me".to_string(), display_name: None },
    };
    assert!(!s.forwards_voice("v1", &joined));
    let act = s.apply(WsClientMessage::VoiceSpeaking { channel_id: "v1".to_string(), speaking: true });
    assert!(matches!(act, SessionAction::AnnounceSpeaking { speaking: true, .. }));
    let act = s.apply(WsClientMessage::VoiceLeave { channel_id: "v1".to_string() });
    assert!(matches!(act, SessionAction::LeaveVoice { .. }));
    assert_eq!(s.voice_channel(), None);

    assert!(s.forwards_dm("bob", "conv1"));
    assert!(!s.forwards_dm("me", "conv1"));
    assert!(!s.forwards_dm("bob", "conv2"));
    assert_eq!(s.public_key(), "me");
    assert_eq!(ws_user(Some("k".to_string())), Ok("k".to_string()));
    assert_eq!(ws_user(None), Err(AuthRejection::InvalidToken));
}

#[test]
fn voice_roster_tracks_participants() {
    let mut r = VoiceRoster::new();
    assert!(!r.has_channel("v1"));
    r.join("v1", "alice", 4000);
    r.join("v1", "bob", 4001);
    r.join("v2", "carol", 4002);
    r.join("v1", "alice", 4100);
    assert_eq!(r.population("v1"), 2);
    let mut p = r.participants("v1");
    p.sort();
    assert_eq!(p, vec![("alice".to_string(), 4100), ("bob".to_string(), 4001)]);
    assert_eq!(r.populations(), vec![("v1".to_string(), 2), ("v2".to_string(), 1)]);
    r.leave("v2", "carol");
    assert!(!r.has_channel("v2"));
    assert_eq!(r.populations(), vec![("v1".to_string(), 2)]);
    r.leave("v1", "nobody");
    assert_eq!(r.population("v1"), 2);
}

#[test]
fn opus_rates() {
    for rate in [8000, 12000, 16000, 24000, 48000] {
        assert_eq!(resolve_opus_rate(rate), rate);
    }
    assert_eq!(resolve_opus_rate(44100), 48000);
    assert_eq!(resolve_opus_rate(0), 48000);
}

#[test]
fn voice_activity_switch() {
    let mut v = VadState::new();
    assert_eq!(v.step(Some(false), 0), None);
    assert_eq!(v.step(Some(true), 100), Some(true));
    assert_eq!(v.step(Some(true), 110), None);
    assert_eq!(v.step(Some(false), 300), None);
    assert_eq!(v.step(None, 360), None);
    assert_eq!(v.step(None, 361), Some(false));
    assert_eq!(v.step(None, 1000), None);
    assert!(!v.is_speaking);
}

#[test]
fn packet_headers_wrap() {
    assert_eq!(next_packet_header(0, 0, 960), (1, 960));
    assert_eq!(next_packet_header(u16::MAX, u32::MAX, 960), (0, 959));
}

#[test]
fn default_device_comes_first() {
    let names = vec!["USB Mic".to_string(), "Built-in".to_string(), "Headset".to_string()];
    assert_eq!(
        default_first(names.clone(), Some("Headset".to_string())),
        vec!["Headset".to_string(), "USB Mic".to_string(), "Built-in".to_string()]
    );
    assert_eq!(default_first(names.clone(), Some("Missing".to_string())), names);
    assert_eq!(default_first(names.clone(), None), names);
}

#[test]
fn preferred_device_falls_back_to_default() {
    let names = vec!["USB Mic".to_string(), "Headset".to_string(), "Headset".to_string()];
    assert_eq!(preferred_device_index(&names, Some("Headset")), Some(1));
    assert_eq!(preferred_device_index(&names, Some("Missing")), None);
    assert_eq!(preferred_device_index(&names, None), None);
}

#[test]
fn closing_a_socket_leaves_voice_and_goes_offline() {
    let mut s = WsSession::new("me".to_string(), vec![]);
    s.apply(WsClientMessage::VoiceJoin { channel_id: "v1".to_string(), udp_port: 4000 });
    let action = s.close();
    assert_eq!(action.public_key, "me");
    assert_eq!(action.leave_voice, Some("v1".to_string()));
    match &action.announce {
        Some(WsServerMessage::VoiceParticipantLeft { channel_id, public_key }) => {
            assert_eq!(channel_id, "v1");
            assert_eq!(public_key, "me");
        }
        _ => panic!("expected a leave announcement"),
    }
    let mut roster = VoiceRoster::new();
    roster.join("v1", "me", 4000);
    roster.join("v1", "other", 4001);
    let mut online = vec!["other".to_string(), "me".to_string()];
    apply_close(&action, &mut roster, &mut online);
    assert_eq!(online, vec!["other".to_string()]);
    assert_eq!(roster.population("v1"), 1);

    let mut roster = VoiceRoster::new();
    roster.join("v1", "me", 4000);
    let mut online = vec!["me".to_string()];
    apply_close(&action, &mut roster, &mut online);
    assert!(!roster.has_channel("v1"));
    assert!(online.is_empty());
}

#[test]
fn closing_a_socket_outside_voice() {
    let s = WsSession::new("me".to_string(), vec![]);
    let action = s.close();
    assert_eq!(action.public_key, "me");
    assert_eq!(action.leave_voice, None);
    assert!(action.announce.is_none());
    let mut roster = VoiceRoster::new();
    roster.join("v1", "me", 4000);
    let mut online = vec!["me".to_string(), "me2".to_string()];
    apply_close(&action, &mut roster, &mut online);
    assert_eq!(online, vec!["me2".to_string()]);
    assert_eq!(roster.population("v1"), 1);
}
