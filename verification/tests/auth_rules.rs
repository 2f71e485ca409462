use voxply::auth::{
    admission_gates, take_and_check_challenge, verify, LoginLookups, PendingChallenges, VerifyRequest,
    answer_challenge, bearer_token, check_challenge, check_challenge_signature, initial_approval_status, initial_roles,
    invite_gate, issue_challenge, min_security_level_setting, new_session_token, resolve_canonical_identity,
    security_gate, session_gate, setting_is_true, ApprovalStatus, AuthRejection, RoleGrant,
};
use voxply::clock::{now_secs, timestamp_from_clock, unix_timestamp};
use voxply::identity::Identity;
use voxply::subkey::DeviceSubkey;
use voxply::wire::SubkeyCert;

fn signed_cert(master: &voxply::master::MasterIdentity, subkey_pubkey: &str) -> SubkeyCert {
    let master_pubkey = master.public_key_hex();
    let bytes = SubkeyCert::signing_bytes(&master_pubkey, subkey_pubkey, "laptop", 10, None, &[]);
    SubkeyCert {
        master_pubkey,
        subkey_pubkey: subkey_pubkey.to_string(),
        device_label: "laptop".to_string(),
        issued_at: 10,
        not_after: None,
        fallback_hubs: vec![],
        signature: hex::encode(master.sign(&bytes).to_bytes()),
    }
}

#[test]
fn login_handshake_accepts_the_issued_challenge() {
    let identity = Identity::generate();
    let (pending, challenge) = issue_challenge();
    assert_eq!(pending.len(), 32);
    assert_eq!(challenge.challenge, hex::encode(&pending));

    let answer = answer_challenge(&identity, &challenge.challenge).unwrap();
    let bytes = check_challenge(Some(pending), false, &challenge.challenge).unwrap();
    assert_eq!(check_challenge_signature(&identity.public_key_hex(), &bytes, &answer), Ok(()));
}

#[test]
fn challenge_check_reports_each_refusal() {
    let issued = vec![1u8, 2, 3];
    assert_eq!(check_challenge(None, false, "010203"), Err(AuthRejection::NoPendingChallenge));
    assert_eq!(check_challenge(Some(issued.clone()), true, "010203"), Err(AuthRejection::ChallengeExpired));
    assert_eq!(check_challenge(Some(issued.clone()), false, "0g"), Err(AuthRejection::InvalidChallengeHex));
    assert_eq!(check_challenge(Some(issued.clone()), false, "010204"), Err(AuthRejection::ChallengeMismatch));
    assert_eq!(check_challenge(Some(issued), false, "010203"), Ok(vec![1, 2, 3]));
}

#[test]
fn challenge_signature_refusals() {
    let identity = Identity::generate();
    let other = Identity::generate();
    let sig = hex::encode(other.sign(b"abc").to_bytes());
    assert_eq!(check_challenge_signature(&identity.public_key_hex(), b"abc", "nothex"), Err(AuthRejection::InvalidSignatureHex));
    assert_eq!(check_challenge_signature(&identity.public_key_hex(), b"abc", &sig), Err(AuthRejection::InvalidSignature));
    assert!(answer_challenge(&identity, "zz").is_none());
}

#[test]
fn session_tokens_are_fresh_hex() {
    let a = new_session_token();
    let b = new_session_token();
    assert_eq!(a.len(), 64);
    assert!(hex::decode(&a).is_ok());
    assert_ne!(a, b);
}

#[test]
fn canonical_identity_without_cert_is_the_key() {
    let r = resolve_canonical_identity("abc", None, Some("x".to_string()), None).unwrap();
    assert_eq!(r, ("abc".to_string(), None));
}

#[test]
fn canonical_identity_with_cert_follows_the_master() {
    let identity = Identity::generate();
    let master = identity.master().unwrap();
    let phone = DeviceSubkey::generate("phone".to_string());
    let cert = signed_cert(&master, &phone.public_key_hex());
    let m = master.public_key_hex();

    // A brand-new paired device: the master key is canonical.
    let fresh = resolve_canonical_identity(&phone.public_key_hex(), Some(&cert), None, None).unwrap();
    assert_eq!(fresh, (m.clone(), Some(m.clone())));
    // A second device finds the user already recorded under the master.
    let known = resolve_canonical_identity(&phone.public_key_hex(), Some(&cert), Some("user-1".to_string()), None).unwrap();
    assert_eq!(known, ("user-1".to_string(), Some(m.clone())));
    // A single-key user upgrading keeps their key.
    let legacy = resolve_canonical_identity(&phone.public_key_hex(), Some(&cert), None, Some("legacy".to_string())).unwrap();
    assert_eq!(legacy, ("legacy".to_string(), Some(m)));
}

#[test]
fn canonical_identity_refuses_bad_certs() {
    let identity = Identity::generate();
    let master = identity.master().unwrap();
    let phone = DeviceSubkey::generate("phone".to_string());
    let cert = signed_cert(&master, &phone.public_key_hex());
    let other = DeviceSubkey::generate("other".to_string());
    assert_eq!(
        resolve_canonical_identity(&other.public_key_hex(), Some(&cert), None, None),
        Err(AuthRejection::CertSubkeyMismatch)
    );
    let mut forged = cert.clone();
    forged.device_label = "tablet".to_string();
    assert_eq!(resolve_canonical_identity(&phone.public_key_hex(), Some(&forged), None, None), Err(AuthRejection::InvalidCert));
}

#[test]
fn security_gate_rules() {
    assert_eq!(security_gate(0, None, false), Ok(()));
    assert_eq!(security_gate(8, None, true), Err(AuthRejection::SecurityLevelTooLow));
    assert_eq!(security_gate(8, Some(7), true), Err(AuthRejection::SecurityLevelTooLow));
    assert_eq!(security_gate(8, Some(9), false), Err(AuthRejection::InvalidSecurityProof));
    assert_eq!(security_gate(8, Some(8), true), Ok(()));
}

#[test]
fn hub_settings_parse() {
    assert_eq!(min_security_level_setting(None), 0);
    assert_eq!(min_security_level_setting(Some("12")), 12);
    assert_eq!(min_security_level_setting(Some("4294967295")), 4294967295);
    assert_eq!(min_security_level_setting(Some("4294967296")), 0);
    assert_eq!(min_security_level_setting(Some("+3")), 3);
    assert_eq!(min_security_level_setting(Some("-3")), 0);
    assert_eq!(min_security_level_setting(Some("")), 0);
    assert_eq!(min_security_level_setting(Some("1x")), 0);
    assert!(setting_is_true(Some("true")));
    assert!(!setting_is_true(Some("TRUE")));
    assert!(!setting_is_true(None));
}

#[test]
fn first_user_is_approved_and_owner() {
    assert_eq!(initial_approval_status(true, 0), ApprovalStatus::Approved);
    assert_eq!(initial_approval_status(true, 3), ApprovalStatus::Pending);
    assert_eq!(initial_approval_status(false, 3), ApprovalStatus::Approved);
    assert_eq!(ApprovalStatus::Pending.as_str(), "pending");
    assert_eq!(initial_roles(0, 0), RoleGrant { owner: true, everyone: true });
    assert_eq!(initial_roles(0, 1), RoleGrant { owner: false, everyone: true });
    assert_eq!(initial_roles(2, 0), RoleGrant { owner: false, everyone: false });
}

#[test]
fn invite_gate_rules() {
    assert_eq!(invite_gate(0, true, None), Err(AuthRejection::InviteRequired));
    assert_eq!(invite_gate(0, true, Some("abc")), Ok(Some("abc".to_string())));
    assert_eq!(invite_gate(1, true, None), Ok(None));
    assert_eq!(invite_gate(0, false, Some("abc")), Ok(None));
    assert_eq!(AuthRejection::InviteRequired.status(), 403);
}

#[test]
fn bearer_and_session_rules() {
    assert_eq!(bearer_token(None), Err(AuthRejection::MissingAuthorization));
    assert_eq!(bearer_token(Some("Basic x")), Err(AuthRejection::InvalidAuthorizationFormat));
    assert_eq!(bearer_token(Some("Bearer tok123")), Ok("tok123"));
    assert_eq!(AuthRejection::InvalidToken.status(), 401);

    assert!(matches!(session_gate(None, "/channels"), Err(AuthRejection::InvalidToken)));
    assert!(matches!(
        session_gate(Some(("k".to_string(), "pending".to_string())), "/channels"),
        Err(AuthRejection::PendingApproval)
    ));
    let me = session_gate(Some(("k".to_string(), "pending".to_string())), "/me").unwrap();
    assert_eq!(me.public_key, "k");
    let ok = session_gate(Some(("k".to_string(), "approved".to_string())), "/channels").unwrap();
    assert_eq!(ok.public_key, "k");
}

#[test]
fn clock_readings() {
    assert_eq!(timestamp_from_clock(Some(42)), 42);
    assert_eq!(timestamp_from_clock(None), 0);
    assert_eq!(timestamp_from_clock(Some(u64::MAX)), -1);
    assert!(unix_timestamp() > 1_600_000_000);
    assert!(now_secs() > 1_600_000_000);
}

#[test]
fn pending_challenge_is_single_use() {
    let mut pending = PendingChallenges::new();
    let (bytes, resp) = issue_challenge();
    pending.insert("alice".to_string(), bytes.clone(), 100);
    assert_eq!(take_and_check_challenge(&mut pending, "alice", 50, &resp.challenge), Ok(bytes.clone()));
    assert_eq!(
        take_and_check_challenge(&mut pending, "alice", 50, &resp.challenge),
        Err(AuthRejection::NoPendingChallenge)
    );
    // A failed attempt uses the challenge up too.
    pending.insert("alice".to_string(), bytes.clone(), 100);
    assert_eq!(take_and_check_challenge(&mut pending, "alice", 50, "zz"), Err(AuthRejection::InvalidChallengeHex));
    assert_eq!(
        take_and_check_challenge(&mut pending, "alice", 50, &resp.challenge),
        Err(AuthRejection::NoPendingChallenge)
    );
}

#[test]
fn pending_challenges_by_key() {
    let mut pending = PendingChallenges::new();
    pending.insert("alice".to_string(), vec![1, 2], 100);
    pending.insert("bob".to_string(), vec![3], 100);
    pending.insert("alice".to_string(), vec![4], 200);
    assert_eq!(pending.take("alice"), Some((vec![4], 200)));
    assert_eq!(pending.take("alice"), None);
    assert_eq!(pending.take("bob"), Some((vec![3], 100)));
    assert_eq!(pending.take("carol"), None);
    pending.insert("dave".to_string(), vec![9], 10);
    assert_eq!(take_and_check_challenge(&mut pending, "dave", 11, "09"), Err(AuthRejection::ChallengeExpired));
    pending.insert("dave".to_string(), vec![9], 10);
    assert_eq!(take_and_check_challenge(&mut pending, "dave", 10, "08"), Err(AuthRejection::ChallengeMismatch));
    pending.insert("dave".to_string(), vec![9], 10);
    assert_eq!(take_and_check_challenge(&mut pending, "dave", 10, "09"), Ok(vec![9]));
}

#[test]
fn admission_gates_in_order() {
    // A banned user is refused before any other gate.
    assert_eq!(admission_gates(true, 5, Some(1), false, 0, true, None), Err(AuthRejection::Banned));
    assert_eq!(admission_gates(false, 5, Some(1), true, 0, true, None), Err(AuthRejection::SecurityLevelTooLow));
    assert_eq!(admission_gates(false, 5, None, true, 0, false, None), Err(AuthRejection::SecurityLevelTooLow));
    assert_eq!(admission_gates(false, 5, Some(5), false, 0, true, None), Err(AuthRejection::InvalidSecurityProof));
    assert_eq!(admission_gates(false, 5, Some(6), true, 0, true, None), Err(AuthRejection::InviteRequired));
    assert_eq!(admission_gates(false, 0, None, false, 0, true, Some("code")), Ok(Some("code".to_string())));
    assert_eq!(admission_gates(false, 0, None, false, 2, true, None), Ok(None));
    assert_eq!(admission_gates(false, 0, None, false, 0, false, None), Ok(None));
}

fn lookups() -> LoginLookups {
    LoginLookups {
        user_with_master: None,
        legacy_user: None,
        banned_users: vec![],
        min_security_level: 0,
        security_proof_valid: false,
        require_approval: false,
        existing_users: 0,
        users_with_roles: vec![],
        owner_exists: false,
        invite_only: false,
    }
}

fn login_request(identity: &Identity, challenge: &str) -> VerifyRequest {
    VerifyRequest {
        public_key: identity.public_key_hex(),
        challenge: challenge.to_string(),
        signature: answer_challenge(identity, challenge).unwrap(),
        invite_code: None,
        security_nonce: None,
        security_level: None,
        subkey_cert: None,
    }
}

#[test]
fn verify_logs_in_the_first_user_as_owner() {
    let identity = Identity::generate();
    let mut pending = PendingChallenges::new();
    let (bytes, resp) = issue_challenge();
    pending.insert(identity.public_key_hex(), bytes, 100);
    let req = login_request(&identity, &resp.challenge);
    let plan = verify(&mut pending, &req, 10, &lookups()).unwrap();
    assert_eq!(plan.canonical_key, identity.public_key_hex());
    assert_eq!(plan.master_key, None);
    assert_eq!(plan.approval, ApprovalStatus::Approved);
    assert_eq!(plan.invite_to_redeem, None);
    assert_eq!(plan.roles, RoleGrant { owner: true, everyone: true });
    // The challenge is used up, whatever comes next.
    assert_eq!(verify(&mut pending, &req, 10, &lookups()).unwrap_err(), AuthRejection::NoPendingChallenge);
}

#[test]
fn verify_applies_the_steps_in_order() {
    let identity = Identity::generate();
    let other = Identity::generate();
    let key = identity.public_key_hex();
    let (bytes, resp) = issue_challenge();
    let run = |req: &VerifyRequest, lk: &LoginLookups| {
        let mut pending = PendingChallenges::new();
        pending.insert(key.clone(), bytes.clone(), 100);
        verify(&mut pending, req, 10, lk)
    };
    let good = login_request(&identity, &resp.challenge);
    // A bad signature is refused before the ban is looked at.
    let mut forged = good.clone();
    forged.signature = answer_challenge(&other, &resp.challenge).unwrap();
    let banned = LoginLookups { banned_users: vec![key.clone()], ..lookups() };
    assert_eq!(run(&forged, &banned).unwrap_err(), AuthRejection::InvalidSignature);
    // The ban comes before the proof-of-work gate.
    let strict = LoginLookups { min_security_level: 3, ..banned.clone() };
    assert_eq!(run(&good, &strict).unwrap_err(), AuthRejection::Banned);
    let strict = LoginLookups { min_security_level: 3, invite_only: true, ..lookups() };
    assert_eq!(run(&good, &strict).unwrap_err(), AuthRejection::SecurityLevelTooLow);
    // Then the invite gate for a user new to the hub.
    let invite_only = LoginLookups { invite_only: true, owner_exists: true, ..lookups() };
    assert_eq!(run(&good, &invite_only).unwrap_err(), AuthRejection::InviteRequired);
    let mut with_code = good.clone();
    with_code.invite_code = Some("abc".to_string());
    let plan = run(&with_code, &invite_only).unwrap();
    assert_eq!(plan.invite_to_redeem, Some("abc".to_string()));
    assert_eq!(plan.roles, RoleGrant { owner: false, everyone: true });
    // A user holding a role passes the invite gate and gets no roles.
    let known = LoginLookups { invite_only: true, users_with_roles: vec![key.clone()], require_approval: true, existing_users: 4, ..lookups() };
    let plan = run(&good, &known).unwrap();
    assert_eq!(plan.invite_to_redeem, None);
    assert_eq!(plan.roles, RoleGrant { owner: false, everyone: false });
    assert_eq!(plan.approval, ApprovalStatus::Pending);
    // An expired challenge is refused.
    let mut pending = PendingChallenges::new();
    pending.insert(key.clone(), bytes.clone(), 5);
    assert_eq!(verify(&mut pending, &good, 10, &lookups()).unwrap_err(), AuthRejection::ChallengeExpired);
}
