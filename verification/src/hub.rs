//! The hub's own settings and the user's own profile: health and info,
//! branding, admin settings, and the `me` view.

use vstd::prelude::*;

use crate::auth::{min_security_level_setting, setting_is_true};
use crate::roles::RoleResponse;
use crate::text::{is_blank_spec, parse_u32_spec, str_eq, trim, trim_spec};

verus! {

/// Liveness answer.
#[derive(Clone, Debug)]
pub struct HealthResponse {
    pub status: String,
}

/// The liveness answer, always `ok`.
pub fn health() -> (res: HealthResponse)
    ensures
        res.status@ == "ok"@,
{
    proof {
        reveal_strlit("ok");
    }
    HealthResponse { status: String::from_str("ok") }
}

/// Public facts about a hub.
#[derive(Clone, Debug)]
pub struct InfoResponse {
    pub name: String,
    pub version: String,
    pub public_key: String,
    pub min_security_level: u32,
    pub invite_only: bool,
}

/// The hub's public facts, from its name, version and key and the stored
/// `min_security_level` and `invite_only` settings.
pub fn hub_info(
    name: String,
    version: String,
    public_key: String,
    min_level_setting: Option<&str>,
    invite_only_setting: Option<&str>,
) -> (res: InfoResponse)
    ensures
        res.name == name,
        res.version == version,
        res.public_key == public_key,
        res.min_security_level == match min_level_setting {
            Some(v) => match parse_u32_spec(v@) {
                Some(n) => n,
                None => 0,
            },
            None => 0,
        },
        res.invite_only == (invite_only_setting matches Some(v) && v@ == "true"@),
{
    let min_security_level = min_security_level_setting(min_level_setting);
    let invite_only = setting_is_true(invite_only_setting);
    InfoResponse { name, version, public_key, min_security_level, invite_only }
}

/// Branding update; absent fields stay as they are.
#[derive(Clone, Debug)]
pub struct UpdateHubRequest {
    pub name: Option<String>,
    pub description: Option<String>,
    pub icon: Option<String>,
    pub require_approval: Option<bool>,
}

/// Why a hub-admin request was refused.
#[derive(Clone, Copy, Debug, PartialEq, Eq, Structural)]
pub enum HubRejection {
    /// The user lacks the admin permission.
    Forbidden,
    /// A hub name must have a visible character.
    EmptyName,
}

impl HubRejection {
    /// The HTTP status of the rejection.
    pub fn status(&self) -> (res: u16)
        ensures
            res == match self {
                HubRejection::Forbidden => 403u16,
                HubRejection::EmptyName => 400u16,
            },
    {
        match self {
            HubRejection::Forbidden => 403,
            HubRejection::EmptyName => 400,
        }
    }
}

/// The settings a branding update writes, in order: the trimmed name, the
/// description, the icon (as given; empty clears it) and the approval flag.
pub open spec fn hub_update_spec(req: UpdateHubRequest) -> Seq<(Seq<char>, Seq<char>)> {
    let name: Seq<(Seq<char>, Seq<char>)> = match req.name {
        Some(n) => seq![("hub_name"@, trim_spec(n@))],
        None => Seq::empty(),
    };
    let description: Seq<(Seq<char>, Seq<char>)> = match req.description {
        Some(d) => seq![("hub_description"@, d@)],
        None => Seq::empty(),
    };
    let icon: Seq<(Seq<char>, Seq<char>)> = match req.icon {
        Some(i) => seq![("hub_icon"@, i@)],
        None => Seq::empty(),
    };
    let approval: Seq<(Seq<char>, Seq<char>)> = match req.require_approval {
        Some(f) => seq![("require_approval"@, if f { "true"@ } else { "false"@ })],
        None => Seq::empty(),
    };
    name + description + icon + approval
}

/// The text views of a list of settings.
pub open spec fn settings_view(v: Seq<(String, String)>) -> Seq<(Seq<char>, Seq<char>)> {
    v.map_values(|p: (String, String)| (p.0@, p.1@))
}

fn push_setting(out: &mut Vec<(String, String)>, key: &str, value: &str)
    ensures
        settings_view(final(out)@) == settings_view(old(out)@).push((key@, value@)),
{
    out.push((String::from_str(key), String::from_str(value)));
    proof {
        assert(settings_view(final(out)@) =~= settings_view(old(out)@).push((key@, value@)));
    }
}

/// Plans a branding update: only an admin may make it, and a new name
/// must not be blank. The settings are written only when both hold.
pub fn plan_hub_update(is_admin: bool, req: &UpdateHubRequest) -> (res: Result<Vec<(String, String)>, HubRejection>)
    ensures
        !is_admin ==> res == Err::<Vec<(String, String)>, HubRejection>(HubRejection::Forbidden),
        is_admin && (req.name matches Some(n) && is_blank_spec(n@)) ==> res == Err::<Vec<(String, String)>, HubRejection>(HubRejection::EmptyName),
        res is Ok <==> is_admin && !(req.name matches Some(n) && is_blank_spec(n@)),
        res matches Ok(v) ==> settings_view(v@) == hub_update_spec(*req),
{
    if !is_admin {
        return Err(HubRejection::Forbidden);
    }
    proof {
        reveal_strlit("hub_name");
        reveal_strlit("hub_description");
        reveal_strlit("hub_icon");
        reveal_strlit("require_approval");
        reveal_strlit("true");
        reveal_strlit("false");
    }
    let mut out: Vec<(String, String)> = Vec::new();
    proof {
        assert(settings_view(out@) =~= Seq::<(Seq<char>, Seq<char>)>::empty());
    }
    match &req.name {
        Some(n) => {
            let t = trim(n.as_str());
            if t.is_empty() {
                return Err(HubRejection::EmptyName);
            }
            push_setting(&mut out, "hub_name", t);
        },
        None => {},
    }
    match &req.description {
        Some(d) => push_setting(&mut out, "hub_description", d.as_str()),
        None => {},
    }
    match &req.icon {
        Some(i) => push_setting(&mut out, "hub_icon", i.as_str()),
        None => {},
    }
    match req.require_approval {
        Some(f) => push_setting(&mut out, "require_approval", if f { "true" } else { "false" }),
        None => {},
    }
    proof {
        assert(settings_view(out@) =~= hub_update_spec(*req));
    }
    Ok(out)
}

/// The admin view of the hub-wide switches.
#[derive(Clone, Copy, Debug)]
pub struct HubSettings {
    pub require_approval: bool,
    pub invite_only: bool,
}

/// The switches from their stored settings: each on exactly when stored as `true`.
pub fn hub_settings(require_approval_setting: Option<&str>, invite_only_setting: Option<&str>) -> (res: HubSettings)
    ensures
        res.require_approval == (require_approval_setting matches Some(v) && v@ == "true"@),
        res.invite_only == (invite_only_setting matches Some(v) && v@ == "true"@),
{
    HubSettings {
        require_approval: setting_is_true(require_approval_setting),
        invite_only: setting_is_true(invite_only_setting),
    }
}

/// The hub's branding.
#[derive(Clone, Debug)]
pub struct HubBranding {
    pub name: String,
    pub description: Option<String>,
    pub icon: Option<String>,
}

/// The branding from the stored settings; the name falls back to the one
/// the hub was started with.
pub fn branding(stored_name: Option<String>, default_name: String, description: Option<String>, icon: Option<String>) -> (res: HubBranding)
    ensures
        res.name == match stored_name {
            Some(n) => n,
            None => default_name,
        },
        res.description == description,
        res.icon == icon,
{
    let name = match stored_name {
        Some(n) => n,
        None => default_name,
    };
    HubBranding { name, description, icon }
}

/// A user waiting for approval.
#[derive(Clone, Debug)]
pub struct PendingUser {
    pub public_key: String,
    pub display_name: Option<String>,
    pub first_seen_at: i64,
}

/// A member as the admin lists them.
#[derive(Clone, Debug)]
pub struct MemberAdminInfo {
    pub public_key: String,
    pub display_name: Option<String>,
    pub online: bool,
    pub first_seen_at: i64,
    pub last_seen_at: i64,
    pub roles: Vec<RoleResponse>,
}

/// Invite creation request: how many uses and how long it lasts, each
/// unlimited when absent.
#[derive(Clone, Debug)]
pub struct CreateInviteRequest {
    pub max_uses: Option<i64>,
    pub expires_in_seconds: Option<i64>,
}

/// An invite code as the hub lists it.
#[derive(Clone, Debug)]
pub struct InviteResponse {
    pub code: String,
    pub created_by: String,
    pub max_uses: Option<i64>,
    pub uses: i64,
    pub expires_at: Option<i64>,
    pub created_at: i64,
}

/// Whether a user is among those connected.
pub open spec fn is_online_spec(online_users: Seq<String>, public_key: Seq<char>) -> bool {
    exists|i: int| 0 <= i < online_users.len() && (#[trigger] online_users[i])@ == public_key
}

/// A member as the admin lists them, online when a socket of theirs is open.
pub fn member_admin_info(
    public_key: String,
    display_name: Option<String>,
    online_users: &Vec<String>,
    first_seen_at: i64,
    last_seen_at: i64,
    roles: Vec<RoleResponse>,
) -> (res: MemberAdminInfo)
    ensures
        res.public_key == public_key,
        res.display_name == display_name,
        res.online == is_online_spec(online_users@, public_key@),
        res.first_seen_at == first_seen_at,
        res.last_seen_at == last_seen_at,
        res.roles == roles,
{
    let mut online = false;
    let mut i: usize = 0;
    while i < online_users.len()
        invariant
            0 <= i <= online_users@.len(),
            online == exists|j: int| 0 <= j < i && (#[trigger] online_users@[j])@ == public_key@,
        decreases online_users@.len() - i,
    {
        if str_eq(online_users[i].as_str(), public_key.as_str()) {
            online = true;
        }
        i = i + 1;
    }
    MemberAdminInfo { public_key, display_name, online, first_seen_at, last_seen_at, roles }
}

/// The user's own profile.
#[derive(Clone, Debug)]
pub struct MeResponse {
    pub public_key: String,
    pub display_name: Option<String>,
    pub avatar: Option<String>,
    pub approval_status: String,
    pub roles: Vec<RoleResponse>,
}

/// Profile update; absent fields stay as they are.
#[derive(Clone, Debug)]
pub struct UpdateMeRequest {
    pub display_name: Option<String>,
    pub avatar: Option<String>,
}

/// The approval status of a profile that does not say: approved.
pub fn default_approval_status() -> (res: String)
    ensures
        res@ == "approved"@,
{
    String::from_str("approved")
}

/// The profile fields from the stored (display name, approval status,
/// avatar) row; a user without a row reads as approved with nothing set.
pub fn profile_fields(row: Option<(Option<String>, String, Option<String>)>) -> (res: (Option<String>, String, Option<String>))
    ensures
        row matches Some(r) ==> res == r,
        row is None ==> res.0 is None && res.1@ == "approved"@ && res.2 is None,
{
    match row {
        Some(r) => r,
        None => (None, default_approval_status(), None),
    }
}

/// The avatar stored for an update: an empty one clears it.
pub fn stored_avatar(avatar: &str) -> (res: Option<&str>)
    ensures
        res == if avatar@.len() == 0 { None::<&str> } else { Some(avatar) },
{
    if avatar.is_empty() {
        None
    } else {
        Some(avatar)
    }
}

/// The profile answered for `public_key`.
pub fn me_response(public_key: String, row: Option<(Option<String>, String, Option<String>)>, roles: Vec<RoleResponse>) -> (res: MeResponse)
    ensures
        res.public_key == public_key,
        res.roles == roles,
        row matches Some(r) ==> res.display_name == r.0 && res.approval_status == r.1 && res.avatar == r.2,
        row is None ==> res.display_name is None && res.approval_status@ == "approved"@ && res.avatar is None,
{
    let (display_name, approval_status, avatar) = profile_fields(row);
    MeResponse { public_key, display_name, avatar, approval_status, roles }
}

} // verus!
