//! Hub-installed games. Admins install a game from a manifest; every hub
//! member can then launch it in a sandboxed frame. The hub only keeps the
//! metadata: these are its rules for accepting a manifest.

use vstd::prelude::*;
use vstd::string::{StringExecFns, StringSliceAdditionalSpecFns};
use vstd::utf8::encode_utf8;

use crate::hexcodec::{hex_encode, hex_encode_spec, lemma_hex_encode_len};
use crate::text::{has_prefix, is_blank, is_blank_spec, starts_with};

verus! {

/// FNV-1a 64-bit offset basis.
pub const FNV_OFFSET_BASIS: u64 = 0xcbf29ce484222325;

/// FNV-1a 64-bit prime.
pub const FNV_PRIME: u64 = 0x100000001b3;

/// FNV-1a over `bytes` from the running hash `h`: xor each byte in, then
/// multiply by the prime modulo 2^64.
pub open spec fn fnv1a_from(h: u64, bytes: Seq<u8>) -> u64
    decreases bytes.len(),
{
    if bytes.len() == 0 {
        h
    } else {
        fnv1a_from(
            (((h ^ (bytes[0] as u64)) as nat * FNV_PRIME as nat) % 0x1_0000_0000_0000_0000) as u64,
            bytes.drop_first(),
        )
    }
}

/// FNV-1a 64 of `bytes`.
pub open spec fn fnv1a(bytes: Seq<u8>) -> u64 {
    fnv1a_from(FNV_OFFSET_BASIS, bytes)
}

/// Big-endian bytes of a `u64`.
pub open spec fn be64(v: u64) -> Seq<u8> {
    seq![
        (v >> 56u64) as u8,
        (v >> 48u64) as u8,
        (v >> 40u64) as u8,
        (v >> 32u64) as u8,
        (v >> 24u64) as u8,
        (v >> 16u64) as u8,
        (v >> 8u64) as u8,
        v as u8,
    ]
}

/// The game id derived from an entry URL: `game-` and the FNV-1a 64 hash
/// of the URL's UTF-8 bytes as 16 lowercase hex digits.
pub open spec fn derived_game_id(entry_url: Seq<char>) -> Seq<char> {
    "game-"@ + hex_encode_spec(be64(fnv1a(encode_utf8(entry_url))))
}

proof fn lemma_fnv_step(h: u64, bytes: Seq<u8>, i: int)
    requires
        0 <= i < bytes.len(),
    ensures
        fnv1a_from(h, bytes.subrange(i, bytes.len() as int)) == fnv1a_from(
            (((h ^ (bytes[i] as u64)) as nat * FNV_PRIME as nat) % 0x1_0000_0000_0000_0000) as u64,
            bytes.subrange(i + 1, bytes.len() as int),
        ),
{
    assert(bytes.subrange(i, bytes.len() as int).drop_first() =~= bytes.subrange(i + 1, bytes.len() as int));
}

/// A stable id for a game from its entry URL, so that installing the same
/// URL again updates the same game.
pub fn derive_id_from_entry_url(entry_url: &str) -> (res: String)
    ensures
        res@ == derived_game_id(entry_url@),
{
    let bytes = entry_url.as_bytes();
    let mut h: u64 = FNV_OFFSET_BASIS;
    let mut i: usize = 0;
    assert(bytes@.subrange(0, bytes@.len() as int) =~= bytes@);
    while i < bytes.len()
        invariant
            0 <= i <= bytes@.len(),
            bytes@ == entry_url.spec_bytes(),
            fnv1a(bytes@) == fnv1a_from(h, bytes@.subrange(i as int, bytes@.len() as int)),
        decreases bytes@.len() - i,
    {
        proof {
            lemma_fnv_step(h, bytes@, i as int);
        }
        h = (h ^ (bytes[i] as u64)).wrapping_mul(FNV_PRIME);
        i = i + 1;
    }
    proof {
        assert(bytes@.subrange(i as int, bytes@.len() as int) =~= Seq::<u8>::empty());
    }
    let be: [u8; 8] = [
        #[verifier::truncate] ((h >> 56u64) as u8),
        #[verifier::truncate] ((h >> 48u64) as u8),
        #[verifier::truncate] ((h >> 40u64) as u8),
        #[verifier::truncate] ((h >> 32u64) as u8),
        #[verifier::truncate] ((h >> 24u64) as u8),
        #[verifier::truncate] ((h >> 16u64) as u8),
        #[verifier::truncate] ((h >> 8u64) as u8),
        #[verifier::truncate] (h as u8),
    ];
    assert(be@ =~= be64(h));
    let hex = hex_encode(&be);
    String::from_str("game-").concat(hex.as_str())
}

/// Default minimum number of players.
pub fn default_min_players() -> (res: i64)
    ensures
        res == 1,
{
    1
}

/// Default maximum number of players.
pub fn default_max_players() -> (res: i64)
    ensures
        res == 1,
{
    1
}

/// A game's manifest. `id` and `version` may be omitted: the id is then
/// derived from the entry URL and the version defaults to `1.0.0`.
#[derive(Clone, Debug)]
pub struct GameManifest {
    pub id: Option<String>,
    pub name: String,
    pub description: Option<String>,
    pub version: Option<String>,
    pub entry_url: String,
    pub thumbnail_url: Option<String>,
    pub author: Option<String>,
    pub min_players: i64,
    pub max_players: i64,
}

/// Install request: a manifest URL (or a `builtin:` name), or the manifest inline.
#[derive(Clone, Debug)]
pub struct InstallGameRequest {
    pub manifest_url: String,
    pub manifest: Option<GameManifest>,
}

/// An installed game as the hub lists it.
#[derive(Clone, Debug)]
pub struct InstalledGame {
    pub id: String,
    pub name: String,
    pub description: Option<String>,
    pub version: String,
    pub entry_url: String,
    pub thumbnail_url: Option<String>,
    pub author: Option<String>,
    pub min_players: i64,
    pub max_players: i64,
    pub installed_by: String,
    pub installed_at: i64,
    pub manifest_url: String,
}

/// Why a game request was refused.
#[derive(Clone, Copy, Debug, PartialEq, Eq, Structural)]
pub enum GameRejection {
    /// The user lacks the manage-games permission.
    Forbidden,
    /// The manifest's name is empty or blank.
    NameRequired,
    /// The entry URL is not `http(s)://`, `data:` or a `/`-prefixed path.
    BadEntryUrl,
    /// No installed game has that id.
    NotFound,
}

impl GameRejection {
    /// The HTTP status of the rejection.
    pub fn status(&self) -> (res: u16)
        ensures
            res == match self {
                GameRejection::Forbidden => 403u16,
                GameRejection::NotFound => 404u16,
                _ => 400u16,
            },
    {
        match self {
            GameRejection::Forbidden => 403,
            GameRejection::NotFound => 404,
            _ => 400,
        }
    }
}

/// Entry URLs a game may have: absolute `http://` and `https://` URLs,
/// `data:` URLs, and paths starting with `/`. Anything else, such as
/// `javascript:` or `file:`, could escape the frame's sandbox.
pub open spec fn entry_url_allowed_spec(u: Seq<char>) -> bool {
    has_prefix(u, "http://"@) || has_prefix(u, "https://"@) || has_prefix(u, "data:"@) || has_prefix(u, "/"@)
}

/// Whether an entry URL is allowed.
pub fn entry_url_allowed(u: &str) -> (res: bool)
    ensures
        res == entry_url_allowed_spec(u@),
{
    starts_with(u, "http://") || starts_with(u, "https://") || starts_with(u, "data:") || starts_with(u, "/")
}

/// The id a manifest installs under.
pub open spec fn manifest_id_spec(m: GameManifest) -> Seq<char> {
    match m.id {
        Some(i) => if !is_blank_spec(i@) { i@ } else { derived_game_id(m.entry_url@) },
        None => derived_game_id(m.entry_url@),
    }
}

/// The version a manifest installs under.
pub open spec fn manifest_version_spec(m: GameManifest) -> Seq<char> {
    match m.version {
        Some(v) => if !is_blank_spec(v@) { v@ } else { "1.0.0"@ },
        None => "1.0.0"@,
    }
}

/// Validates a manifest and applies the defaults: only a user with the
/// manage-games permission installs; the name must not be blank, the entry
/// URL must be allowed; a blank or missing id is derived from the entry
/// URL, a blank or missing version becomes `1.0.0`. The result is the row
/// the hub stores (an upsert on the id).
pub fn prepare_install(can_manage: bool, manifest: GameManifest, installed_by: String, installed_at: i64, manifest_url: String) -> (res: Result<InstalledGame, GameRejection>)
    ensures
        !can_manage ==> res == Err::<InstalledGame, GameRejection>(GameRejection::Forbidden),
        can_manage && is_blank_spec(manifest.name@) ==> res == Err::<InstalledGame, GameRejection>(GameRejection::NameRequired),
        can_manage && !is_blank_spec(manifest.name@) && !entry_url_allowed_spec(manifest.entry_url@) ==> res == Err::<InstalledGame, GameRejection>(GameRejection::BadEntryUrl),
        can_manage && !is_blank_spec(manifest.name@) && entry_url_allowed_spec(manifest.entry_url@) ==> (res matches Ok(g) && {
            &&& g.id@ == manifest_id_spec(manifest)
            &&& g.version@ == manifest_version_spec(manifest)
            &&& g.name == manifest.name
            &&& g.description == manifest.description
            &&& g.entry_url == manifest.entry_url
            &&& g.thumbnail_url == manifest.thumbnail_url
            &&& g.author == manifest.author
            &&& g.min_players == manifest.min_players
            &&& g.max_players == manifest.max_players
            &&& g.installed_by == installed_by
            &&& g.installed_at == installed_at
            &&& g.manifest_url == manifest_url
        }),
{
    if !can_manage {
        return Err(GameRejection::Forbidden);
    }
    if is_blank(manifest.name.as_str()) {
        return Err(GameRejection::NameRequired);
    }
    if !entry_url_allowed(manifest.entry_url.as_str()) {
        return Err(GameRejection::BadEntryUrl);
    }
    let id = match manifest.id {
        Some(i) => if !is_blank(i.as_str()) {
            i
        } else {
            derive_id_from_entry_url(manifest.entry_url.as_str())
        },
        None => derive_id_from_entry_url(manifest.entry_url.as_str()),
    };
    let version = match manifest.version {
        Some(v) => if !is_blank(v.as_str()) {
            v
        } else {
            String::from_str("1.0.0")
        },
        None => String::from_str("1.0.0"),
    };
    Ok(InstalledGame {
        id,
        name: manifest.name,
        description: manifest.description,
        version,
        entry_url: manifest.entry_url,
        thumbnail_url: manifest.thumbnail_url,
        author: manifest.author,
        min_players: manifest.min_players,
        max_players: manifest.max_players,
        installed_by,
        installed_at,
        manifest_url,
    })
}

/// The outcome of an uninstall: the permission, and the game must have
/// existed.
pub fn uninstall_outcome(can_manage: bool, rows_affected: u64) -> (res: Result<(), GameRejection>)
    ensures
        res == if !can_manage {
            Err(GameRejection::Forbidden)
        } else if rows_affected == 0 {
            Err(GameRejection::NotFound)
        } else {
            Ok::<(), GameRejection>(())
        },
{
    if !can_manage {
        Err(GameRejection::Forbidden)
    } else if rows_affected == 0 {
        Err(GameRejection::NotFound)
    } else {
        Ok(())
    }
}

/// Installing the same entry URL again, without an explicit id, lands on
/// the same game: the derived id depends on the URL alone.
pub proof fn law_same_entry_url_same_game(m1: GameManifest, m2: GameManifest)
    requires
        m1.id is None,
        m2.id is None,
        m1.entry_url@ == m2.entry_url@,
    ensures
        manifest_id_spec(m1) == manifest_id_spec(m2),
{
}

/// A derived id is `game-` followed by 16 hex digits.
pub proof fn law_derived_id_shape(entry_url: Seq<char>)
    ensures
        derived_game_id(entry_url).len() == 21,
        derived_game_id(entry_url).subrange(0, 5) == "game-"@,
{
    reveal_strlit("game-");
    lemma_hex_encode_len(be64(fnv1a(encode_utf8(entry_url))));
    assert(derived_game_id(entry_url).subrange(0, 5) =~= "game-"@);
}

} // verus!
