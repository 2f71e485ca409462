//! Friendships. A same-hub request waits for the other user to accept it;
//! a cross-hub one (with a hub URL) is accepted at once. Either side sees
//! an accepted friendship, and either side can end it.

use vstd::prelude::*;

use crate::text::str_eq;

verus! {

/// Friend request: whom to befriend and, for a cross-hub friend, where
/// they are reachable and the name to remember them by.
#[derive(Clone, Debug)]
pub struct FriendRequest {
    pub target_public_key: String,
    pub hub_url: Option<String>,
    pub display_name: Option<String>,
}

/// A friend or a pending request as listed to a user.
#[derive(Clone, Debug)]
pub struct FriendInfo {
    pub public_key: String,
    pub display_name: Option<String>,
    /// `None` for a same-hub friend.
    pub hub_url: Option<String>,
    pub since: i64,
}

/// The state of a stored friendship.
#[derive(Clone, Copy, Debug, PartialEq, Eq, Structural)]
pub enum FriendStatus {
    Pending,
    Accepted,
}

impl FriendStatus {
    /// The stored text of the state.
    pub open spec fn as_str_spec(self) -> Seq<char> {
        match self {
            FriendStatus::Pending => "pending"@,
            FriendStatus::Accepted => "accepted"@,
        }
    }

    /// The stored text of the state.
    pub fn as_str(&self) -> (res: &'static str)
        ensures
            res@ == self.as_str_spec(),
    {
        proof {
            reveal_strlit("pending");
            reveal_strlit("accepted");
        }
        match self {
            FriendStatus::Pending => "pending",
            FriendStatus::Accepted => "accepted",
        }
    }
}

/// Why a friend request was refused.
#[derive(Clone, Copy, Debug, PartialEq, Eq, Structural)]
pub enum FriendRejection {
    /// A user cannot befriend themselves.
    SelfFriend,
    /// No pending request from that user.
    NoPendingRequest,
}

impl FriendRejection {
    /// The HTTP status of the rejection.
    pub fn status(&self) -> (res: u16)
        ensures
            res == match self {
                FriendRejection::SelfFriend => 400u16,
                FriendRejection::NoPendingRequest => 404u16,
            },
    {
        match self {
            FriendRejection::SelfFriend => 400,
            FriendRejection::NoPendingRequest => 404,
        }
    }
}

/// The state a new friend request is stored in, or why it is refused.
pub fn plan_friend_request(user: &str, req: &FriendRequest) -> (res: Result<FriendStatus, FriendRejection>)
    ensures
        res == if req.target_public_key@ == user@ {
            Err(FriendRejection::SelfFriend)
        } else if req.hub_url is Some {
            Ok(FriendStatus::Accepted)
        } else {
            Ok(FriendStatus::Pending)
        },
{
    if str_eq(req.target_public_key.as_str(), user) {
        Err(FriendRejection::SelfFriend)
    } else if req.hub_url.is_some() {
        Ok(FriendStatus::Accepted)
    } else {
        Ok(FriendStatus::Pending)
    }
}

/// Accepting succeeds when a pending request was updated.
pub fn accept_outcome(rows_affected: u64) -> (res: Result<(), FriendRejection>)
    ensures
        res == if rows_affected == 0 { Err(FriendRejection::NoPendingRequest) } else { Ok::<(), FriendRejection>(()) },
{
    if rows_affected == 0 {
        Err(FriendRejection::NoPendingRequest)
    } else {
        Ok(())
    }
}

/// A stored friendship: `user_a` asked `user_b`; the hub URL and name are
/// what `user_a` gave for `user_b`.
#[derive(Clone, Debug)]
pub struct FriendshipRow {
    pub user_a: String,
    pub user_b: String,
    pub status: FriendStatus,
    pub hub_url: Option<String>,
    pub display_name: Option<String>,
    pub created_at: i64,
}

/// Whether a row links the two users, in either direction. Removing a
/// friend deletes exactly these rows.
pub open spec fn links_spec(row: FriendshipRow, a: Seq<char>, b: Seq<char>) -> bool {
    (row.user_a@ == a && row.user_b@ == b) || (row.user_a@ == b && row.user_b@ == a)
}

/// Whether a row links the two users, in either direction.
pub fn links(row: &FriendshipRow, a: &str, b: &str) -> (res: bool)
    ensures
        res == links_spec(*row, a@, b@),
{
    (str_eq(row.user_a.as_str(), a) && str_eq(row.user_b.as_str(), b))
        || (str_eq(row.user_a.as_str(), b) && str_eq(row.user_b.as_str(), a))
}

/// A friend as seen from one side, before the name is resolved: the other
/// user's key, and the hub URL and name cached on the asking side's row.
#[derive(Clone, Debug)]
pub struct FriendEntry {
    pub friend_key: String,
    pub hub_url: Option<String>,
    pub cached_name: Option<String>,
    pub since: i64,
}

/// The friend a row shows to `me`, when it is an accepted friendship of
/// theirs. The cached hub and name belong to the side that asked.
pub open spec fn friend_entry_spec(row: FriendshipRow, me: Seq<char>) -> Option<FriendEntry> {
    if row.status == FriendStatus::Accepted && (row.user_a@ == me || row.user_b@ == me) {
        if row.user_a@ == me {
            Some(FriendEntry { friend_key: row.user_b, hub_url: row.hub_url, cached_name: row.display_name, since: row.created_at })
        } else {
            Some(FriendEntry { friend_key: row.user_a, hub_url: None, cached_name: None, since: row.created_at })
        }
    } else {
        None
    }
}

/// The friends of `me` among the rows, in row order.
pub open spec fn friend_entries_spec(rows: Seq<FriendshipRow>, me: Seq<char>) -> Seq<FriendEntry>
    decreases rows.len(),
{
    if rows.len() == 0 {
        Seq::empty()
    } else {
        let rest = friend_entries_spec(rows.drop_last(), me);
        match friend_entry_spec(rows.last(), me) {
            Some(e) => rest.push(e),
            None => rest,
        }
    }
}

fn friend_entry(row: &FriendshipRow, me: &str) -> (res: Option<FriendEntry>)
    ensures
        res == friend_entry_spec(*row, me@),
{
    let mine_a = str_eq(row.user_a.as_str(), me);
    let mine_b = str_eq(row.user_b.as_str(), me);
    if row.status == FriendStatus::Accepted && (mine_a || mine_b) {
        if mine_a {
            Some(FriendEntry {
                friend_key: row.user_b.clone(),
                hub_url: row.hub_url.clone(),
                cached_name: row.display_name.clone(),
                since: row.created_at,
            })
        } else {
            Some(FriendEntry { friend_key: row.user_a.clone(), hub_url: None, cached_name: None, since: row.created_at })
        }
    } else {
        None
    }
}

/// The friends of `me` among the stored rows.
pub fn friend_entries(rows: &Vec<FriendshipRow>, me: &str) -> (res: Vec<FriendEntry>)
    ensures
        res@ == friend_entries_spec(rows@, me@),
{
    let mut out: Vec<FriendEntry> = Vec::new();
    let mut i: usize = 0;
    while i < rows.len()
        invariant
            0 <= i <= rows@.len(),
            out@ == friend_entries_spec(rows@.take(i as int), me@),
        decreases rows@.len() - i,
    {
        proof {
            assert(rows@.take(i as int + 1).drop_last() =~= rows@.take(i as int));
            assert(rows@.take(i as int + 1).last() == rows@[i as int]);
        }
        match friend_entry(&rows[i], me) {
            Some(e) => out.push(e),
            None => {},
        }
        i = i + 1;
    }
    proof {
        assert(rows@.take(rows@.len() as int) =~= rows@);
    }
    out
}

/// The requests waiting for `me` to accept, in row order: pending rows
/// addressed to them, shown by the asking user's key.
pub open spec fn pending_entries_spec(rows: Seq<FriendshipRow>, me: Seq<char>) -> Seq<FriendEntry>
    decreases rows.len(),
{
    if rows.len() == 0 {
        Seq::empty()
    } else {
        let rest = pending_entries_spec(rows.drop_last(), me);
        let r = rows.last();
        if r.status == FriendStatus::Pending && r.user_b@ == me {
            rest.push(FriendEntry { friend_key: r.user_a, hub_url: None, cached_name: None, since: r.created_at })
        } else {
            rest
        }
    }
}

/// The requests waiting for `me` to accept.
pub fn pending_entries(rows: &Vec<FriendshipRow>, me: &str) -> (res: Vec<FriendEntry>)
    ensures
        res@ == pending_entries_spec(rows@, me@),
{
    let mut out: Vec<FriendEntry> = Vec::new();
    let mut i: usize = 0;
    while i < rows.len()
        invariant
            0 <= i <= rows@.len(),
            out@ == pending_entries_spec(rows@.take(i as int), me@),
        decreases rows@.len() - i,
    {
        proof {
            assert(rows@.take(i as int + 1).drop_last() =~= rows@.take(i as int));
            assert(rows@.take(i as int + 1).last() == rows@[i as int]);
        }
        let r = &rows[i];
        if r.status == FriendStatus::Pending && str_eq(r.user_b.as_str(), me) {
            out.push(FriendEntry { friend_key: r.user_a.clone(), hub_url: None, cached_name: None, since: r.created_at });
        }
        i = i + 1;
    }
    proof {
        assert(rows@.take(rows@.len() as int) =~= rows@);
    }
    out
}

/// Whether a cached name is used as it is: present and not empty.
/// Otherwise the name comes from the local users table.
pub fn cached_name_usable(cached: &Option<String>) -> (res: bool)
    ensures
        res == (cached matches Some(n) && n@.len() > 0),
{
    match cached {
        Some(n) => !n.as_str().is_empty(),
        None => false,
    }
}

/// The listed friend: the cached name when usable, else `local_name`.
pub fn friend_info(entry: FriendEntry, local_name: Option<String>) -> (res: FriendInfo)
    ensures
        res.public_key == entry.friend_key,
        res.hub_url == entry.hub_url,
        res.since == entry.since,
        res.display_name == if entry.cached_name matches Some(n) && n@.len() > 0 {
            entry.cached_name
        } else {
            local_name
        },
{
    let usable = cached_name_usable(&entry.cached_name);
    let display_name = if usable { entry.cached_name } else { local_name };
    FriendInfo { public_key: entry.friend_key, display_name, hub_url: entry.hub_url, since: entry.since }
}

/// Friendship is seen from both sides: an accepted row shows each of its
/// two users the other one.
pub proof fn law_accepted_friendship_is_mutual(row: FriendshipRow)
    requires
        row.status == FriendStatus::Accepted,
    ensures
        friend_entry_spec(row, row.user_a@) matches Some(e) && e.friend_key@ == row.user_b@,
        friend_entry_spec(row, row.user_b@) matches Some(e) && e.friend_key@ == row.user_a@,
{
}

/// A pending request shows up for its addressee only, and as no friend to
/// either side until it is accepted.
pub proof fn law_pending_is_not_friendship(row: FriendshipRow, me: Seq<char>)
    requires
        row.status == FriendStatus::Pending,
    ensures
        friend_entry_spec(row, me) is None,
        pending_entries_spec(seq![row], me).len() == (if row.user_b@ == me { 1int } else { 0int }),
{
    assert(seq![row].drop_last() =~= Seq::<FriendshipRow>::empty());
    assert(seq![row].last() == row);
    assert(pending_entries_spec(Seq::<FriendshipRow>::empty(), me).len() == 0);
}

/// Removing a friend works from either side: the same rows go.
pub proof fn law_removal_is_symmetric(row: FriendshipRow, a: Seq<char>, b: Seq<char>)
    ensures
        links_spec(row, a, b) == links_spec(row, b, a),
{
}

} // verus!
