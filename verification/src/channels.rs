//! Channel rules: categories nest channels, a channel's parent must be a
//! category other than itself, and a category is deleted only when empty.

use vstd::prelude::*;

use crate::text::{contains, occurs_at, str_eq};

verus! {

/// Create-channel request.
#[derive(Clone, Debug)]
pub struct CreateChannelRequest {
    pub name: String,
    pub parent_id: Option<String>,
    pub is_category: bool,
    pub description: Option<String>,
}

/// A channel as the hub lists it.
#[derive(Clone, Debug)]
pub struct ChannelResponse {
    pub id: String,
    pub name: String,
    pub created_by: String,
    pub parent_id: Option<String>,
    pub is_category: bool,
    pub display_order: i64,
    pub description: Option<String>,
    pub created_at: i64,
}

/// Update-channel request. `parent_id` is tri-state: absent leaves the
/// parent alone, `Some(Some(id))` sets it, `Some(None)` moves the channel
/// to the top level.
#[derive(Clone, Debug)]
pub struct UpdateChannelRequest {
    pub description: Option<String>,
    pub parent_id: Option<Option<String>>,
}

impl Default for UpdateChannelRequest {
    /// An update that changes nothing.
    fn default() -> (res: Self)
        ensures
            res.description is None,
            res.parent_id is None,
    {
        UpdateChannelRequest { description: None, parent_id: None }
    }
}

/// Reorder request: channel ids in their new order.
#[derive(Clone, Debug)]
pub struct ReorderRequest {
    pub channel_ids: Vec<String>,
}

/// Why a channel request was refused.
#[derive(Clone, Copy, Debug, PartialEq, Eq, Structural)]
pub enum ChannelRejection {
    /// The user lacks the manage-channels permission.
    Forbidden,
    /// No such channel.
    NotFound,
    /// The named parent does not exist.
    ParentNotFound,
    /// The named parent is not a category.
    ParentNotCategory,
    /// A channel named as its own parent.
    SelfParent,
    /// A category that still has channels.
    HasChildren,
    /// Another channel has the name.
    NameTaken,
}

impl ChannelRejection {
    /// The HTTP status of the rejection.
    pub open spec fn status_spec(self) -> u16 {
        match self {
            ChannelRejection::Forbidden => 403,
            ChannelRejection::NotFound | ChannelRejection::ParentNotFound => 404,
            ChannelRejection::ParentNotCategory | ChannelRejection::SelfParent => 400,
            ChannelRejection::HasChildren | ChannelRejection::NameTaken => 409,
        }
    }

    /// The HTTP status of the rejection.
    pub fn status(&self) -> (res: u16)
        ensures
            res == self.status_spec(),
    {
        match self {
            ChannelRejection::Forbidden => 403,
            ChannelRejection::NotFound | ChannelRejection::ParentNotFound => 404,
            ChannelRejection::ParentNotCategory | ChannelRejection::SelfParent => 400,
            ChannelRejection::HasChildren | ChannelRejection::NameTaken => 409,
        }
    }
}

/// A parent must exist and be a category. `parent_is_category` is the
/// stored flag of the parent row, `None` when there is no such row.
pub open spec fn parent_check_spec(parent_is_category: Option<i64>) -> Result<(), ChannelRejection> {
    match parent_is_category {
        None => Err(ChannelRejection::ParentNotFound),
        Some(flag) => if flag == 0 { Err(ChannelRejection::ParentNotCategory) } else { Ok(()) },
    }
}

fn check_parent(parent_is_category: Option<i64>) -> (res: Result<(), ChannelRejection>)
    ensures
        res == parent_check_spec(parent_is_category),
{
    match parent_is_category {
        None => Err(ChannelRejection::ParentNotFound),
        Some(flag) => if flag == 0 {
            Err(ChannelRejection::ParentNotCategory)
        } else {
            Ok(())
        },
    }
}

/// The rules for creating a channel: the manage-channels permission, and
/// a valid parent when one is named. `parent_is_category` is the lookup of
/// the named parent (ignored without one).
pub fn check_create_channel(can_manage: bool, has_parent: bool, parent_is_category: Option<i64>) -> (res: Result<(), ChannelRejection>)
    ensures
        res == if !can_manage {
            Err(ChannelRejection::Forbidden)
        } else if has_parent {
            parent_check_spec(parent_is_category)
        } else {
            Ok(())
        },
{
    if !can_manage {
        return Err(ChannelRejection::Forbidden);
    }
    if has_parent {
        check_parent(parent_is_category)
    } else {
        Ok(())
    }
}

/// The stored changes of a channel update: the new parent (when the
/// request names one) and the new description (when the request has one).
#[derive(Clone, Debug)]
pub struct ChannelUpdate {
    pub parent: Option<Option<String>>,
    pub description: Option<String>,
}

/// The outcome of a channel update: the permission, the channel's
/// existence, and for a new parent that it is not the channel itself and
/// is a category; otherwise the parent and description as requested.
pub open spec fn channel_update_spec(
    can_manage: bool,
    channel_exists: bool,
    channel_id: Seq<char>,
    req: UpdateChannelRequest,
    parent_is_category: Option<i64>,
) -> Result<ChannelUpdate, ChannelRejection> {
    if !can_manage {
        Err(ChannelRejection::Forbidden)
    } else if !channel_exists {
        Err(ChannelRejection::NotFound)
    } else {
        let update = ChannelUpdate { parent: req.parent_id, description: req.description };
        match req.parent_id {
            Some(Some(p)) => if p@ == channel_id {
                Err(ChannelRejection::SelfParent)
            } else {
                match parent_check_spec(parent_is_category) {
                    Err(e) => Err(e),
                    Ok(_) => Ok(update),
                }
            },
            _ => Ok(update),
        }
    }
}

/// Plans a channel update. `parent_is_category` is the lookup of the
/// requested parent.
pub fn plan_channel_update(
    can_manage: bool,
    channel_exists: bool,
    channel_id: &str,
    req: UpdateChannelRequest,
    parent_is_category: Option<i64>,
) -> (res: Result<ChannelUpdate, ChannelRejection>)
    ensures
        res == channel_update_spec(can_manage, channel_exists, channel_id@, req, parent_is_category),
{
    if !can_manage {
        return Err(ChannelRejection::Forbidden);
    }
    if !channel_exists {
        return Err(ChannelRejection::NotFound);
    }
    match &req.parent_id {
        Some(Some(p)) => {
            if str_eq(p.as_str(), channel_id) {
                return Err(ChannelRejection::SelfParent);
            }
            match check_parent(parent_is_category) {
                Err(e) => return Err(e),
                Ok(()) => {},
            }
        },
        _ => {},
    }
    Ok(ChannelUpdate { parent: req.parent_id, description: req.description })
}

/// A reorder: only with the manage-channels permission; each listed
/// channel's display position is its index in the list.
pub fn reorder_positions(can_manage: bool, channel_ids: &Vec<String>) -> (res: Result<Vec<(String, i64)>, ChannelRejection>)
    requires
        channel_ids@.len() <= i64::MAX,
    ensures
        !can_manage ==> res == Err::<Vec<(String, i64)>, ChannelRejection>(ChannelRejection::Forbidden),
        can_manage ==> (res matches Ok(v) && v@.len() == channel_ids@.len()
            && forall|i: int| 0 <= i < v@.len() ==> (#[trigger] v@[i]).0 == channel_ids@[i] && v@[i].1 == i),
{
    if !can_manage {
        return Err(ChannelRejection::Forbidden);
    }
    let mut out: Vec<(String, i64)> = Vec::new();
    let mut i: usize = 0;
    while i < channel_ids.len()
        invariant
            0 <= i <= channel_ids@.len(),
            channel_ids@.len() <= i64::MAX,
            out@.len() == i,
            forall|j: int| 0 <= j < i ==> (#[trigger] out@[j]).0 == channel_ids@[j] && out@[j].1 == j,
        decreases channel_ids@.len() - i,
    {
        out.push((channel_ids[i].clone(), i as i64));
        i = i + 1;
    }
    Ok(out)
}

/// A new channel goes after all others: one past the largest display
/// position, or first when there is no channel.
pub fn next_display_order(current_max: Option<i64>) -> (res: i64)
    requires
        current_max matches Some(m) ==> m < i64::MAX,
    ensures
        res == match current_max {
            Some(m) => m + 1,
            None => 0,
        },
{
    match current_max {
        Some(m) => m + 1,
        None => 0,
    }
}

/// A channel as listed, from its stored row; the stored category flag
/// reads as set when it is not 0.
pub fn channel_response(
    id: String,
    name: String,
    created_by: String,
    parent_id: Option<String>,
    is_category_flag: i64,
    display_order: i64,
    description: Option<String>,
    created_at: i64,
) -> (res: ChannelResponse)
    ensures
        res.id == id,
        res.name == name,
        res.created_by == created_by,
        res.parent_id == parent_id,
        res.is_category == (is_category_flag != 0),
        res.display_order == display_order,
        res.description == description,
        res.created_at == created_at,
{
    ChannelResponse {
        id,
        name,
        created_by,
        parent_id,
        is_category: is_category_flag != 0,
        display_order,
        description,
        created_at,
    }
}

/// The rules for deleting a channel: the permission, its existence, and
/// that no channel has it as parent.
pub fn check_channel_delete(can_manage: bool, channel_exists: bool, child_count: i64) -> (res: Result<(), ChannelRejection>)
    ensures
        res == if !can_manage {
            Err(ChannelRejection::Forbidden)
        } else if !channel_exists {
            Err(ChannelRejection::NotFound)
        } else if child_count > 0 {
            Err(ChannelRejection::HasChildren)
        } else {
            Ok(())
        },
{
    if !can_manage {
        Err(ChannelRejection::Forbidden)
    } else if !channel_exists {
        Err(ChannelRejection::NotFound)
    } else if child_count > 0 {
        Err(ChannelRejection::HasChildren)
    } else {
        Ok(())
    }
}

/// Whether a database error reports a uniqueness violation (its text
/// contains `UNIQUE`), which the hub answers as a name conflict.
pub fn is_unique_violation(error_text: &str) -> (res: bool)
    ensures
        res == (exists|i: int| occurs_at(error_text@, "UNIQUE"@, i)),
{
    contains(error_text, "UNIQUE")
}

/// A channel never becomes its own parent, and a channel only moves
/// under an existing category.
pub proof fn law_channel_parent_rules(
    can_manage: bool,
    channel_exists: bool,
    channel_id: Seq<char>,
    req: UpdateChannelRequest,
    parent_is_category: Option<i64>,
    parent: String,
)
    requires
        req.parent_id == Some(Some(parent)),
        channel_update_spec(can_manage, channel_exists, channel_id, req, parent_is_category) is Ok,
    ensures
        parent@ != channel_id,
        parent_is_category matches Some(flag) && flag != 0,
{
}

} // verus!
