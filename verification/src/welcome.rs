//! The five-table layered welcome record: the root module, the four
//! optional sub-configuration rows, the flat read row, the expanded
//! read view, and the partial-update request types with their merge
//! and default-fill rules.

use vstd::prelude::*;
use crate::embed::{clone_opt_embed, opt_embed_view, Embed, EmbedView};
use crate::text::{clone_opt_string, opt_str_view};

verus! {

/// A present patch field overwrites; an absent one keeps the old value.
pub open spec fn spec_patched<T>(patch: Option<T>, existing: Option<T>) -> Option<T> {
    match patch {
        Some(v) => Some(v),
        None => existing,
    }
}

// ---------------------------------------------------------------------
// Root module
// ---------------------------------------------------------------------

/// The root record of one tenant (guild); exists once any operation
/// has touched the tenant.
#[derive(Debug, PartialEq)]
pub struct WelcomeModule {
    pub id: i64,
    pub guild_id: String,
    pub enabled: bool,
}

pub ghost struct WelcomeModuleView {
    pub id: i64,
    pub guild_id: Seq<char>,
    pub enabled: bool,
}

impl View for WelcomeModule {
    type V = WelcomeModuleView;

    open spec fn view(&self) -> WelcomeModuleView {
        WelcomeModuleView { id: self.id, guild_id: self.guild_id@, enabled: self.enabled }
    }
}

impl Clone for WelcomeModule {
    fn clone(&self) -> (r: Self)
        ensures
            r@ == self@,
    {
        WelcomeModule { id: self.id, guild_id: self.guild_id.clone(), enabled: self.enabled }
    }
}

/// The values a fresh root row is created from.
#[derive(Debug, PartialEq)]
pub struct WelcomeModuleInsert {
    pub guild_id: u64,
    pub enabled: bool,
}

// ---------------------------------------------------------------------
// Stored sub-configuration rows, keyed by the owning module's id
// ---------------------------------------------------------------------

/// The stored public join announcement row.
#[derive(Debug, PartialEq)]
pub struct WelcomeJoin {
    pub id: i64,
    pub enabled: bool,
    pub message_type: String,
    pub channel_id: Option<String>,
    pub content: Option<String>,
    pub embed: Option<Embed>,
}

pub ghost struct WelcomeJoinView {
    pub id: i64,
    pub enabled: bool,
    pub message_type: Seq<char>,
    pub channel_id: Option<Seq<char>>,
    pub content: Option<Seq<char>>,
    pub embed: Option<EmbedView>,
}

impl View for WelcomeJoin {
    type V = WelcomeJoinView;

    open spec fn view(&self) -> WelcomeJoinView {
        WelcomeJoinView {
            id: self.id,
            enabled: self.enabled,
            message_type: self.message_type@,
            channel_id: opt_str_view(self.channel_id),
            content: opt_str_view(self.content),
            embed: opt_embed_view(self.embed),
        }
    }
}

impl Clone for WelcomeJoin {
    fn clone(&self) -> (r: Self)
        ensures
            r@ == self@,
    {
        WelcomeJoin {
            id: self.id,
            enabled: self.enabled,
            message_type: self.message_type.clone(),
            channel_id: clone_opt_string(&self.channel_id),
            content: clone_opt_string(&self.content),
            embed: clone_opt_embed(&self.embed),
        }
    }
}

/// The stored direct-message join row; its delivery target is always a
/// freshly resolved direct-message channel, so it has no channel id.
#[derive(Debug, PartialEq)]
pub struct WelcomeJoinDm {
    pub id: i64,
    pub enabled: bool,
    pub message_type: String,
    pub content: Option<String>,
    pub embed: Option<Embed>,
}

pub ghost struct WelcomeJoinDmView {
    pub id: i64,
    pub enabled: bool,
    pub message_type: Seq<char>,
    pub content: Option<Seq<char>>,
    pub embed: Option<EmbedView>,
}

impl View for WelcomeJoinDm {
    type V = WelcomeJoinDmView;

    open spec fn view(&self) -> WelcomeJoinDmView {
        WelcomeJoinDmView {
            id: self.id,
            enabled: self.enabled,
            message_type: self.message_type@,
            content: opt_str_view(self.content),
            embed: opt_embed_view(self.embed),
        }
    }
}

impl Clone for WelcomeJoinDm {
    fn clone(&self) -> (r: Self)
        ensures
            r@ == self@,
    {
        WelcomeJoinDm {
            id: self.id,
            enabled: self.enabled,
            message_type: self.message_type.clone(),
            content: clone_opt_string(&self.content),
            embed: clone_opt_embed(&self.embed),
        }
    }
}

/// The stored role-assignment row. The role list and the deferred
/// flag are stored data that the update request does not carry; they
/// keep their values across upserts.
#[derive(Debug, PartialEq)]
pub struct WelcomeJoinRoles {
    pub id: i64,
    pub enabled: bool,
    pub roles: Vec<u64>,
    pub delay: bool,
}

pub ghost struct WelcomeJoinRolesView {
    pub id: i64,
    pub enabled: bool,
    pub roles: Seq<u64>,
    pub delay: bool,
}

impl View for WelcomeJoinRoles {
    type V = WelcomeJoinRolesView;

    open spec fn view(&self) -> WelcomeJoinRolesView {
        WelcomeJoinRolesView {
            id: self.id,
            enabled: self.enabled,
            roles: self.roles@,
            delay: self.delay,
        }
    }
}

impl Clone for WelcomeJoinRoles {
    fn clone(&self) -> (r: Self)
        ensures
            r@ == self@,
    {
        let mut roles: Vec<u64> = Vec::new();
        let mut i: usize = 0;
        while i < self.roles.len()
            invariant
                i <= self.roles.len(),
                roles@ == self.roles@.subrange(0, i as int),
            decreases self.roles.len() - i,
        {
            roles.push(self.roles[i]);
            proof {
                assert(roles@ =~= self.roles@.subrange(0, i as int + 1));
            }
            i += 1;
        }
        proof {
            assert(self.roles@.subrange(0, self.roles@.len() as int) =~= self.roles@);
        }
        WelcomeJoinRoles { id: self.id, enabled: self.enabled, roles, delay: self.delay }
    }
}

/// The stored farewell row; leave supports text only, no embed.
#[derive(Debug, PartialEq)]
pub struct WelcomeLeave {
    pub id: i64,
    pub enabled: bool,
    pub channel_id: Option<String>,
    pub content: Option<String>,
}

pub ghost struct WelcomeLeaveView {
    pub id: i64,
    pub enabled: bool,
    pub channel_id: Option<Seq<char>>,
    pub content: Option<Seq<char>>,
}

impl View for WelcomeLeave {
    type V = WelcomeLeaveView;

    open spec fn view(&self) -> WelcomeLeaveView {
        WelcomeLeaveView {
            id: self.id,
            enabled: self.enabled,
            channel_id: opt_str_view(self.channel_id),
            content: opt_str_view(self.content),
        }
    }
}

impl Clone for WelcomeLeave {
    fn clone(&self) -> (r: Self)
        ensures
            r@ == self@,
    {
        WelcomeLeave {
            id: self.id,
            enabled: self.enabled,
            channel_id: clone_opt_string(&self.channel_id),
            content: clone_opt_string(&self.content),
        }
    }
}

// ---------------------------------------------------------------------
// Expanded view sections: each field optional, presence mirroring the
// stored row
// ---------------------------------------------------------------------

/// The root section of an update, and the carrier of the root row's
/// one settable column.
#[derive(Debug, PartialEq)]
pub struct WelcomeContent {
    pub enabled: Option<bool>,
}

/// The join section of the expanded view.
#[derive(Debug, PartialEq)]
pub struct WelcomeJoinContent {
    pub enabled: Option<bool>,
    pub message_type: Option<String>,
    pub channel_id: Option<String>,
    pub content: Option<String>,
    pub embed: Option<Embed>,
}

pub ghost struct WelcomeJoinContentView {
    pub enabled: Option<bool>,
    pub message_type: Option<Seq<char>>,
    pub channel_id: Option<Seq<char>>,
    pub content: Option<Seq<char>>,
    pub embed: Option<EmbedView>,
}

impl View for WelcomeJoinContent {
    type V = WelcomeJoinContentView;

    open spec fn view(&self) -> WelcomeJoinContentView {
        WelcomeJoinContentView {
            enabled: self.enabled,
            message_type: opt_str_view(self.message_type),
            channel_id: opt_str_view(self.channel_id),
            content: opt_str_view(self.content),
            embed: opt_embed_view(self.embed),
        }
    }
}

impl Default for WelcomeJoinContent {
    fn default() -> (r: Self)
        ensures
            r@ == (WelcomeJoinContentView {
                enabled: None,
                message_type: None,
                channel_id: None,
                content: None,
                embed: None,
            }),
    {
        WelcomeJoinContent {
            enabled: None,
            message_type: None,
            channel_id: None,
            content: None,
            embed: None,
        }
    }
}

/// The direct-message join section of the expanded view.
#[derive(Debug, PartialEq)]
pub struct WelcomeJoinDmContent {
    pub enabled: Option<bool>,
    pub message_type: Option<String>,
    pub content: Option<String>,
    pub embed: Option<Embed>,
}

pub ghost struct WelcomeJoinDmContentView {
    pub enabled: Option<bool>,
    pub message_type: Option<Seq<char>>,
    pub content: Option<Seq<char>>,
    pub embed: Option<EmbedView>,
}

impl View for WelcomeJoinDmContent {
    type V = WelcomeJoinDmContentView;

    open spec fn view(&self) -> WelcomeJoinDmContentView {
        WelcomeJoinDmContentView {
            enabled: self.enabled,
            message_type: opt_str_view(self.message_type),
            content: opt_str_view(self.content),
            embed: opt_embed_view(self.embed),
        }
    }
}

impl Default for WelcomeJoinDmContent {
    fn default() -> (r: Self)
        ensures
            r@ == (WelcomeJoinDmContentView {
                enabled: None,
                message_type: None,
                content: None,
                embed: None,
            }),
    {
        WelcomeJoinDmContent { enabled: None, message_type: None, content: None, embed: None }
    }
}

/// The role-assignment section of the expanded view.
#[derive(Debug, PartialEq)]
pub struct WelcomeJoinRolesContent {
    pub enabled: Option<bool>,
}

impl Default for WelcomeJoinRolesContent {
    fn default() -> (r: Self)
        ensures
            r.enabled is None,
    {
        WelcomeJoinRolesContent { enabled: None }
    }
}

/// The farewell section of the expanded view.
#[derive(Debug, PartialEq)]
pub struct WelcomeLeaveContent {
    pub enabled: Option<bool>,
}

impl Default for WelcomeLeaveContent {
    fn default() -> (r: Self)
        ensures
            r.enabled is None,
    {
        WelcomeLeaveContent { enabled: None }
    }
}

// ---------------------------------------------------------------------
// Expanded record and flat read row
// ---------------------------------------------------------------------

/// The fully expanded record of one tenant: the root joined with
/// whichever sub-configurations exist.
#[derive(Debug, PartialEq)]
pub struct WelcomeExpanded {
    pub id: i64,
    pub guild_id: String,
    pub enabled: bool,
    pub join: Option<WelcomeJoinContent>,
    pub join_dm: Option<WelcomeJoinDmContent>,
    pub join_roles: Option<WelcomeJoinRolesContent>,
    pub leave: Option<WelcomeLeaveContent>,
}

pub ghost struct WelcomeExpandedView {
    pub id: i64,
    pub guild_id: Seq<char>,
    pub enabled: bool,
    pub join: Option<WelcomeJoinContentView>,
    pub join_dm: Option<WelcomeJoinDmContentView>,
    pub join_roles: Option<Option<bool>>,
    pub leave: Option<Option<bool>>,
}

pub open spec fn opt_join_content_view(o: Option<WelcomeJoinContent>) -> Option<
    WelcomeJoinContentView,
> {
    match o {
        Some(c) => Some(c@),
        None => None,
    }
}

pub open spec fn opt_join_dm_content_view(o: Option<WelcomeJoinDmContent>) -> Option<
    WelcomeJoinDmContentView,
> {
    match o {
        Some(c) => Some(c@),
        None => None,
    }
}

pub open spec fn opt_roles_content_view(o: Option<WelcomeJoinRolesContent>) -> Option<
    Option<bool>,
> {
    match o {
        Some(c) => Some(c.enabled),
        None => None,
    }
}

pub open spec fn opt_leave_content_view(o: Option<WelcomeLeaveContent>) -> Option<Option<bool>> {
    match o {
        Some(c) => Some(c.enabled),
        None => None,
    }
}

impl View for WelcomeExpanded {
    type V = WelcomeExpandedView;

    open spec fn view(&self) -> WelcomeExpandedView {
        WelcomeExpandedView {
            id: self.id,
            guild_id: self.guild_id@,
            enabled: self.enabled,
            join: opt_join_content_view(self.join),
            join_dm: opt_join_dm_content_view(self.join_dm),
            join_roles: opt_roles_content_view(self.join_roles),
            leave: opt_leave_content_view(self.leave),
        }
    }
}

impl WelcomeExpanded {
    /// The expanded form of a bare root module: no sub-configurations.
    pub fn from_module(m: WelcomeModule) -> (r: Self)
        ensures
            r@ == (WelcomeExpandedView {
                id: m@.id,
                guild_id: m@.guild_id,
                enabled: m@.enabled,
                join: None,
                join_dm: None,
                join_roles: None,
                leave: None,
            }),
    {
        WelcomeExpanded {
            id: m.id,
            guild_id: m.guild_id,
            enabled: m.enabled,
            join: None,
            join_dm: None,
            join_roles: None,
            leave: None,
        }
    }
}

/// The flat row a joined read of the five tables produces: the root
/// columns, then each sub-table's columns, absent when the sub-row is.
#[derive(Debug, PartialEq)]
pub struct WelcomeExpandedRow {
    pub id: i64,
    pub guild_id: String,
    pub enabled: bool,
    pub join_enabled: Option<bool>,
    pub join_message_type: Option<String>,
    pub join_channel_id: Option<String>,
    pub join_content: Option<String>,
    pub join_embed: Option<Embed>,
    pub join_dm_enabled: Option<bool>,
    pub join_dm_message_type: Option<String>,
    pub join_dm_content: Option<String>,
    pub join_dm_embed: Option<Embed>,
    pub join_roles_enabled: Option<bool>,
    pub leave_enabled: Option<bool>,
}

impl From<WelcomeExpandedRow> for WelcomeExpanded {
    /// Folds the flat row back into the nested expanded record: a
    /// sub-section is present exactly when its enabled column is.
    fn from(w: WelcomeExpandedRow) -> (r: Self) {
        let mut val = WelcomeExpanded {
            id: w.id,
            guild_id: w.guild_id,
            enabled: w.enabled,
            join: None,
            join_dm: None,
            join_roles: None,
            leave: None,
        };
        if w.join_enabled.is_some() {
            val.join = Some(
                WelcomeJoinContent {
                    enabled: w.join_enabled,
                    message_type: w.join_message_type,
                    channel_id: w.join_channel_id,
                    content: w.join_content,
                    embed: w.join_embed,
                },
            );
        }
        if w.join_dm_enabled.is_some() {
            val.join_dm = Some(
                WelcomeJoinDmContent {
                    enabled: w.join_dm_enabled,
                    message_type: w.join_dm_message_type,
                    content: w.join_dm_content,
                    embed: w.join_dm_embed,
                },
            );
        }
        if w.join_roles_enabled.is_some() {
            val.join_roles = Some(WelcomeJoinRolesContent { enabled: w.join_roles_enabled });
        }
        if w.leave_enabled.is_some() {
            val.leave = Some(WelcomeLeaveContent { enabled: w.leave_enabled });
        }
        val
    }
}

impl vstd::std_specs::convert::FromSpecImpl<WelcomeExpandedRow> for WelcomeExpanded {
    open spec fn obeys_from_spec() -> bool {
        true
    }

    open spec fn from_spec(w: WelcomeExpandedRow) -> Self {
        WelcomeExpanded {
            id: w.id,
            guild_id: w.guild_id,
            enabled: w.enabled,
            join: if w.join_enabled is Some {
                Some(
                    WelcomeJoinContent {
                        enabled: w.join_enabled,
                        message_type: w.join_message_type,
                        channel_id: w.join_channel_id,
                        content: w.join_content,
                        embed: w.join_embed,
                    },
                )
            } else {
                None
            },
            join_dm: if w.join_dm_enabled is Some {
                Some(
                    WelcomeJoinDmContent {
                        enabled: w.join_dm_enabled,
                        message_type: w.join_dm_message_type,
                        content: w.join_dm_content,
                        embed: w.join_dm_embed,
                    },
                )
            } else {
                None
            },
            join_roles: if w.join_roles_enabled is Some {
                Some(WelcomeJoinRolesContent { enabled: w.join_roles_enabled })
            } else {
                None
            },
            leave: if w.leave_enabled is Some {
                Some(WelcomeLeaveContent { enabled: w.leave_enabled })
            } else {
                None
            },
        }
    }
}

// ---------------------------------------------------------------------
// Partial-update request types
// ---------------------------------------------------------------------

/// One partial-update request: up to five optional sections, each field
/// itself optional.
#[derive(Debug, PartialEq)]
pub struct WelcomeRequestData {
    pub enabled: Option<bool>,
    pub join: Option<WelcomeJoinRequestData>,
    pub join_dm: Option<WelcomeJoinDmRequestData>,
    pub join_roles: Option<WelcomeJoinRoleRequestData>,
    pub leave: Option<WelcomeLeaveRequestData>,
}

#[derive(Debug, PartialEq)]
pub struct WelcomeJoinRequestData {
    pub enabled: Option<bool>,
    pub message_type: Option<String>,
    pub channel_id: Option<String>,
    pub content: Option<String>,
    pub embed: Option<Embed>,
}

pub ghost struct WelcomeJoinRequestDataView {
    pub enabled: Option<bool>,
    pub message_type: Option<Seq<char>>,
    pub channel_id: Option<Seq<char>>,
    pub content: Option<Seq<char>>,
    pub embed: Option<EmbedView>,
}

impl View for WelcomeJoinRequestData {
    type V = WelcomeJoinRequestDataView;

    open spec fn view(&self) -> WelcomeJoinRequestDataView {
        WelcomeJoinRequestDataView {
            enabled: self.enabled,
            message_type: opt_str_view(self.message_type),
            channel_id: opt_str_view(self.channel_id),
            content: opt_str_view(self.content),
            embed: opt_embed_view(self.embed),
        }
    }
}

#[derive(Debug, PartialEq)]
pub struct WelcomeJoinDmRequestData {
    pub enabled: Option<bool>,
    pub message_type: Option<String>,
    pub content: Option<String>,
    pub embed: Option<Embed>,
}

pub ghost struct WelcomeJoinDmRequestDataView {
    pub enabled: Option<bool>,
    pub message_type: Option<Seq<char>>,
    pub content: Option<Seq<char>>,
    pub embed: Option<EmbedView>,
}

impl View for WelcomeJoinDmRequestData {
    type V = WelcomeJoinDmRequestDataView;

    open spec fn view(&self) -> WelcomeJoinDmRequestDataView {
        WelcomeJoinDmRequestDataView {
            enabled: self.enabled,
            message_type: opt_str_view(self.message_type),
            content: opt_str_view(self.content),
            embed: opt_embed_view(self.embed),
        }
    }
}

pub ghost struct WelcomeRequestDataView {
    pub enabled: Option<bool>,
    pub join: Option<WelcomeJoinRequestDataView>,
    pub join_dm: Option<WelcomeJoinDmRequestDataView>,
    pub join_roles: Option<Option<bool>>,
    pub leave: Option<Option<bool>>,
}

impl View for WelcomeRequestData {
    type V = WelcomeRequestDataView;

    open spec fn view(&self) -> WelcomeRequestDataView {
        WelcomeRequestDataView {
            enabled: self.enabled,
            join: match self.join {
                Some(p) => Some(p@),
                None => None,
            },
            join_dm: match self.join_dm {
                Some(p) => Some(p@),
                None => None,
            },
            join_roles: match self.join_roles {
                Some(p) => Some(p.enabled),
                None => None,
            },
            leave: match self.leave {
                Some(p) => Some(p.enabled),
                None => None,
            },
        }
    }
}

#[derive(Debug, PartialEq)]
pub struct WelcomeJoinRoleRequestData {
    pub enabled: Option<bool>,
}

#[derive(Debug, PartialEq)]
pub struct WelcomeLeaveRequestData {
    pub enabled: Option<bool>,
}

// ---------------------------------------------------------------------
// Merge and default-fill rules
// ---------------------------------------------------------------------

/// The merge of a join patch over the existing section contents: a
/// present patch field overwrites, an absent one keeps the old value,
/// and a never-configured section starts from the default-disabled one.
pub open spec fn spec_merge_join(
    existing: Option<WelcomeJoinContentView>,
    patch: WelcomeJoinRequestDataView,
) -> WelcomeJoinContentView {
    WelcomeJoinContentView {
        enabled: spec_patched(
            patch.enabled,
            match existing {
                Some(c) => c.enabled,
                None => None,
            },
        ),
        message_type: spec_patched(
            patch.message_type,
            match existing {
                Some(c) => c.message_type,
                None => None,
            },
        ),
        channel_id: spec_patched(
            patch.channel_id,
            match existing {
                Some(c) => c.channel_id,
                None => None,
            },
        ),
        content: spec_patched(
            patch.content,
            match existing {
                Some(c) => c.content,
                None => None,
            },
        ),
        embed: spec_patched(
            patch.embed,
            match existing {
                Some(c) => c.embed,
                None => None,
            },
        ),
    }
}

pub open spec fn view_opt_join_content(o: Option<&WelcomeJoinContent>) -> Option<
    WelcomeJoinContentView,
> {
    match o {
        Some(c) => Some(c@),
        None => None,
    }
}

/// Merges one join patch over the existing join section, if any.
pub fn merge_join(existing: Option<&WelcomeJoinContent>, patch: &WelcomeJoinRequestData) -> (r:
    WelcomeJoinContent)
    ensures
        r@ == spec_merge_join(view_opt_join_content(existing), patch@),
{
    WelcomeJoinContent {
        enabled: match patch.enabled {
            Some(b) => Some(b),
            None => match existing {
                Some(c) => c.enabled,
                None => None,
            },
        },
        message_type: match &patch.message_type {
            Some(s) => Some(s.clone()),
            None => match existing {
                Some(c) => clone_opt_string(&c.message_type),
                None => None,
            },
        },
        channel_id: match &patch.channel_id {
            Some(s) => Some(s.clone()),
            None => match existing {
                Some(c) => clone_opt_string(&c.channel_id),
                None => None,
            },
        },
        content: match &patch.content {
            Some(s) => Some(s.clone()),
            None => match existing {
                Some(c) => clone_opt_string(&c.content),
                None => None,
            },
        },
        embed: match &patch.embed {
            Some(e) => Some(e.clone()),
            None => match existing {
                Some(c) => clone_opt_embed(&c.embed),
                None => None,
            },
        },
    }
}

/// The merge of a direct-message join patch, as for the join section.
pub open spec fn spec_merge_join_dm(
    existing: Option<WelcomeJoinDmContentView>,
    patch: WelcomeJoinDmRequestDataView,
) -> WelcomeJoinDmContentView {
    WelcomeJoinDmContentView {
        enabled: spec_patched(
            patch.enabled,
            match existing {
                Some(c) => c.enabled,
                None => None,
            },
        ),
        message_type: spec_patched(
            patch.message_type,
            match existing {
                Some(c) => c.message_type,
                None => None,
            },
        ),
        content: spec_patched(
            patch.content,
            match existing {
                Some(c) => c.content,
                None => None,
            },
        ),
        embed: spec_patched(
            patch.embed,
            match existing {
                Some(c) => c.embed,
                None => None,
            },
        ),
    }
}

pub open spec fn view_opt_join_dm_content(o: Option<&WelcomeJoinDmContent>) -> Option<
    WelcomeJoinDmContentView,
> {
    match o {
        Some(c) => Some(c@),
        None => None,
    }
}

/// Merges one direct-message join patch over the existing section.
pub fn merge_join_dm(
    existing: Option<&WelcomeJoinDmContent>,
    patch: &WelcomeJoinDmRequestData,
) -> (r: WelcomeJoinDmContent)
    ensures
        r@ == spec_merge_join_dm(view_opt_join_dm_content(existing), patch@),
{
    WelcomeJoinDmContent {
        enabled: match patch.enabled {
            Some(b) => Some(b),
            None => match existing {
                Some(c) => c.enabled,
                None => None,
            },
        },
        message_type: match &patch.message_type {
            Some(s) => Some(s.clone()),
            None => match existing {
                Some(c) => clone_opt_string(&c.message_type),
                None => None,
            },
        },
        content: match &patch.content {
            Some(s) => Some(s.clone()),
            None => match existing {
                Some(c) => clone_opt_string(&c.content),
                None => None,
            },
        },
        embed: match &patch.embed {
            Some(e) => Some(e.clone()),
            None => match existing {
                Some(c) => clone_opt_embed(&c.embed),
                None => None,
            },
        },
    }
}

/// The merge of a role-assignment patch: only the enabled flag is
/// settable through an update request.
pub open spec fn spec_merge_join_roles(
    existing: Option<Option<bool>>,
    patch_enabled: Option<bool>,
) -> Option<bool> {
    spec_patched(
        patch_enabled,
        match existing {
            Some(e) => e,
            None => None,
        },
    )
}

/// Merges one role-assignment patch over the existing section.
pub fn merge_join_roles(
    existing: Option<&WelcomeJoinRolesContent>,
    patch: &WelcomeJoinRoleRequestData,
) -> (r: WelcomeJoinRolesContent)
    ensures
        r.enabled == spec_merge_join_roles(
            match existing {
                Some(c) => Some(c.enabled),
                None => None,
            },
            patch.enabled,
        ),
{
    WelcomeJoinRolesContent {
        enabled: match patch.enabled {
            Some(b) => Some(b),
            None => match existing {
                Some(c) => c.enabled,
                None => None,
            },
        },
    }
}

/// The merge of a farewell patch: only the enabled flag is settable
/// through an update request.
pub open spec fn spec_merge_leave(
    existing: Option<Option<bool>>,
    patch_enabled: Option<bool>,
) -> Option<bool> {
    spec_patched(
        patch_enabled,
        match existing {
            Some(e) => e,
            None => None,
        },
    )
}

/// Merges one farewell patch over the existing section.
pub fn merge_leave(
    existing: Option<&WelcomeLeaveContent>,
    patch: &WelcomeLeaveRequestData,
) -> (r: WelcomeLeaveContent)
    ensures
        r.enabled == spec_merge_leave(
            match existing {
                Some(c) => Some(c.enabled),
                None => None,
            },
            patch.enabled,
        ),
{
    WelcomeLeaveContent {
        enabled: match patch.enabled {
            Some(b) => Some(b),
            None => match existing {
                Some(c) => c.enabled,
                None => None,
            },
        },
    }
}

/// The default fill a join upsert applies: an unset enabled flag
/// stores as `false`, an unset message type as `text`; the remaining
/// fields store as given.
pub open spec fn spec_fill_join(id: i64, c: WelcomeJoinContentView) -> WelcomeJoinView {
    WelcomeJoinView {
        id,
        enabled: match c.enabled {
            Some(b) => b,
            None => false,
        },
        message_type: match c.message_type {
            Some(s) => s,
            None => "text"@,
        },
        channel_id: c.channel_id,
        content: c.content,
        embed: c.embed,
    }
}

/// The stored row a join upsert writes for section contents `c`.
pub fn fill_join(id: i64, c: &WelcomeJoinContent) -> (r: WelcomeJoin)
    ensures
        r@ == spec_fill_join(id, c@),
{
    WelcomeJoin {
        id,
        enabled: match c.enabled {
            Some(b) => b,
            None => false,
        },
        message_type: match &c.message_type {
            Some(s) => s.clone(),
            None => String::from_str("text"),
        },
        channel_id: clone_opt_string(&c.channel_id),
        content: clone_opt_string(&c.content),
        embed: clone_opt_embed(&c.embed),
    }
}

/// The section contents a stored join row reads back as.
pub open spec fn spec_join_content_of(r: WelcomeJoinView) -> WelcomeJoinContentView {
    WelcomeJoinContentView {
        enabled: Some(r.enabled),
        message_type: Some(r.message_type),
        channel_id: r.channel_id,
        content: r.content,
        embed: r.embed,
    }
}

/// Reads a stored join row back as section contents.
pub fn join_content_of(r: &WelcomeJoin) -> (c: WelcomeJoinContent)
    ensures
        c@ == spec_join_content_of(r@),
{
    WelcomeJoinContent {
        enabled: Some(r.enabled),
        message_type: Some(r.message_type.clone()),
        channel_id: clone_opt_string(&r.channel_id),
        content: clone_opt_string(&r.content),
        embed: clone_opt_embed(&r.embed),
    }
}

/// The default fill a direct-message join upsert applies.
pub open spec fn spec_fill_join_dm(id: i64, c: WelcomeJoinDmContentView) -> WelcomeJoinDmView {
    WelcomeJoinDmView {
        id,
        enabled: match c.enabled {
            Some(b) => b,
            None => false,
        },
        message_type: match c.message_type {
            Some(s) => s,
            None => "text"@,
        },
        content: c.content,
        embed: c.embed,
    }
}

/// The stored row a direct-message join upsert writes.
pub fn fill_join_dm(id: i64, c: &WelcomeJoinDmContent) -> (r: WelcomeJoinDm)
    ensures
        r@ == spec_fill_join_dm(id, c@),
{
    WelcomeJoinDm {
        id,
        enabled: match c.enabled {
            Some(b) => b,
            None => false,
        },
        message_type: match &c.message_type {
            Some(s) => s.clone(),
            None => String::from_str("text"),
        },
        content: clone_opt_string(&c.content),
        embed: clone_opt_embed(&c.embed),
    }
}

/// The section contents a stored direct-message row reads back as.
pub open spec fn spec_join_dm_content_of(r: WelcomeJoinDmView) -> WelcomeJoinDmContentView {
    WelcomeJoinDmContentView {
        enabled: Some(r.enabled),
        message_type: Some(r.message_type),
        content: r.content,
        embed: r.embed,
    }
}

/// Reads a stored direct-message join row back as section contents.
pub fn join_dm_content_of(r: &WelcomeJoinDm) -> (c: WelcomeJoinDmContent)
    ensures
        c@ == spec_join_dm_content_of(r@),
{
    WelcomeJoinDmContent {
        enabled: Some(r.enabled),
        message_type: Some(r.message_type.clone()),
        content: clone_opt_string(&r.content),
        embed: clone_opt_embed(&r.embed),
    }
}

// ---------------------------------------------------------------------
// Merge-then-fill is idempotent: the foundation of upsert idempotence
// ---------------------------------------------------------------------

/// Writing the same join patch twice stores the same row as writing
/// it once.
pub proof fn lemma_merge_fill_join_idempotent(
    existing: Option<WelcomeJoinContentView>,
    patch: WelcomeJoinRequestDataView,
    id: i64,
)
    ensures
        spec_fill_join(
            id,
            spec_merge_join(
                Some(spec_join_content_of(spec_fill_join(id, spec_merge_join(existing, patch)))),
                patch,
            ),
        ) == spec_fill_join(id, spec_merge_join(existing, patch)),
{
}

/// Writing the same direct-message patch twice stores the same row as
/// writing it once.
pub proof fn lemma_merge_fill_join_dm_idempotent(
    existing: Option<WelcomeJoinDmContentView>,
    patch: WelcomeJoinDmRequestDataView,
    id: i64,
)
    ensures
        spec_fill_join_dm(
            id,
            spec_merge_join_dm(
                Some(
                    spec_join_dm_content_of(
                        spec_fill_join_dm(id, spec_merge_join_dm(existing, patch)),
                    ),
                ),
                patch,
            ),
        ) == spec_fill_join_dm(id, spec_merge_join_dm(existing, patch)),
{
}


} // verus!
