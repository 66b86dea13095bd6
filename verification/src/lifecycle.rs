//! Lifecycle decisions: what a join or leave event leads to, given the
//! stored configuration and the resolved context snapshot. Each of the
//! join event's three sub-actions (channel message, direct message,
//! role grant) is decided independently: a failure in one neither
//! blocks nor is blocked by the others. A disabled or incompletely
//! configured section is skipped (fail closed); a malformed channel id
//! or an unrecognized message type is a validation failure local to
//! that sub-action.

use vstd::prelude::*;
use crate::context::{RenderContext, RenderContextView};
use crate::decimal::{parse_u64, spec_digits_val, spec_parses_u64};
use crate::embed::{Embed, EmbedView};
use crate::render::{render_embed, render_text, spec_render, spec_render_embed};
use crate::store::{StoreView, WelcomeQueries};
use crate::welcome::{
    WelcomeJoin, WelcomeJoinDm, WelcomeJoinDmView, WelcomeJoinRoles, WelcomeJoinRolesView,
    WelcomeJoinView, WelcomeLeave, WelcomeLeaveView,
};
use crate::text::str_eq;

verus! {

/// A failure local to one sub-action's configuration.
#[derive(Clone, Copy, PartialEq, Eq, Structural, Debug)]
pub enum ValidationError {
    MalformedChannelId,
    UnrecognizedMessageType,
}

/// A rendered message ready for delivery to a channel.
#[derive(Debug, PartialEq)]
pub enum PreparedMessage {
    Text { channel_id: u64, content: String },
    Embed { channel_id: u64, embed: Embed },
}

pub ghost enum PreparedMessageView {
    Text { channel_id: u64, content: Seq<char> },
    Embed { channel_id: u64, embed: EmbedView },
}

impl View for PreparedMessage {
    type V = PreparedMessageView;

    open spec fn view(&self) -> PreparedMessageView {
        match self {
            PreparedMessage::Text { channel_id, content } => PreparedMessageView::Text {
                channel_id: *channel_id,
                content: content@,
            },
            PreparedMessage::Embed { channel_id, embed } => PreparedMessageView::Embed {
                channel_id: *channel_id,
                embed: embed@,
            },
        }
    }
}

/// A rendered message ready for delivery to a freshly resolved
/// direct-message channel.
#[derive(Debug, PartialEq)]
pub enum PreparedDm {
    Text { content: String },
    Embed { embed: Embed },
}

pub ghost enum PreparedDmView {
    Text { content: Seq<char> },
    Embed { embed: EmbedView },
}

impl View for PreparedDm {
    type V = PreparedDmView;

    open spec fn view(&self) -> PreparedDmView {
        match self {
            PreparedDm::Text { content } => PreparedDmView::Text { content: content@ },
            PreparedDm::Embed { embed } => PreparedDmView::Embed { embed: embed@ },
        }
    }
}

/// The roles to assign to the joining member, with the stored
/// deferred-assignment flag.
#[derive(Debug, PartialEq)]
pub struct RoleGrant {
    pub roles: Vec<u64>,
    pub delay: bool,
}

pub open spec fn prepared_view(r: Result<Option<PreparedMessage>, ValidationError>) -> Result<
    Option<PreparedMessageView>,
    ValidationError,
> {
    match r {
        Ok(m) => Ok(
            match m {
                Some(m) => Some(m@),
                None => None,
            },
        ),
        Err(e) => Err(e),
    }
}

pub open spec fn prepared_dm_view(r: Result<Option<PreparedDm>, ValidationError>) -> Result<
    Option<PreparedDmView>,
    ValidationError,
> {
    match r {
        Ok(m) => Ok(
            match m {
                Some(m) => Some(m@),
                None => None,
            },
        ),
        Err(e) => Err(e),
    }
}

pub open spec fn view_opt_join(o: Option<&WelcomeJoin>) -> Option<WelcomeJoinView> {
    match o {
        Some(j) => Some(j@),
        None => None,
    }
}

pub open spec fn view_opt_join_dm(o: Option<&WelcomeJoinDm>) -> Option<WelcomeJoinDmView> {
    match o {
        Some(j) => Some(j@),
        None => None,
    }
}

pub open spec fn view_opt_leave(o: Option<&WelcomeLeave>) -> Option<WelcomeLeaveView> {
    match o {
        Some(j) => Some(j@),
        None => None,
    }
}

pub open spec fn spec_absent_chars(o: Option<Seq<char>>) -> bool {
    o is None || o == Some(Seq::<char>::empty())
}

/// The decision for the public join announcement: skipped when the
/// section is absent, disabled, or missing a required field; a
/// validation failure when the message type is unrecognized or the
/// channel id does not parse; otherwise the rendered message for the
/// configured channel.
pub open spec fn spec_prepare_join(j: Option<WelcomeJoinView>, ctx: RenderContextView) -> Result<
    Option<PreparedMessageView>,
    ValidationError,
> {
    match j {
        None => Ok(None),
        Some(j) => {
            if !j.enabled {
                Ok(None)
            } else if j.message_type == "text"@ {
                if spec_absent_chars(j.channel_id) {
                    Ok(None)
                } else if spec_absent_chars(j.content) {
                    Ok(None)
                } else if !spec_parses_u64(j.channel_id->0) {
                    Err(ValidationError::MalformedChannelId)
                } else {
                    Ok(
                        Some(
                            PreparedMessageView::Text {
                                channel_id: spec_digits_val(j.channel_id->0) as u64,
                                content: spec_render(j.content->0, ctx),
                            },
                        ),
                    )
                }
            } else if j.message_type == "embed"@ {
                if spec_absent_chars(j.channel_id) {
                    Ok(None)
                } else if j.embed is None {
                    Ok(None)
                } else if !spec_parses_u64(j.channel_id->0) {
                    Err(ValidationError::MalformedChannelId)
                } else {
                    Ok(
                        Some(
                            PreparedMessageView::Embed {
                                channel_id: spec_digits_val(j.channel_id->0) as u64,
                                embed: spec_render_embed(j.embed->0, ctx),
                            },
                        ),
                    )
                }
            } else {
                Err(ValidationError::UnrecognizedMessageType)
            }
        },
    }
}

/// Decides the public join announcement for a stored join row.
pub fn prepare_join_message(join: Option<&WelcomeJoin>, ctx: &RenderContext) -> (r: Result<
    Option<PreparedMessage>,
    ValidationError,
>)
    ensures
        prepared_view(r) == spec_prepare_join(view_opt_join(join), ctx@),
{
    let j = match join {
        Some(j) => j,
        None => {
            return Ok(None);
        },
    };
    if !j.enabled {
        return Ok(None);
    }
    let is_text = str_eq(j.message_type.as_str(), "text");
    let is_embed = str_eq(j.message_type.as_str(), "embed");
    if !is_text && !is_embed {
        return Err(ValidationError::UnrecognizedMessageType);
    }
    let ch = match &j.channel_id {
        Some(c) => c,
        None => {
            return Ok(None);
        },
    };
    if ch.as_str().is_empty() {
        proof {
            assert(ch@ =~= Seq::<char>::empty());
        }
        return Ok(None);
    }
    if is_text {
        let content = match &j.content {
            Some(c) => c,
            None => {
                return Ok(None);
            },
        };
        if content.as_str().is_empty() {
            proof {
                assert(content@ =~= Seq::<char>::empty());
            }
            return Ok(None);
        }
        match parse_u64(ch.as_str()) {
            Some(cid) => Ok(
                Some(
                    PreparedMessage::Text {
                        channel_id: cid,
                        content: render_text(content.as_str(), ctx),
                    },
                ),
            ),
            None => Err(ValidationError::MalformedChannelId),
        }
    } else {
        let emb = match &j.embed {
            Some(e) => e,
            None => {
                return Ok(None);
            },
        };
        match parse_u64(ch.as_str()) {
            Some(cid) => Ok(
                Some(
                    PreparedMessage::Embed { channel_id: cid, embed: render_embed(emb, ctx) },
                ),
            ),
            None => Err(ValidationError::MalformedChannelId),
        }
    }
}

/// The decision for the direct-message greeting: as for the public
/// announcement, but the delivery target is resolved by the caller,
/// so no channel id takes part.
pub open spec fn spec_prepare_join_dm(
    j: Option<WelcomeJoinDmView>,
    ctx: RenderContextView,
) -> Result<Option<PreparedDmView>, ValidationError> {
    match j {
        None => Ok(None),
        Some(j) => {
            if !j.enabled {
                Ok(None)
            } else if j.message_type == "text"@ {
                if spec_absent_chars(j.content) {
                    Ok(None)
                } else {
                    Ok(Some(PreparedDmView::Text { content: spec_render(j.content->0, ctx) }))
                }
            } else if j.message_type == "embed"@ {
                if j.embed is None {
                    Ok(None)
                } else {
                    Ok(Some(PreparedDmView::Embed { embed: spec_render_embed(j.embed->0, ctx) }))
                }
            } else {
                Err(ValidationError::UnrecognizedMessageType)
            }
        },
    }
}

/// Decides the direct-message greeting for a stored row.
pub fn prepare_join_dm_message(join_dm: Option<&WelcomeJoinDm>, ctx: &RenderContext) -> (r: Result<
    Option<PreparedDm>,
    ValidationError,
>)
    ensures
        prepared_dm_view(r) == spec_prepare_join_dm(view_opt_join_dm(join_dm), ctx@),
{
    let j = match join_dm {
        Some(j) => j,
        None => {
            return Ok(None);
        },
    };
    if !j.enabled {
        return Ok(None);
    }
    let is_text = str_eq(j.message_type.as_str(), "text");
    let is_embed = str_eq(j.message_type.as_str(), "embed");
    if !is_text && !is_embed {
        return Err(ValidationError::UnrecognizedMessageType);
    }
    if is_text {
        let content = match &j.content {
            Some(c) => c,
            None => {
                return Ok(None);
            },
        };
        if content.as_str().is_empty() {
            proof {
                assert(content@ =~= Seq::<char>::empty());
            }
            return Ok(None);
        }
        Ok(Some(PreparedDm::Text { content: render_text(content.as_str(), ctx) }))
    } else {
        let emb = match &j.embed {
            Some(e) => e,
            None => {
                return Ok(None);
            },
        };
        Ok(Some(PreparedDm::Embed { embed: render_embed(emb, ctx) }))
    }
}

/// The decision for the farewell message: leave supports text only.
pub open spec fn spec_prepare_leave(j: Option<WelcomeLeaveView>, ctx: RenderContextView) -> Result<
    Option<PreparedMessageView>,
    ValidationError,
> {
    match j {
        None => Ok(None),
        Some(j) => {
            if !j.enabled {
                Ok(None)
            } else if spec_absent_chars(j.channel_id) {
                Ok(None)
            } else if spec_absent_chars(j.content) {
                Ok(None)
            } else if !spec_parses_u64(j.channel_id->0) {
                Err(ValidationError::MalformedChannelId)
            } else {
                Ok(
                    Some(
                        PreparedMessageView::Text {
                            channel_id: spec_digits_val(j.channel_id->0) as u64,
                            content: spec_render(j.content->0, ctx),
                        },
                    ),
                )
            }
        },
    }
}

/// Decides the farewell message for a stored row.
pub fn prepare_leave_message(leave: Option<&WelcomeLeave>, ctx: &RenderContext) -> (r: Result<
    Option<PreparedMessage>,
    ValidationError,
>)
    ensures
        prepared_view(r) == spec_prepare_leave(view_opt_leave(leave), ctx@),
{
    let j = match leave {
        Some(j) => j,
        None => {
            return Ok(None);
        },
    };
    if !j.enabled {
        return Ok(None);
    }
    let ch = match &j.channel_id {
        Some(c) => c,
        None => {
            return Ok(None);
        },
    };
    if ch.as_str().is_empty() {
        proof {
            assert(ch@ =~= Seq::<char>::empty());
        }
        return Ok(None);
    }
    let content = match &j.content {
        Some(c) => c,
        None => {
            return Ok(None);
        },
    };
    if content.as_str().is_empty() {
        proof {
            assert(content@ =~= Seq::<char>::empty());
        }
        return Ok(None);
    }
    match parse_u64(ch.as_str()) {
        Some(cid) => Ok(
            Some(
                PreparedMessage::Text {
                    channel_id: cid,
                    content: render_text(content.as_str(), ctx),
                },
            ),
        ),
        None => Err(ValidationError::MalformedChannelId),
    }
}

/// The decision for the role grant: the stored role list, when the
/// section exists and is enabled.
pub open spec fn spec_plan_roles(o: Option<WelcomeJoinRolesView>) -> Option<(Seq<u64>, bool)> {
    match o {
        Some(r) => if r.enabled {
            Some((r.roles, r.delay))
        } else {
            None
        },
        None => None,
    }
}

pub open spec fn role_grant_view(o: Option<RoleGrant>) -> Option<(Seq<u64>, bool)> {
    match o {
        Some(g) => Some((g.roles@, g.delay)),
        None => None,
    }
}

pub open spec fn view_opt_roles(o: Option<&WelcomeJoinRoles>) -> Option<WelcomeJoinRolesView> {
    match o {
        Some(r) => Some(r@),
        None => None,
    }
}

/// Decides the role grant for a stored row.
pub fn plan_join_roles(roles: Option<&WelcomeJoinRoles>) -> (r: Option<RoleGrant>)
    ensures
        role_grant_view(r) == spec_plan_roles(view_opt_roles(roles)),
{
    match roles {
        Some(row) => {
            if row.enabled {
                let kept = row.clone();
                Some(RoleGrant { roles: kept.roles, delay: kept.delay })
            } else {
                None
            }
        },
        None => None,
    }
}

/// The join row the store holds for a tenant, if any.
pub open spec fn spec_store_join(s: StoreView, g: u64) -> Option<WelcomeJoinView> {
    if s.modules.contains_key(g) && s.join.contains_key(s.modules[g].id) {
        Some(s.join[s.modules[g].id])
    } else {
        None
    }
}

pub open spec fn spec_store_join_dm(s: StoreView, g: u64) -> Option<WelcomeJoinDmView> {
    if s.modules.contains_key(g) && s.join_dm.contains_key(s.modules[g].id) {
        Some(s.join_dm[s.modules[g].id])
    } else {
        None
    }
}

pub open spec fn spec_store_roles(s: StoreView, g: u64) -> Option<WelcomeJoinRolesView> {
    if s.modules.contains_key(g) && s.join_roles.contains_key(s.modules[g].id) {
        Some(s.join_roles[s.modules[g].id])
    } else {
        None
    }
}

pub open spec fn spec_store_leave(s: StoreView, g: u64) -> Option<WelcomeLeaveView> {
    if s.modules.contains_key(g) && s.leave.contains_key(s.modules[g].id) {
        Some(s.leave[s.modules[g].id])
    } else {
        None
    }
}

/// The three independently decided sub-actions of one join event.
#[derive(Debug, PartialEq)]
pub struct JoinPlan {
    pub channel_message: Result<Option<PreparedMessage>, ValidationError>,
    pub dm_message: Result<Option<PreparedDm>, ValidationError>,
    pub role_grant: Option<RoleGrant>,
}

/// Plans a join event: reads the three relevant sections and decides
/// each sub-action on its own. Each component of the plan depends only
/// on its own section and the context, so a failure in one cannot
/// affect the others.
pub fn plan_join_event(store: &WelcomeQueries, guild_id: u64, ctx: &RenderContext) -> (p: JoinPlan)
    requires
        store.wf(),
    ensures
        prepared_view(p.channel_message) == spec_prepare_join(spec_store_join(store@, guild_id), ctx@),
        prepared_dm_view(p.dm_message) == spec_prepare_join_dm(
            spec_store_join_dm(store@, guild_id),
            ctx@,
        ),
        role_grant_view(p.role_grant) == spec_plan_roles(spec_store_roles(store@, guild_id)),
{
    let join = store.module_join_fetch_by_guild_id(guild_id);
    let join_dm = store.module_join_dm_fetch_by_guild_id(guild_id);
    let roles = store.module_join_roles_fetch_by_guild_id(guild_id);
    JoinPlan {
        channel_message: prepare_join_message(join.as_ref(), ctx),
        dm_message: prepare_join_dm_message(join_dm.as_ref(), ctx),
        role_grant: plan_join_roles(roles.as_ref()),
    }
}

/// Plans a leave event: the one farewell sub-action.
pub fn plan_leave_event(store: &WelcomeQueries, guild_id: u64, ctx: &RenderContext) -> (r: Result<
    Option<PreparedMessage>,
    ValidationError,
>)
    requires
        store.wf(),
    ensures
        prepared_view(r) == spec_prepare_leave(spec_store_leave(store@, guild_id), ctx@),
{
    let leave = store.module_leave_fetch_by_guild_id(guild_id);
    prepare_leave_message(leave.as_ref(), ctx)
}

} // verus!
