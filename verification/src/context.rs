//! The context snapshot: a read-only bundle of live entity data (server,
//! user, channel) that the template renderer consumes. Absent optional
//! values render as the empty string.

use vstd::prelude::*;
use crate::text::opt_str_view;

verus! {

/// Live data of the server (guild) the event belongs to.
#[derive(Debug, PartialEq)]
pub struct ServerSnapshot {
    pub id: u64,
    pub name: String,
    pub icon: Option<String>,
    pub joined_at: Option<String>,
    pub member_count: Option<u64>,
    pub owner: Option<String>,
    pub owner_id: u64,
    pub region: String,
    pub verification_level: u64,
}

pub ghost struct ServerSnapshotView {
    pub id: u64,
    pub name: Seq<char>,
    pub icon: Option<Seq<char>>,
    pub joined_at: Option<Seq<char>>,
    pub member_count: Option<u64>,
    pub owner: Option<Seq<char>>,
    pub owner_id: u64,
    pub region: Seq<char>,
    pub verification_level: u64,
}

impl View for ServerSnapshot {
    type V = ServerSnapshotView;

    open spec fn view(&self) -> ServerSnapshotView {
        ServerSnapshotView {
            id: self.id,
            name: self.name@,
            icon: opt_str_view(self.icon),
            joined_at: opt_str_view(self.joined_at),
            member_count: self.member_count,
            owner: opt_str_view(self.owner),
            owner_id: self.owner_id,
            region: self.region@,
            verification_level: self.verification_level,
        }
    }
}

/// Live data of the user the event concerns.
#[derive(Debug, PartialEq)]
pub struct UserSnapshot {
    pub id: u64,
    pub name: String,
    pub avatar: Option<String>,
    pub bot: bool,
    pub discriminator: String,
}

pub ghost struct UserSnapshotView {
    pub id: u64,
    pub name: Seq<char>,
    pub avatar: Option<Seq<char>>,
    pub bot: bool,
    pub discriminator: Seq<char>,
}

impl View for UserSnapshot {
    type V = UserSnapshotView;

    open spec fn view(&self) -> UserSnapshotView {
        UserSnapshotView {
            id: self.id,
            name: self.name@,
            avatar: opt_str_view(self.avatar),
            bot: self.bot,
            discriminator: self.discriminator@,
        }
    }
}

/// Live data of the channel the event concerns, when one is resolved.
#[derive(Debug, PartialEq)]
pub struct ChannelSnapshot {
    pub id: u64,
    pub name: String,
    pub kind: String,
}

pub ghost struct ChannelSnapshotView {
    pub id: u64,
    pub name: Seq<char>,
    pub kind: Seq<char>,
}

impl View for ChannelSnapshot {
    type V = ChannelSnapshotView;

    open spec fn view(&self) -> ChannelSnapshotView {
        ChannelSnapshotView { id: self.id, name: self.name@, kind: self.kind@ }
    }
}

/// The full snapshot handed to a render call.
#[derive(Debug, PartialEq)]
pub struct RenderContext {
    pub server: ServerSnapshot,
    pub user: UserSnapshot,
    pub channel: Option<ChannelSnapshot>,
}

pub ghost struct RenderContextView {
    pub server: ServerSnapshotView,
    pub user: UserSnapshotView,
    pub channel: Option<ChannelSnapshotView>,
}

impl View for RenderContext {
    type V = RenderContextView;

    open spec fn view(&self) -> RenderContextView {
        RenderContextView {
            server: self.server@,
            user: self.user@,
            channel: match self.channel {
                Some(c) => Some(c@),
                None => None,
            },
        }
    }
}

} // verus!
