//! Reaction-role messages: which role a reaction maps to, and whether
//! the message is still unposted. The emoji-to-role map is a list of
//! pairs whose keys are meant to be unique; lookup takes the first
//! match.

use vstd::prelude::*;
use crate::embed::Embed;

verus! {

/// The error a reaction lookup can produce.
#[derive(Clone, Copy, PartialEq, Eq, Structural, Debug)]
pub enum ReactionError {
    InvalidEmojiReaction,
    UnmappedEmoji,
}

/// A stored reaction-role message: its delivery coordinates, body,
/// and the emoji-to-role map.
#[derive(Debug, PartialEq)]
pub struct ReactionRolesMsg {
    pub message_id: Option<u64>,
    pub channel_id: u64,
    pub guild_id: u64,
    pub content: String,
    pub embeds: Vec<Embed>,
    pub role_map: Vec<(u64, u64)>,
}

/// The role the first pair with the given emoji key maps to.
pub open spec fn spec_role_for(map: Seq<(u64, u64)>, emoji: u64) -> Option<u64>
    decreases map.len(),
{
    if map.len() == 0 {
        None
    } else if map[0].0 == emoji {
        Some(map[0].1)
    } else {
        spec_role_for(map.drop_first(), emoji)
    }
}

impl ReactionRolesMsg {
    /// The emoji keys of the map are unique.
    pub open spec fn wf(&self) -> bool {
        forall|i: int, j: int|
            0 <= i < j < self.role_map@.len() ==> (#[trigger] self.role_map@[i]).0 != (
            #[trigger] self.role_map@[j]).0
    }

    /// The role a reaction grants or revokes: a custom emoji maps
    /// through the stored pairs; a plain unicode reaction, carried as
    /// no emoji id, is not a role reaction, and an unmapped custom
    /// emoji names no role.
    pub fn role_for_reaction(&self, emoji: Option<u64>) -> (r: Result<u64, ReactionError>)
        ensures
            emoji is None ==> r == Err::<u64, ReactionError>(ReactionError::InvalidEmojiReaction),
            emoji matches Some(e) ==> r == (match spec_role_for(self.role_map@, e) {
                Some(role) => Ok::<u64, ReactionError>(role),
                None => Err::<u64, ReactionError>(ReactionError::UnmappedEmoji),
            }),
    {
        match emoji {
            None => Err(ReactionError::InvalidEmojiReaction),
            Some(e) => {
                let mut i: usize = 0;
                proof {
                    assert(self.role_map@.skip(0) =~= self.role_map@);
                }
                while i < self.role_map.len()
                    invariant
                        emoji == Some(e),
                        i <= self.role_map.len(),
                        spec_role_for(self.role_map@, e) == spec_role_for(
                            self.role_map@.skip(i as int),
                            e,
                        ),
                    decreases self.role_map.len() - i,
                {
                    let pair = self.role_map[i];
                    proof {
                        assert(self.role_map@.skip(i as int)[0] == self.role_map@[i as int]);
                        assert(self.role_map@.skip(i as int).drop_first()
                            =~= self.role_map@.skip(i as int + 1));
                    }
                    if pair.0 == e {
                        return Ok(pair.1);
                    }
                    i += 1;
                }
                proof {
                    assert(self.role_map@.skip(self.role_map@.len() as int) =~= Seq::<
                        (u64, u64),
                    >::empty());
                }
                Err(ReactionError::UnmappedEmoji)
            },
        }
    }

    /// Whether the message may still be posted: it has no message id.
    pub fn can_post(&self) -> (b: bool)
        ensures
            b == (self.message_id is None),
    {
        self.message_id.is_none()
    }

    /// Records the id the delivery service assigned on posting.
    pub fn mark_posted(&mut self, message_id: u64)
        ensures
            final(self).message_id == Some(message_id),
            final(self).channel_id == old(self).channel_id,
            final(self).guild_id == old(self).guild_id,
            final(self).content == old(self).content,
            final(self).embeds == old(self).embeds,
            final(self).role_map == old(self).role_map,
    {
        self.message_id = Some(message_id);
    }
}

} // verus!
