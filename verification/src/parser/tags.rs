//! The names of the protocol tags, in the order the service emits them.
use vstd::prelude::*;

verus! {

pub const BADGE_INFO: &'static str = "badge-info";

pub const BADGES: &'static str = "badges";

pub const BADGE_FORMAT: &'static str = "badge-format";

pub const BITS: &'static str = "bits";

pub const COLOR: &'static str = "color";

pub const REPLY_PARENT_DISPLAY_NAME: &'static str = "reply-parent-display-name";

pub const REPLY_PARENT_MSG_BODY: &'static str = "reply-parent-msg-body";

pub const REPLY_PARENT_MSG_ID: &'static str = "reply-parent-msg-id";

pub const REPLY_PARENT_USER_ID: &'static str = "reply-parent-user-id";

pub const REPLY_PARENT_USER_LOGIN: &'static str = "reply-parent-user-login";

pub const ID: &'static str = "id";

pub const EMOTES: &'static str = "emotes";

pub const EMOTE: &'static str = "emote";

pub const EMOTE_INDEXES: &'static str = "emote-indexes";

pub const FIRST_MSG: &'static str = "first-msg";

pub const TURBO: &'static str = "turbo";

pub const SUBSCRIBER: &'static str = "subscriber";

pub const MODERATOR: &'static str = "mod";

pub const RETURNING_CHATTER: &'static str = "returning-chatter";

pub const FLAGS: &'static str = "flags";

pub const USER_TYPE: &'static str = "user-type";

pub const CLIENT_NONCE: &'static str = "client-nonce";

pub const EMOTE_ONLY: &'static str = "emote-only";

pub const DISPLAY_NAME: &'static str = "display-name";

pub const ROOM_ID: &'static str = "room-id";

pub const USER_ID: &'static str = "user-id";

} // verus!
