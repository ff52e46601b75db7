//! The small enumerated values user records carry, each with its
//! numeric wire form.  Every enum keeps an `Unknown` variant so that
//! values the service adds later survive a decode.

use vstd::prelude::*;

verus! {

/// The level of moderator a user is.
#[derive(Debug, PartialEq, Eq, Structural, Hash, Copy, Clone)]
pub enum ModLevel {
    /// Not a moderator.
    NotModerator,
    /// A normal moderator.
    Normal,
    /// An elder moderator.
    Elder,
    /// A value this crate does not know; holds the wire value.
    Unknown(u8),
}

/// The moderator level a wire value denotes.
pub open spec fn mod_level_from_index_spec(v: u8) -> ModLevel {
    if v == 0 {
        ModLevel::NotModerator
    } else if v == 1 {
        ModLevel::Normal
    } else if v == 2 {
        ModLevel::Elder
    } else {
        ModLevel::Unknown(v)
    }
}

/// The wire value of a moderator level.
pub open spec fn mod_level_index_spec(m: ModLevel) -> u8 {
    match m {
        ModLevel::NotModerator => 0,
        ModLevel::Normal => 1,
        ModLevel::Elder => 2,
        ModLevel::Unknown(v) => v,
    }
}

impl ModLevel {
    /// Reads a moderator level from its wire value.
    pub fn from_index(v: u8) -> (r: ModLevel)
        ensures
            r == mod_level_from_index_spec(v),
    {
        if v == 0 {
            ModLevel::NotModerator
        } else if v == 1 {
            ModLevel::Normal
        } else if v == 2 {
            ModLevel::Elder
        } else {
            ModLevel::Unknown(v)
        }
    }

    /// The wire value of this moderator level.
    pub fn index(&self) -> (r: u8)
        ensures
            r == mod_level_index_spec(*self),
    {
        match self {
            ModLevel::NotModerator => 0,
            ModLevel::Normal => 1,
            ModLevel::Elder => 2,
            ModLevel::Unknown(v) => *v,
        }
    }
}

/// The type of icon shown beside a user's comments or search result.
#[derive(Debug, PartialEq, Eq, Structural, Hash, Copy, Clone)]
pub enum IconType {
    /// The cube icon.
    Cube,
    /// The ship icon.
    Ship,
    /// The ball icon.
    Ball,
    /// The UFO icon.
    Ufo,
    /// The wave icon.
    Wave,
    /// The robot icon.
    Robot,
    /// The spider icon.
    Spider,
    /// A value this crate does not know; holds the wire value.
    Unknown(u8),
}

/// The icon type a wire value denotes.
pub open spec fn icon_type_from_index_spec(v: u8) -> IconType {
    if v == 0 {
        IconType::Cube
    } else if v == 1 {
        IconType::Ship
    } else if v == 2 {
        IconType::Ball
    } else if v == 3 {
        IconType::Ufo
    } else if v == 4 {
        IconType::Wave
    } else if v == 5 {
        IconType::Robot
    } else if v == 6 {
        IconType::Spider
    } else {
        IconType::Unknown(v)
    }
}

/// The wire value of an icon type.
pub open spec fn icon_type_index_spec(t: IconType) -> u8 {
    match t {
        IconType::Cube => 0,
        IconType::Ship => 1,
        IconType::Ball => 2,
        IconType::Ufo => 3,
        IconType::Wave => 4,
        IconType::Robot => 5,
        IconType::Spider => 6,
        IconType::Unknown(v) => v,
    }
}

impl IconType {
    /// Reads an icon type from its wire value.
    pub fn from_index(v: u8) -> (r: IconType)
        ensures
            r == icon_type_from_index_spec(v),
    {
        if v == 0 {
            IconType::Cube
        } else if v == 1 {
            IconType::Ship
        } else if v == 2 {
            IconType::Ball
        } else if v == 3 {
            IconType::Ufo
        } else if v == 4 {
            IconType::Wave
        } else if v == 5 {
            IconType::Robot
        } else if v == 6 {
            IconType::Spider
        } else {
            IconType::Unknown(v)
        }
    }

    /// The wire value of this icon type.
    pub fn index(&self) -> (r: u8)
        ensures
            r == icon_type_index_spec(*self),
    {
        match self {
            IconType::Cube => 0,
            IconType::Ship => 1,
            IconType::Ball => 2,
            IconType::Ufo => 3,
            IconType::Wave => 4,
            IconType::Robot => 5,
            IconType::Spider => 6,
            IconType::Unknown(v) => *v,
        }
    }
}

/// Who may send a user in-game messages.
#[derive(Debug, PartialEq, Eq, Structural, Hash, Copy, Clone)]
pub enum MessageState {
    /// Anyone may message the user.
    Anyone,
    /// Only friends may message the user.
    FriendsOnly,
    /// Nobody may message the user.
    NoOne,
    /// A value this crate does not know; holds the wire value.
    Unknown(u8),
}

/// The message privacy a wire value denotes.
pub open spec fn message_state_from_index_spec(v: u8) -> MessageState {
    if v == 0 {
        MessageState::Anyone
    } else if v == 1 {
        MessageState::FriendsOnly
    } else if v == 2 {
        MessageState::NoOne
    } else {
        MessageState::Unknown(v)
    }
}

/// The wire value of a message privacy.
pub open spec fn message_state_index_spec(m: MessageState) -> u8 {
    match m {
        MessageState::Anyone => 0,
        MessageState::FriendsOnly => 1,
        MessageState::NoOne => 2,
        MessageState::Unknown(v) => v,
    }
}

impl MessageState {
    /// Reads a message privacy from its wire value.
    pub fn from_index(v: u8) -> (r: MessageState)
        ensures
            r == message_state_from_index_spec(v),
    {
        if v == 0 {
            MessageState::Anyone
        } else if v == 1 {
            MessageState::FriendsOnly
        } else if v == 2 {
            MessageState::NoOne
        } else {
            MessageState::Unknown(v)
        }
    }

    /// The wire value of this message privacy.
    pub fn index(&self) -> (r: u8)
        ensures
            r == message_state_index_spec(*self),
    {
        match self {
            MessageState::Anyone => 0,
            MessageState::FriendsOnly => 1,
            MessageState::NoOne => 2,
            MessageState::Unknown(v) => *v,
        }
    }
}

/// Who may send a user friend requests.
#[derive(Debug, PartialEq, Eq, Structural, Hash, Copy, Clone)]
pub enum FriendsState {
    /// Anyone may send a friend request.
    Anyone,
    /// Nobody may send a friend request.
    NoOne,
    /// A value this crate does not know; holds the wire value.
    Unknown(u8),
}

/// The friend-request privacy a wire value denotes.
pub open spec fn friends_state_from_index_spec(v: u8) -> FriendsState {
    if v == 0 {
        FriendsState::Anyone
    } else if v == 1 {
        FriendsState::NoOne
    } else {
        FriendsState::Unknown(v)
    }
}

/// The wire value of a friend-request privacy.
pub open spec fn friends_state_index_spec(f: FriendsState) -> u8 {
    match f {
        FriendsState::Anyone => 0,
        FriendsState::NoOne => 1,
        FriendsState::Unknown(v) => v,
    }
}

impl FriendsState {
    /// Reads a friend-request privacy from its wire value.
    pub fn from_index(v: u8) -> (r: FriendsState)
        ensures
            r == friends_state_from_index_spec(v),
    {
        if v == 0 {
            FriendsState::Anyone
        } else if v == 1 {
            FriendsState::NoOne
        } else {
            FriendsState::Unknown(v)
        }
    }

    /// The wire value of this friend-request privacy.
    pub fn index(&self) -> (r: u8)
        ensures
            r == friends_state_index_spec(*self),
    {
        match self {
            FriendsState::Anyone => 0,
            FriendsState::NoOne => 1,
            FriendsState::Unknown(v) => *v,
        }
    }
}

/// The standing of a friend request between the authenticated user
/// and a profile.
#[derive(Debug, PartialEq, Eq, Structural, Hash, Copy, Clone)]
pub enum FriendState {
    /// No request has been sent.
    NoRequest,
    /// The two are already friends.
    AlreadyFriends,
    /// A request to the profile awaits its answer.
    RequestPendingByProfile,
    /// A request from the profile awaits the user's answer.
    RequestPendingByUser,
    /// A value this crate does not know; holds the wire value.
    Unknown(u8),
}

/// The friend standing a wire value denotes.
pub open spec fn friend_state_from_index_spec(v: u8) -> FriendState {
    if v == 0 {
        FriendState::NoRequest
    } else if v == 1 {
        FriendState::AlreadyFriends
    } else if v == 3 {
        FriendState::RequestPendingByProfile
    } else if v == 4 {
        FriendState::RequestPendingByUser
    } else {
        FriendState::Unknown(v)
    }
}

/// The wire value of a friend standing.
pub open spec fn friend_state_index_spec(f: FriendState) -> u8 {
    match f {
        FriendState::NoRequest => 0,
        FriendState::AlreadyFriends => 1,
        FriendState::RequestPendingByProfile => 3,
        FriendState::RequestPendingByUser => 4,
        FriendState::Unknown(v) => v,
    }
}

impl FriendState {
    /// Reads a friend standing from its wire value.
    pub fn from_index(v: u8) -> (r: FriendState)
        ensures
            r == friend_state_from_index_spec(v),
    {
        if v == 0 {
            FriendState::NoRequest
        } else if v == 1 {
            FriendState::AlreadyFriends
        } else if v == 3 {
            FriendState::RequestPendingByProfile
        } else if v == 4 {
            FriendState::RequestPendingByUser
        } else {
            FriendState::Unknown(v)
        }
    }

    /// The wire value of this friend standing.
    pub fn index(&self) -> (r: u8)
        ensures
            r == friend_state_index_spec(*self),
    {
        match self {
            FriendState::NoRequest => 0,
            FriendState::AlreadyFriends => 1,
            FriendState::RequestPendingByProfile => 3,
            FriendState::RequestPendingByUser => 4,
            FriendState::Unknown(v) => *v,
        }
    }
}

/// Who may view a user's comment history.
#[derive(Debug, PartialEq, Eq, Structural, Hash, Copy, Clone)]
pub enum CommentHistoryState {
    /// Anyone may view the history.
    Anyone,
    /// Only friends may view the history.
    FriendsOnly,
    /// Nobody may view the history.
    NoOne,
    /// A value this crate does not know; holds the wire value.
    Unknown(u8),
}

/// The comment-history privacy a wire value denotes.
pub open spec fn comment_history_state_from_index_spec(v: u8) -> CommentHistoryState {
    if v == 0 {
        CommentHistoryState::Anyone
    } else if v == 1 {
        CommentHistoryState::FriendsOnly
    } else if v == 2 {
        CommentHistoryState::NoOne
    } else {
        CommentHistoryState::Unknown(v)
    }
}

/// The wire value of a comment-history privacy.
pub open spec fn comment_history_state_index_spec(c: CommentHistoryState) -> u8 {
    match c {
        CommentHistoryState::Anyone => 0,
        CommentHistoryState::FriendsOnly => 1,
        CommentHistoryState::NoOne => 2,
        CommentHistoryState::Unknown(v) => v,
    }
}

impl CommentHistoryState {
    /// Reads a comment-history privacy from its wire value.
    pub fn from_index(v: u8) -> (r: CommentHistoryState)
        ensures
            r == comment_history_state_from_index_spec(v),
    {
        if v == 0 {
            CommentHistoryState::Anyone
        } else if v == 1 {
            CommentHistoryState::FriendsOnly
        } else if v == 2 {
            CommentHistoryState::NoOne
        } else {
            CommentHistoryState::Unknown(v)
        }
    }

    /// The wire value of this comment-history privacy.
    pub fn index(&self) -> (r: u8)
        ensures
            r == comment_history_state_index_spec(*self),
    {
        match self {
            CommentHistoryState::Anyone => 0,
            CommentHistoryState::FriendsOnly => 1,
            CommentHistoryState::NoOne => 2,
            CommentHistoryState::Unknown(v) => *v,
        }
    }
}

} // verus!
