//! The user profile record, colon-separated on the wire, and the
//! social-media handles it carries.

use vstd::prelude::*;

use crate::codec::{
    bool01_text, bool01_text_spec, has_no_sep, join_pairs, lookup, lookup_spec, pairs_view,
    parse_bool01, parse_bool01_spec, tokenize, tokenize_spec, write_pairs, SeparatorConfig,
};
use crate::color::{color_from_index_spec, color_index_spec, Color};
use crate::comment::opt_pair;
use crate::error::DecodeError;
use crate::text::{
    dec_str, parse_u16, parse_u16_spec, parse_u32, parse_u32_spec, parse_u64, parse_u64_spec,
    parse_u8, parse_u8_spec, str_to_chars, u64_to_string,
};
use crate::user::{
    comment_history_state_from_index_spec, comment_history_state_index_spec,
    friend_state_from_index_spec, friend_state_index_spec, friends_state_from_index_spec,
    friends_state_index_spec, icon_type_from_index_spec, icon_type_index_spec,
    message_state_from_index_spec, message_state_index_spec, mod_level_from_index_spec,
    mod_level_index_spec, CommentHistoryState, FriendState, FriendsState, IconType, MessageState,
    ModLevel,
};

verus! {

/// The separator configuration profile-shaped records use: a colon
/// in alternating mode.
pub open spec fn profile_separators() -> SeparatorConfig {
    SeparatorConfig { inter_field: ':', tag_value: Option::None }
}

/// Builds the profile separator configuration.
pub fn profile_separator_config() -> (c: SeparatorConfig)
    ensures
        c == profile_separators(),
{
    SeparatorConfig { inter_field: ':', tag_value: None }
}

/// A user's YouTube channel handle: the `{channel}` part of the
/// channel URL.
#[derive(Debug, Clone, PartialEq, Eq)]
pub struct Youtube(pub String);

/// A user's Twitch handle.
#[derive(Debug, Clone, PartialEq, Eq)]
pub struct Twitch(pub String);

/// A user's Twitter handle.
#[derive(Debug, Clone, PartialEq, Eq)]
pub struct Twitter(pub String);

impl Youtube {
    /// The full channel URL.
    pub fn url(&self) -> (r: String)
        ensures
            r@ == "https://www.youtube.com/channel/"@ + self.0@,
    {
        let mut r = String::new();
        r.append("https://www.youtube.com/channel/");
        r.append(self.0.as_str());
        proof {
            assert(r@ =~= "https://www.youtube.com/channel/"@ + self.0@);
        }
        r
    }
}

impl Twitch {
    /// The full channel URL.
    pub fn url(&self) -> (r: String)
        ensures
            r@ == "https://www.twitch.tv/"@ + self.0@,
    {
        let mut r = String::new();
        r.append("https://www.twitch.tv/");
        r.append(self.0.as_str());
        proof {
            assert(r@ =~= "https://www.twitch.tv/"@ + self.0@);
        }
        r
    }
}

impl Twitter {
    /// The full account URL.
    pub fn url(&self) -> (r: String)
        ensures
            r@ == "https://www.twitter.com/"@ + self.0@,
    {
        let mut r = String::new();
        r.append("https://www.twitter.com/");
        r.append(self.0.as_str());
        proof {
            assert(r@ =~= "https://www.twitter.com/"@ + self.0@);
        }
        r
    }
}

/// A user's full profile record, colon-separated on the wire.
#[derive(Debug, Clone, PartialEq, Eq)]
pub struct Profile {
    /// Tag `1`.
    pub name: String,
    /// Tag `2`.
    pub user_id: u64,
    /// Tag `3`.
    pub stars: u32,
    /// Tag `4`.
    pub demons: u16,
    /// Tag `6`.
    pub leaderboard_position: Option<u64>,
    /// Tag `7`.
    pub account_highlight: Option<u64>,
    /// Tag `8`.
    pub creator_points: u16,
    /// Tag `9`.
    pub icon_id: Option<u16>,
    /// Tag `10`.
    pub primary_color: Color,
    /// Tag `11`.
    pub secondary_color: Color,
    /// Tag `13`.
    pub secret_coins: u8,
    /// Tag `14`.
    pub icon_type: Option<IconType>,
    /// Tag `16`.
    pub account_id: u64,
    /// Tag `17`.
    pub user_coins: u16,
    /// Tag `18`.
    pub message_state: MessageState,
    /// Tag `19`.
    pub friends_state: FriendsState,
    /// Tag `20`.
    pub youtube_url: Option<Youtube>,
    /// Tag `21`.
    pub cube_index: u16,
    /// Tag `22`.
    pub ship_index: u8,
    /// Tag `23`.
    pub ball_index: u8,
    /// Tag `24`.
    pub ufo_index: u8,
    /// Tag `25`.
    pub wave_index: u8,
    /// Tag `26`.
    pub robot_index: u8,
    /// Tag `28`.
    pub has_glow: bool,
    /// Tag `29`.
    pub is_registered: bool,
    /// Tag `30`.
    pub global_rank: Option<u32>,
    /// Tag `31`.
    pub friend_state: FriendState,
    /// Tag `38`.
    pub unread_messages_count: Option<u32>,
    /// Tag `39`.
    pub unread_friend_request_count: Option<u32>,
    /// Tag `40`.
    pub new_friends_count: Option<u32>,
    /// Tag `41`.
    pub new_friend_request: Option<bool>,
    /// Tag `42`.
    pub time_since_score_update: Option<String>,
    /// Tag `43`.
    pub spider_index: u8,
    /// Tag `44`.
    pub twitter_url: Option<Twitter>,
    /// Tag `45`.
    pub twitch_url: Option<Twitch>,
    /// Tag `46`.
    pub diamonds: u16,
    /// Tag `48`.
    pub death_effect_index: u8,
    /// Tag `49`.
    pub mod_level: ModLevel,
    /// Tag `50`.
    pub comment_history_state: CommentHistoryState,
}

/// The mathematical view of a profile.
#[verifier::ext_equal]
pub struct ProfileV {
    /// See [`Profile::name`].
    pub name: Seq<char>,
    /// See [`Profile::user_id`].
    pub user_id: u64,
    /// See [`Profile::stars`].
    pub stars: u32,
    /// See [`Profile::demons`].
    pub demons: u16,
    /// See [`Profile::leaderboard_position`].
    pub leaderboard_position: Option<u64>,
    /// See [`Profile::account_highlight`].
    pub account_highlight: Option<u64>,
    /// See [`Profile::creator_points`].
    pub creator_points: u16,
    /// See [`Profile::icon_id`].
    pub icon_id: Option<u16>,
    /// See [`Profile::primary_color`].
    pub primary_color: Color,
    /// See [`Profile::secondary_color`].
    pub secondary_color: Color,
    /// See [`Profile::secret_coins`].
    pub secret_coins: u8,
    /// See [`Profile::icon_type`].
    pub icon_type: Option<IconType>,
    /// See [`Profile::account_id`].
    pub account_id: u64,
    /// See [`Profile::user_coins`].
    pub user_coins: u16,
    /// See [`Profile::message_state`].
    pub message_state: MessageState,
    /// See [`Profile::friends_state`].
    pub friends_state: FriendsState,
    /// See [`Profile::youtube_url`].
    pub youtube_url: Option<Seq<char>>,
    /// See [`Profile::cube_index`].
    pub cube_index: u16,
    /// See [`Profile::ship_index`].
    pub ship_index: u8,
    /// See [`Profile::ball_index`].
    pub ball_index: u8,
    /// See [`Profile::ufo_index`].
    pub ufo_index: u8,
    /// See [`Profile::wave_index`].
    pub wave_index: u8,
    /// See [`Profile::robot_index`].
    pub robot_index: u8,
    /// See [`Profile::has_glow`].
    pub has_glow: bool,
    /// See [`Profile::is_registered`].
    pub is_registered: bool,
    /// See [`Profile::global_rank`].
    pub global_rank: Option<u32>,
    /// See [`Profile::friend_state`].
    pub friend_state: FriendState,
    /// See [`Profile::unread_messages_count`].
    pub unread_messages_count: Option<u32>,
    /// See [`Profile::unread_friend_request_count`].
    pub unread_friend_request_count: Option<u32>,
    /// See [`Profile::new_friends_count`].
    pub new_friends_count: Option<u32>,
    /// See [`Profile::new_friend_request`].
    pub new_friend_request: Option<bool>,
    /// See [`Profile::time_since_score_update`].
    pub time_since_score_update: Option<Seq<char>>,
    /// See [`Profile::spider_index`].
    pub spider_index: u8,
    /// See [`Profile::twitter_url`].
    pub twitter_url: Option<Seq<char>>,
    /// See [`Profile::twitch_url`].
    pub twitch_url: Option<Seq<char>>,
    /// See [`Profile::diamonds`].
    pub diamonds: u16,
    /// See [`Profile::death_effect_index`].
    pub death_effect_index: u8,
    /// See [`Profile::mod_level`].
    pub mod_level: ModLevel,
    /// See [`Profile::comment_history_state`].
    pub comment_history_state: CommentHistoryState,
}

impl View for Profile {
    type V = ProfileV;

    open spec fn view(&self) -> ProfileV {
        ProfileV {
            name: self.name@,
            user_id: self.user_id,
            stars: self.stars,
            demons: self.demons,
            leaderboard_position: self.leaderboard_position,
            account_highlight: self.account_highlight,
            creator_points: self.creator_points,
            icon_id: self.icon_id,
            primary_color: self.primary_color,
            secondary_color: self.secondary_color,
            secret_coins: self.secret_coins,
            icon_type: self.icon_type,
            account_id: self.account_id,
            user_coins: self.user_coins,
            message_state: self.message_state,
            friends_state: self.friends_state,
            youtube_url: match self.youtube_url {
                Option::None => Option::None,
                Option::Some(ref u) => Option::Some(u.0@),
            },
            cube_index: self.cube_index,
            ship_index: self.ship_index,
            ball_index: self.ball_index,
            ufo_index: self.ufo_index,
            wave_index: self.wave_index,
            robot_index: self.robot_index,
            has_glow: self.has_glow,
            is_registered: self.is_registered,
            global_rank: self.global_rank,
            friend_state: self.friend_state,
            unread_messages_count: self.unread_messages_count,
            unread_friend_request_count: self.unread_friend_request_count,
            new_friends_count: self.new_friends_count,
            new_friend_request: self.new_friend_request,
            time_since_score_update: match self.time_since_score_update {
                Option::None => Option::None,
                Option::Some(ref s) => Option::Some(s@),
            },
            spider_index: self.spider_index,
            twitter_url: match self.twitter_url {
                Option::None => Option::None,
                Option::Some(ref u) => Option::Some(u.0@),
            },
            twitch_url: match self.twitch_url {
                Option::None => Option::None,
                Option::Some(ref u) => Option::Some(u.0@),
            },
            diamonds: self.diamonds,
            death_effect_index: self.death_effect_index,
            mod_level: self.mod_level,
            comment_history_state: self.comment_history_state,
        }
    }
}

/// The wire text a profile's schema emits for one tag.
pub open spec fn profile_field_text(v: ProfileV, t: u64) -> Option<Seq<char>> {
    if t == 1 {
        Option::Some(v.name)
    } else if t == 2 {
        Option::Some(dec_str(v.user_id as nat))
    } else if t == 3 {
        Option::Some(dec_str(v.stars as nat))
    } else if t == 4 {
        Option::Some(dec_str(v.demons as nat))
    } else if t == 6 {
        match v.leaderboard_position {
            Option::None => Option::None,
            Option::Some(x) => Option::Some(dec_str(x as nat)),
        }
    } else if t == 7 {
        match v.account_highlight {
            Option::None => Option::None,
            Option::Some(x) => Option::Some(dec_str(x as nat)),
        }
    } else if t == 8 {
        Option::Some(dec_str(v.creator_points as nat))
    } else if t == 9 {
        match v.icon_id {
            Option::None => Option::None,
            Option::Some(x) => Option::Some(dec_str(x as nat)),
        }
    } else if t == 10 {
        Option::Some(dec_str(color_index_spec(v.primary_color) as nat))
    } else if t == 11 {
        Option::Some(dec_str(color_index_spec(v.secondary_color) as nat))
    } else if t == 13 {
        Option::Some(dec_str(v.secret_coins as nat))
    } else if t == 14 {
        match v.icon_type {
            Option::None => Option::None,
            Option::Some(x) => Option::Some(dec_str(icon_type_index_spec(x) as nat)),
        }
    } else if t == 16 {
        Option::Some(dec_str(v.account_id as nat))
    } else if t == 17 {
        Option::Some(dec_str(v.user_coins as nat))
    } else if t == 18 {
        Option::Some(dec_str(message_state_index_spec(v.message_state) as nat))
    } else if t == 19 {
        Option::Some(dec_str(friends_state_index_spec(v.friends_state) as nat))
    } else if t == 20 {
        match v.youtube_url {
            Option::None => Option::None,
            Option::Some(s) => Option::Some(s),
        }
    } else if t == 21 {
        Option::Some(dec_str(v.cube_index as nat))
    } else if t == 22 {
        Option::Some(dec_str(v.ship_index as nat))
    } else if t == 23 {
        Option::Some(dec_str(v.ball_index as nat))
    } else if t == 24 {
        Option::Some(dec_str(v.ufo_index as nat))
    } else if t == 25 {
        Option::Some(dec_str(v.wave_index as nat))
    } else if t == 26 {
        Option::Some(dec_str(v.robot_index as nat))
    } else if t == 28 {
        Option::Some(bool01_text_spec(v.has_glow))
    } else if t == 29 {
        Option::Some(bool01_text_spec(v.is_registered))
    } else if t == 30 {
        match v.global_rank {
            Option::None => Option::None,
            Option::Some(x) => Option::Some(dec_str(x as nat)),
        }
    } else if t == 31 {
        Option::Some(dec_str(friend_state_index_spec(v.friend_state) as nat))
    } else if t == 38 {
        match v.unread_messages_count {
            Option::None => Option::None,
            Option::Some(x) => Option::Some(dec_str(x as nat)),
        }
    } else if t == 39 {
        match v.unread_friend_request_count {
            Option::None => Option::None,
            Option::Some(x) => Option::Some(dec_str(x as nat)),
        }
    } else if t == 40 {
        match v.new_friends_count {
            Option::None => Option::None,
            Option::Some(x) => Option::Some(dec_str(x as nat)),
        }
    } else if t == 41 {
        match v.new_friend_request {
            Option::None => Option::None,
            Option::Some(x) => Option::Some(bool01_text_spec(x)),
        }
    } else if t == 42 {
        match v.time_since_score_update {
            Option::None => Option::None,
            Option::Some(s) => Option::Some(s),
        }
    } else if t == 43 {
        Option::Some(dec_str(v.spider_index as nat))
    } else if t == 44 {
        match v.twitter_url {
            Option::None => Option::None,
            Option::Some(s) => Option::Some(s),
        }
    } else if t == 45 {
        match v.twitch_url {
            Option::None => Option::None,
            Option::Some(s) => Option::Some(s),
        }
    } else if t == 46 {
        Option::Some(dec_str(v.diamonds as nat))
    } else if t == 48 {
        Option::Some(dec_str(v.death_effect_index as nat))
    } else if t == 49 {
        Option::Some(dec_str(mod_level_index_spec(v.mod_level) as nat))
    } else if t == 50 {
        Option::Some(dec_str(comment_history_state_index_spec(v.comment_history_state) as nat))
    } else {
        Option::None
    }
}

/// One run of the profile's declared fields, in tag order.
pub open spec fn profile_pairs_a(v: ProfileV) -> Seq<(u64, Seq<char>)> {
    opt_pair(1, profile_field_text(v, 1)) + (opt_pair(2, profile_field_text(v, 2)) + (opt_pair(3, profile_field_text(v, 3)) + (opt_pair(4, profile_field_text(v, 4)) + (opt_pair(6, profile_field_text(v, 6)) + (opt_pair(7, profile_field_text(v, 7)) + (opt_pair(8, profile_field_text(v, 8)) + (opt_pair(9, profile_field_text(v, 9)))))))))
}

/// One run of the profile's declared fields, in tag order.
pub open spec fn profile_pairs_b(v: ProfileV) -> Seq<(u64, Seq<char>)> {
    opt_pair(10, profile_field_text(v, 10)) + (opt_pair(11, profile_field_text(v, 11)) + (opt_pair(13, profile_field_text(v, 13)) + (opt_pair(14, profile_field_text(v, 14)) + (opt_pair(16, profile_field_text(v, 16)) + (opt_pair(17, profile_field_text(v, 17)) + (opt_pair(18, profile_field_text(v, 18)) + (opt_pair(19, profile_field_text(v, 19)))))))))
}

/// One run of the profile's declared fields, in tag order.
pub open spec fn profile_pairs_c(v: ProfileV) -> Seq<(u64, Seq<char>)> {
    opt_pair(20, profile_field_text(v, 20)) + (opt_pair(21, profile_field_text(v, 21)) + (opt_pair(22, profile_field_text(v, 22)) + (opt_pair(23, profile_field_text(v, 23)) + (opt_pair(24, profile_field_text(v, 24)) + (opt_pair(25, profile_field_text(v, 25)) + (opt_pair(26, profile_field_text(v, 26)) + (opt_pair(28, profile_field_text(v, 28)))))))))
}

/// One run of the profile's declared fields, in tag order.
pub open spec fn profile_pairs_d(v: ProfileV) -> Seq<(u64, Seq<char>)> {
    opt_pair(29, profile_field_text(v, 29)) + (opt_pair(30, profile_field_text(v, 30)) + (opt_pair(31, profile_field_text(v, 31)) + (opt_pair(38, profile_field_text(v, 38)) + (opt_pair(39, profile_field_text(v, 39)) + (opt_pair(40, profile_field_text(v, 40)) + (opt_pair(41, profile_field_text(v, 41)) + (opt_pair(42, profile_field_text(v, 42)))))))))
}

/// One run of the profile's declared fields, in tag order.
pub open spec fn profile_pairs_e(v: ProfileV) -> Seq<(u64, Seq<char>)> {
    opt_pair(43, profile_field_text(v, 43)) + (opt_pair(44, profile_field_text(v, 44)) + (opt_pair(45, profile_field_text(v, 45)) + (opt_pair(46, profile_field_text(v, 46)) + (opt_pair(48, profile_field_text(v, 48)) + (opt_pair(49, profile_field_text(v, 49)) + (opt_pair(50, profile_field_text(v, 50))))))))
}

/// The tag/value pairs a profile serializes to, in declared schema
/// order; absent optional fields emit nothing.
pub open spec fn profile_pairs_spec(v: ProfileV) -> Seq<(u64, Seq<char>)> {
    profile_pairs_a(v) + (profile_pairs_b(v) + (profile_pairs_c(v) + (profile_pairs_d(v) + (profile_pairs_e(v)))))
}

pub open spec fn profile_from_pairs(ps: Seq<(u64, Seq<char>)>) -> Result<ProfileV, DecodeError> {
    if lookup_spec(ps, 1) is None {
        Result::Err(DecodeError::MissingRequiredField(1))
    } else
    if lookup_spec(ps, 2) is None {
        Result::Err(DecodeError::MissingRequiredField(2))
    } else
    if parse_u64_spec(lookup_spec(ps, 2)->Some_0) is None {
        Result::Err(DecodeError::ValueParse(2))
    } else
    if lookup_spec(ps, 3) is None {
        Result::Err(DecodeError::MissingRequiredField(3))
    } else
    if parse_u32_spec(lookup_spec(ps, 3)->Some_0) is None {
        Result::Err(DecodeError::ValueParse(3))
    } else
    if lookup_spec(ps, 4) is None {
        Result::Err(DecodeError::MissingRequiredField(4))
    } else
    if parse_u16_spec(lookup_spec(ps, 4)->Some_0) is None {
        Result::Err(DecodeError::ValueParse(4))
    } else
    if lookup_spec(ps, 6) is Some && parse_u64_spec(lookup_spec(ps, 6)->Some_0) is None {
        Result::Err(DecodeError::ValueParse(6))
    } else
    if lookup_spec(ps, 7) is Some && parse_u64_spec(lookup_spec(ps, 7)->Some_0) is None {
        Result::Err(DecodeError::ValueParse(7))
    } else
    if lookup_spec(ps, 8) is None {
        Result::Err(DecodeError::MissingRequiredField(8))
    } else
    if parse_u16_spec(lookup_spec(ps, 8)->Some_0) is None {
        Result::Err(DecodeError::ValueParse(8))
    } else
    if lookup_spec(ps, 9) is Some && parse_u16_spec(lookup_spec(ps, 9)->Some_0) is None {
        Result::Err(DecodeError::ValueParse(9))
    } else
    if lookup_spec(ps, 10) is None {
        Result::Err(DecodeError::MissingRequiredField(10))
    } else
    if parse_u8_spec(lookup_spec(ps, 10)->Some_0) is None {
        Result::Err(DecodeError::ValueParse(10))
    } else
    if lookup_spec(ps, 11) is None {
        Result::Err(DecodeError::MissingRequiredField(11))
    } else
    if parse_u8_spec(lookup_spec(ps, 11)->Some_0) is None {
        Result::Err(DecodeError::ValueParse(11))
    } else
    if lookup_spec(ps, 13) is None {
        Result::Err(DecodeError::MissingRequiredField(13))
    } else
    if parse_u8_spec(lookup_spec(ps, 13)->Some_0) is None {
        Result::Err(DecodeError::ValueParse(13))
    } else
    if lookup_spec(ps, 14) is Some && parse_u8_spec(lookup_spec(ps, 14)->Some_0) is None {
        Result::Err(DecodeError::ValueParse(14))
    } else
    if lookup_spec(ps, 16) is None {
        Result::Err(DecodeError::MissingRequiredField(16))
    } else
    if parse_u64_spec(lookup_spec(ps, 16)->Some_0) is None {
        Result::Err(DecodeError::ValueParse(16))
    } else
    if lookup_spec(ps, 17) is None {
        Result::Err(DecodeError::MissingRequiredField(17))
    } else
    if parse_u16_spec(lookup_spec(ps, 17)->Some_0) is None {
        Result::Err(DecodeError::ValueParse(17))
    } else
    if lookup_spec(ps, 18) is None {
        Result::Err(DecodeError::MissingRequiredField(18))
    } else
    if parse_u8_spec(lookup_spec(ps, 18)->Some_0) is None {
        Result::Err(DecodeError::ValueParse(18))
    } else
    if lookup_spec(ps, 19) is None {
        Result::Err(DecodeError::MissingRequiredField(19))
    } else
    if parse_u8_spec(lookup_spec(ps, 19)->Some_0) is None {
        Result::Err(DecodeError::ValueParse(19))
    } else
    if lookup_spec(ps, 21) is None {
        Result::Err(DecodeError::MissingRequiredField(21))
    } else
    if parse_u16_spec(lookup_spec(ps, 21)->Some_0) is None {
        Result::Err(DecodeError::ValueParse(21))
    } else
    if lookup_spec(ps, 22) is None {
        Result::Err(DecodeError::MissingRequiredField(22))
    } else
    if parse_u8_spec(lookup_spec(ps, 22)->Some_0) is None {
        Result::Err(DecodeError::ValueParse(22))
    } else
    if lookup_spec(ps, 23) is None {
        Result::Err(DecodeError::MissingRequiredField(23))
    } else
    if parse_u8_spec(lookup_spec(ps, 23)->Some_0) is None {
        Result::Err(DecodeError::ValueParse(23))
    } else
    if lookup_spec(ps, 24) is None {
        Result::Err(DecodeError::MissingRequiredField(24))
    } else
    if parse_u8_spec(lookup_spec(ps, 24)->Some_0) is None {
        Result::Err(DecodeError::ValueParse(24))
    } else
    if lookup_spec(ps, 25) is None {
        Result::Err(DecodeError::MissingRequiredField(25))
    } else
    if parse_u8_spec(lookup_spec(ps, 25)->Some_0) is None {
        Result::Err(DecodeError::ValueParse(25))
    } else
    if lookup_spec(ps, 26) is None {
        Result::Err(DecodeError::MissingRequiredField(26))
    } else
    if parse_u8_spec(lookup_spec(ps, 26)->Some_0) is None {
        Result::Err(DecodeError::ValueParse(26))
    } else
    if lookup_spec(ps, 28) is None {
        Result::Err(DecodeError::MissingRequiredField(28))
    } else
    if parse_bool01_spec(lookup_spec(ps, 28)->Some_0) is None {
        Result::Err(DecodeError::ValueParse(28))
    } else
    if lookup_spec(ps, 29) is None {
        Result::Err(DecodeError::MissingRequiredField(29))
    } else
    if parse_bool01_spec(lookup_spec(ps, 29)->Some_0) is None {
        Result::Err(DecodeError::ValueParse(29))
    } else
    if lookup_spec(ps, 30) is Some && parse_u32_spec(lookup_spec(ps, 30)->Some_0) is None {
        Result::Err(DecodeError::ValueParse(30))
    } else
    if lookup_spec(ps, 31) is None {
        Result::Err(DecodeError::MissingRequiredField(31))
    } else
    if parse_u8_spec(lookup_spec(ps, 31)->Some_0) is None {
        Result::Err(DecodeError::ValueParse(31))
    } else
    if lookup_spec(ps, 38) is Some && parse_u32_spec(lookup_spec(ps, 38)->Some_0) is None {
        Result::Err(DecodeError::ValueParse(38))
    } else
    if lookup_spec(ps, 39) is Some && parse_u32_spec(lookup_spec(ps, 39)->Some_0) is None {
        Result::Err(DecodeError::ValueParse(39))
    } else
    if lookup_spec(ps, 40) is Some && parse_u32_spec(lookup_spec(ps, 40)->Some_0) is None {
        Result::Err(DecodeError::ValueParse(40))
    } else
    if lookup_spec(ps, 41) is Some && parse_bool01_spec(lookup_spec(ps, 41)->Some_0) is None {
        Result::Err(DecodeError::ValueParse(41))
    } else
    if lookup_spec(ps, 43) is None {
        Result::Err(DecodeError::MissingRequiredField(43))
    } else
    if parse_u8_spec(lookup_spec(ps, 43)->Some_0) is None {
        Result::Err(DecodeError::ValueParse(43))
    } else
    if lookup_spec(ps, 46) is None {
        Result::Err(DecodeError::MissingRequiredField(46))
    } else
    if parse_u16_spec(lookup_spec(ps, 46)->Some_0) is None {
        Result::Err(DecodeError::ValueParse(46))
    } else
    if lookup_spec(ps, 48) is None {
        Result::Err(DecodeError::MissingRequiredField(48))
    } else
    if parse_u8_spec(lookup_spec(ps, 48)->Some_0) is None {
        Result::Err(DecodeError::ValueParse(48))
    } else
    if lookup_spec(ps, 49) is None {
        Result::Err(DecodeError::MissingRequiredField(49))
    } else
    if parse_u8_spec(lookup_spec(ps, 49)->Some_0) is None {
        Result::Err(DecodeError::ValueParse(49))
    } else
    if lookup_spec(ps, 50) is None {
        Result::Err(DecodeError::MissingRequiredField(50))
    } else
    if parse_u8_spec(lookup_spec(ps, 50)->Some_0) is None {
        Result::Err(DecodeError::ValueParse(50))
    } else {
        Result::Ok(
            ProfileV {
                name: lookup_spec(ps, 1)->Some_0,
                user_id: parse_u64_spec(lookup_spec(ps, 2)->Some_0)->Some_0,
                stars: parse_u32_spec(lookup_spec(ps, 3)->Some_0)->Some_0,
                demons: parse_u16_spec(lookup_spec(ps, 4)->Some_0)->Some_0,
                leaderboard_position: match lookup_spec(ps, 6) {
                    Option::None => Option::None,
                    Option::Some(t) => Option::Some(parse_u64_spec(t)->Some_0),
                },
                account_highlight: match lookup_spec(ps, 7) {
                    Option::None => Option::None,
                    Option::Some(t) => Option::Some(parse_u64_spec(t)->Some_0),
                },
                creator_points: parse_u16_spec(lookup_spec(ps, 8)->Some_0)->Some_0,
                icon_id: match lookup_spec(ps, 9) {
                    Option::None => Option::None,
                    Option::Some(t) => Option::Some(parse_u16_spec(t)->Some_0),
                },
                primary_color: color_from_index_spec(parse_u8_spec(lookup_spec(ps, 10)->Some_0)->Some_0),
                secondary_color: color_from_index_spec(parse_u8_spec(lookup_spec(ps, 11)->Some_0)->Some_0),
                secret_coins: parse_u8_spec(lookup_spec(ps, 13)->Some_0)->Some_0,
                icon_type: match lookup_spec(ps, 14) {
                    Option::None => Option::None,
                    Option::Some(t) => Option::Some(icon_type_from_index_spec(parse_u8_spec(t)->Some_0)),
                },
                account_id: parse_u64_spec(lookup_spec(ps, 16)->Some_0)->Some_0,
                user_coins: parse_u16_spec(lookup_spec(ps, 17)->Some_0)->Some_0,
                message_state: message_state_from_index_spec(parse_u8_spec(lookup_spec(ps, 18)->Some_0)->Some_0),
                friends_state: friends_state_from_index_spec(parse_u8_spec(lookup_spec(ps, 19)->Some_0)->Some_0),
                youtube_url: match lookup_spec(ps, 20) {
                    Option::None => Option::None,
                    Option::Some(t) => Option::Some(t),
                },
                cube_index: parse_u16_spec(lookup_spec(ps, 21)->Some_0)->Some_0,
                ship_index: parse_u8_spec(lookup_spec(ps, 22)->Some_0)->Some_0,
                ball_index: parse_u8_spec(lookup_spec(ps, 23)->Some_0)->Some_0,
                ufo_index: parse_u8_spec(lookup_spec(ps, 24)->Some_0)->Some_0,
                wave_index: parse_u8_spec(lookup_spec(ps, 25)->Some_0)->Some_0,
                robot_index: parse_u8_spec(lookup_spec(ps, 26)->Some_0)->Some_0,
                has_glow: parse_bool01_spec(lookup_spec(ps, 28)->Some_0)->Some_0,
                is_registered: parse_bool01_spec(lookup_spec(ps, 29)->Some_0)->Some_0,
                global_rank: match lookup_spec(ps, 30) {
                    Option::None => Option::None,
                    Option::Some(t) => Option::Some(parse_u32_spec(t)->Some_0),
                },
                friend_state: friend_state_from_index_spec(parse_u8_spec(lookup_spec(ps, 31)->Some_0)->Some_0),
                unread_messages_count: match lookup_spec(ps, 38) {
                    Option::None => Option::None,
                    Option::Some(t) => Option::Some(parse_u32_spec(t)->Some_0),
                },
                unread_friend_request_count: match lookup_spec(ps, 39) {
                    Option::None => Option::None,
                    Option::Some(t) => Option::Some(parse_u32_spec(t)->Some_0),
                },
                new_friends_count: match lookup_spec(ps, 40) {
                    Option::None => Option::None,
                    Option::Some(t) => Option::Some(parse_u32_spec(t)->Some_0),
                },
                new_friend_request: match lookup_spec(ps, 41) {
                    Option::None => Option::None,
                    Option::Some(t) => Option::Some(parse_bool01_spec(t)->Some_0),
                },
                time_since_score_update: match lookup_spec(ps, 42) {
                    Option::None => Option::None,
                    Option::Some(t) => Option::Some(t),
                },
                spider_index: parse_u8_spec(lookup_spec(ps, 43)->Some_0)->Some_0,
                twitter_url: match lookup_spec(ps, 44) {
                    Option::None => Option::None,
                    Option::Some(t) => Option::Some(t),
                },
                twitch_url: match lookup_spec(ps, 45) {
                    Option::None => Option::None,
                    Option::Some(t) => Option::Some(t),
                },
                diamonds: parse_u16_spec(lookup_spec(ps, 46)->Some_0)->Some_0,
                death_effect_index: parse_u8_spec(lookup_spec(ps, 48)->Some_0)->Some_0,
                mod_level: mod_level_from_index_spec(parse_u8_spec(lookup_spec(ps, 49)->Some_0)->Some_0),
                comment_history_state: comment_history_state_from_index_spec(parse_u8_spec(lookup_spec(ps, 50)->Some_0)->Some_0),
            },
        )
    }
}

/// What decoding a profile's wire text yields.
pub open spec fn profile_decode_spec(s: Seq<char>) -> Result<ProfileV, DecodeError> {
    match tokenize_spec(s, profile_separators()) {
        Option::None => Result::Err(DecodeError::Tokenization),
        Option::Some(ps) => profile_from_pairs(ps),
    }
}

/// The wire text a profile serializes to.
pub open spec fn profile_encode_spec(v: ProfileV) -> Seq<char> {
    join_pairs(profile_pairs_spec(v), ':')
}

impl Profile {
    /// Decodes a profile from its wire text, exactly as
    /// [`profile_decode_spec`] describes.
    #[verifier::rlimit(100)]
    pub fn from_robtop_str(s: &str) -> (r: Result<Profile, DecodeError>)
        ensures
            match (r, profile_decode_spec(s@)) {
                (Result::Ok(c), Result::Ok(v)) => c@ == v,
                (Result::Err(e), Result::Err(f)) => e == f,
                _ => false,
            },
    {
        let pairs = match tokenize(s, profile_separator_config()) {
            Ok(p) => p,
            Err(e) => {
                return Err(e);
            },
        };
        let ghost psv = pairs_view(pairs@);
        let name: String = match lookup(&pairs, 1) {
            Option::None => {
                return Err(DecodeError::MissingRequiredField(1));
            },
            Option::Some(i) => pairs[i].1.clone(),
        };
        let user_id: u64 = match lookup(&pairs, 2) {
            Option::None => {
                return Err(DecodeError::MissingRequiredField(2));
            },
            Option::Some(i) => match parse_u64(&str_to_chars(pairs[i].1.as_str())) {
                Option::None => {
                    return Err(DecodeError::ValueParse(2));
                },
                Option::Some(v) => v,
            },
        };
        let stars: u32 = match lookup(&pairs, 3) {
            Option::None => {
                return Err(DecodeError::MissingRequiredField(3));
            },
            Option::Some(i) => match parse_u32(&str_to_chars(pairs[i].1.as_str())) {
                Option::None => {
                    return Err(DecodeError::ValueParse(3));
                },
                Option::Some(v) => v,
            },
        };
        let demons: u16 = match lookup(&pairs, 4) {
            Option::None => {
                return Err(DecodeError::MissingRequiredField(4));
            },
            Option::Some(i) => match parse_u16(&str_to_chars(pairs[i].1.as_str())) {
                Option::None => {
                    return Err(DecodeError::ValueParse(4));
                },
                Option::Some(v) => v,
            },
        };
        let leaderboard_position: Option<u64> = match lookup(&pairs, 6) {
            Option::None => None,
            Option::Some(i) => match parse_u64(&str_to_chars(pairs[i].1.as_str())) {
                Option::None => {
                    return Err(DecodeError::ValueParse(6));
                },
                Option::Some(v) => Some(v),
            },
        };
        let account_highlight: Option<u64> = match lookup(&pairs, 7) {
            Option::None => None,
            Option::Some(i) => match parse_u64(&str_to_chars(pairs[i].1.as_str())) {
                Option::None => {
                    return Err(DecodeError::ValueParse(7));
                },
                Option::Some(v) => Some(v),
            },
        };
        let creator_points: u16 = match lookup(&pairs, 8) {
            Option::None => {
                return Err(DecodeError::MissingRequiredField(8));
            },
            Option::Some(i) => match parse_u16(&str_to_chars(pairs[i].1.as_str())) {
                Option::None => {
                    return Err(DecodeError::ValueParse(8));
                },
                Option::Some(v) => v,
            },
        };
        let icon_id: Option<u16> = match lookup(&pairs, 9) {
            Option::None => None,
            Option::Some(i) => match parse_u16(&str_to_chars(pairs[i].1.as_str())) {
                Option::None => {
                    return Err(DecodeError::ValueParse(9));
                },
                Option::Some(v) => Some(v),
            },
        };
        let primary_color: Color = match lookup(&pairs, 10) {
            Option::None => {
                return Err(DecodeError::MissingRequiredField(10));
            },
            Option::Some(i) => match parse_u8(&str_to_chars(pairs[i].1.as_str())) {
                Option::None => {
                    return Err(DecodeError::ValueParse(10));
                },
                Option::Some(v) => Color::from_index(v),
            },
        };
        let secondary_color: Color = match lookup(&pairs, 11) {
            Option::None => {
                return Err(DecodeError::MissingRequiredField(11));
            },
            Option::Some(i) => match parse_u8(&str_to_chars(pairs[i].1.as_str())) {
                Option::None => {
                    return Err(DecodeError::ValueParse(11));
                },
                Option::Some(v) => Color::from_index(v),
            },
        };
        let secret_coins: u8 = match lookup(&pairs, 13) {
            Option::None => {
                return Err(DecodeError::MissingRequiredField(13));
            },
            Option::Some(i) => match parse_u8(&str_to_chars(pairs[i].1.as_str())) {
                Option::None => {
                    return Err(DecodeError::ValueParse(13));
                },
                Option::Some(v) => v,
            },
        };
        let icon_type: Option<IconType> = match lookup(&pairs, 14) {
            Option::None => None,
            Option::Some(i) => match parse_u8(&str_to_chars(pairs[i].1.as_str())) {
                Option::None => {
                    return Err(DecodeError::ValueParse(14));
                },
                Option::Some(v) => Some(IconType::from_index(v)),
            },
        };
        let account_id: u64 = match lookup(&pairs, 16) {
            Option::None => {
                return Err(DecodeError::MissingRequiredField(16));
            },
            Option::Some(i) => match parse_u64(&str_to_chars(pairs[i].1.as_str())) {
                Option::None => {
                    return Err(DecodeError::ValueParse(16));
                },
                Option::Some(v) => v,
            },
        };
        let user_coins: u16 = match lookup(&pairs, 17) {
            Option::None => {
                return Err(DecodeError::MissingRequiredField(17));
            },
            Option::Some(i) => match parse_u16(&str_to_chars(pairs[i].1.as_str())) {
                Option::None => {
                    return Err(DecodeError::ValueParse(17));
                },
                Option::Some(v) => v,
            },
        };
        let message_state: MessageState = match lookup(&pairs, 18) {
            Option::None => {
                return Err(DecodeError::MissingRequiredField(18));
            },
            Option::Some(i) => match parse_u8(&str_to_chars(pairs[i].1.as_str())) {
                Option::None => {
                    return Err(DecodeError::ValueParse(18));
                },
                Option::Some(v) => MessageState::from_index(v),
            },
        };
        let friends_state: FriendsState = match lookup(&pairs, 19) {
            Option::None => {
                return Err(DecodeError::MissingRequiredField(19));
            },
            Option::Some(i) => match parse_u8(&str_to_chars(pairs[i].1.as_str())) {
                Option::None => {
                    return Err(DecodeError::ValueParse(19));
                },
                Option::Some(v) => FriendsState::from_index(v),
            },
        };
        let youtube_url: Option<Youtube> = match lookup(&pairs, 20) {
            Option::None => None,
            Option::Some(i) => Some(Youtube(pairs[i].1.clone())),
        };
        let cube_index: u16 = match lookup(&pairs, 21) {
            Option::None => {
                return Err(DecodeError::MissingRequiredField(21));
            },
            Option::Some(i) => match parse_u16(&str_to_chars(pairs[i].1.as_str())) {
                Option::None => {
                    return Err(DecodeError::ValueParse(21));
                },
                Option::Some(v) => v,
            },
        };
        let ship_index: u8 = match lookup(&pairs, 22) {
            Option::None => {
                return Err(DecodeError::MissingRequiredField(22));
            },
            Option::Some(i) => match parse_u8(&str_to_chars(pairs[i].1.as_str())) {
                Option::None => {
                    return Err(DecodeError::ValueParse(22));
                },
                Option::Some(v) => v,
            },
        };
        let ball_index: u8 = match lookup(&pairs, 23) {
            Option::None => {
                return Err(DecodeError::MissingRequiredField(23));
            },
            Option::Some(i) => match parse_u8(&str_to_chars(pairs[i].1.as_str())) {
                Option::None => {
                    return Err(DecodeError::ValueParse(23));
                },
                Option::Some(v) => v,
            },
        };
        let ufo_index: u8 = match lookup(&pairs, 24) {
            Option::None => {
                return Err(DecodeError::MissingRequiredField(24));
            },
            Option::Some(i) => match parse_u8(&str_to_chars(pairs[i].1.as_str())) {
                Option::None => {
                    return Err(DecodeError::ValueParse(24));
                },
                Option::Some(v) => v,
            },
        };
        let wave_index: u8 = match lookup(&pairs, 25) {
            Option::None => {
                return Err(DecodeError::MissingRequiredField(25));
            },
            Option::Some(i) => match parse_u8(&str_to_chars(pairs[i].1.as_str())) {
                Option::None => {
                    return Err(DecodeError::ValueParse(25));
                },
                Option::Some(v) => v,
            },
        };
        let robot_index: u8 = match lookup(&pairs, 26) {
            Option::None => {
                return Err(DecodeError::MissingRequiredField(26));
            },
            Option::Some(i) => match parse_u8(&str_to_chars(pairs[i].1.as_str())) {
                Option::None => {
                    return Err(DecodeError::ValueParse(26));
                },
                Option::Some(v) => v,
            },
        };
        let has_glow: bool = match lookup(&pairs, 28) {
            Option::None => {
                return Err(DecodeError::MissingRequiredField(28));
            },
            Option::Some(i) => match parse_bool01(pairs[i].1.as_str()) {
                Option::None => {
                    return Err(DecodeError::ValueParse(28));
                },
                Option::Some(v) => v,
            },
        };
        let is_registered: bool = match lookup(&pairs, 29) {
            Option::None => {
                return Err(DecodeError::MissingRequiredField(29));
            },
            Option::Some(i) => match parse_bool01(pairs[i].1.as_str()) {
                Option::None => {
                    return Err(DecodeError::ValueParse(29));
                },
                Option::Some(v) => v,
            },
        };
        let global_rank: Option<u32> = match lookup(&pairs, 30) {
            Option::None => None,
            Option::Some(i) => match parse_u32(&str_to_chars(pairs[i].1.as_str())) {
                Option::None => {
                    return Err(DecodeError::ValueParse(30));
                },
                Option::Some(v) => Some(v),
            },
        };
        let friend_state: FriendState = match lookup(&pairs, 31) {
            Option::None => {
                return Err(DecodeError::MissingRequiredField(31));
            },
            Option::Some(i) => match parse_u8(&str_to_chars(pairs[i].1.as_str())) {
                Option::None => {
                    return Err(DecodeError::ValueParse(31));
                },
                Option::Some(v) => FriendState::from_index(v),
            },
        };
        let unread_messages_count: Option<u32> = match lookup(&pairs, 38) {
            Option::None => None,
            Option::Some(i) => match parse_u32(&str_to_chars(pairs[i].1.as_str())) {
                Option::None => {
                    return Err(DecodeError::ValueParse(38));
                },
                Option::Some(v) => Some(v),
            },
        };
        let unread_friend_request_count: Option<u32> = match lookup(&pairs, 39) {
            Option::None => None,
            Option::Some(i) => match parse_u32(&str_to_chars(pairs[i].1.as_str())) {
                Option::None => {
                    return Err(DecodeError::ValueParse(39));
                },
                Option::Some(v) => Some(v),
            },
        };
        let new_friends_count: Option<u32> = match lookup(&pairs, 40) {
            Option::None => None,
            Option::Some(i) => match parse_u32(&str_to_chars(pairs[i].1.as_str())) {
                Option::None => {
                    return Err(DecodeError::ValueParse(40));
                },
                Option::Some(v) => Some(v),
            },
        };
        let new_friend_request: Option<bool> = match lookup(&pairs, 41) {
            Option::None => None,
            Option::Some(i) => match parse_bool01(pairs[i].1.as_str()) {
                Option::None => {
                    return Err(DecodeError::ValueParse(41));
                },
                Option::Some(v) => Some(v),
            },
        };
        let time_since_score_update: Option<String> = match lookup(&pairs, 42) {
            Option::None => None,
            Option::Some(i) => Some(pairs[i].1.clone()),
        };
        let spider_index: u8 = match lookup(&pairs, 43) {
            Option::None => {
                return Err(DecodeError::MissingRequiredField(43));
            },
            Option::Some(i) => match parse_u8(&str_to_chars(pairs[i].1.as_str())) {
                Option::None => {
                    return Err(DecodeError::ValueParse(43));
                },
                Option::Some(v) => v,
            },
        };
        let twitter_url: Option<Twitter> = match lookup(&pairs, 44) {
            Option::None => None,
            Option::Some(i) => Some(Twitter(pairs[i].1.clone())),
        };
        let twitch_url: Option<Twitch> = match lookup(&pairs, 45) {
            Option::None => None,
            Option::Some(i) => Some(Twitch(pairs[i].1.clone())),
        };
        let diamonds: u16 = match lookup(&pairs, 46) {
            Option::None => {
                return Err(DecodeError::MissingRequiredField(46));
            },
            Option::Some(i) => match parse_u16(&str_to_chars(pairs[i].1.as_str())) {
                Option::None => {
                    return Err(DecodeError::ValueParse(46));
                },
                Option::Some(v) => v,
            },
        };
        let death_effect_index: u8 = match lookup(&pairs, 48) {
            Option::None => {
                return Err(DecodeError::MissingRequiredField(48));
            },
            Option::Some(i) => match parse_u8(&str_to_chars(pairs[i].1.as_str())) {
                Option::None => {
                    return Err(DecodeError::ValueParse(48));
                },
                Option::Some(v) => v,
            },
        };
        let mod_level: ModLevel = match lookup(&pairs, 49) {
            Option::None => {
                return Err(DecodeError::MissingRequiredField(49));
            },
            Option::Some(i) => match parse_u8(&str_to_chars(pairs[i].1.as_str())) {
                Option::None => {
                    return Err(DecodeError::ValueParse(49));
                },
                Option::Some(v) => ModLevel::from_index(v),
            },
        };
        let comment_history_state: CommentHistoryState = match lookup(&pairs, 50) {
            Option::None => {
                return Err(DecodeError::MissingRequiredField(50));
            },
            Option::Some(i) => match parse_u8(&str_to_chars(pairs[i].1.as_str())) {
                Option::None => {
                    return Err(DecodeError::ValueParse(50));
                },
                Option::Some(v) => CommentHistoryState::from_index(v),
            },
        };
        let c = Profile {
            name,
            user_id,
            stars,
            demons,
            leaderboard_position,
            account_highlight,
            creator_points,
            icon_id,
            primary_color,
            secondary_color,
            secret_coins,
            icon_type,
            account_id,
            user_coins,
            message_state,
            friends_state,
            youtube_url,
            cube_index,
            ship_index,
            ball_index,
            ufo_index,
            wave_index,
            robot_index,
            has_glow,
            is_registered,
            global_rank,
            friend_state,
            unread_messages_count,
            unread_friend_request_count,
            new_friends_count,
            new_friend_request,
            time_since_score_update,
            spider_index,
            twitter_url,
            twitch_url,
            diamonds,
            death_effect_index,
            mod_level,
            comment_history_state,
        };
        proof {
            assert(c@ =~= profile_from_pairs(psv)->Ok_0);
        }
        Ok(c)
    }

    /// Appends one run of this profile's fields to the pair list.
    #[verifier::rlimit(100)]
    fn push_pairs_a(&self, pairs: &mut Vec<(u64, String)>)
        ensures
            pairs_view(final(pairs)@) == pairs_view(old(pairs)@) + profile_pairs_a(self@),
    {
        let ghost before = pairs_view(pairs@);
        pairs.push((1, self.name.clone()));
        pairs.push((2, u64_to_string(self.user_id)));
        pairs.push((3, u64_to_string(self.stars as u64)));
        pairs.push((4, u64_to_string(self.demons as u64)));
        match &self.leaderboard_position {
            Option::None => {},
            Option::Some(x) => {
                pairs.push((6, u64_to_string((*x))));
            },
        }
        match &self.account_highlight {
            Option::None => {},
            Option::Some(x) => {
                pairs.push((7, u64_to_string((*x))));
            },
        }
        pairs.push((8, u64_to_string(self.creator_points as u64)));
        match &self.icon_id {
            Option::None => {},
            Option::Some(x) => {
                pairs.push((9, u64_to_string((*x) as u64)));
            },
        }
        proof {
            assert(pairs_view(pairs@) =~~= before + profile_pairs_a(self@));
        }
    }
    /// Appends one run of this profile's fields to the pair list.
    #[verifier::rlimit(100)]
    fn push_pairs_b(&self, pairs: &mut Vec<(u64, String)>)
        ensures
            pairs_view(final(pairs)@) == pairs_view(old(pairs)@) + profile_pairs_b(self@),
    {
        let ghost before = pairs_view(pairs@);
        pairs.push((10, u64_to_string(self.primary_color.index() as u64)));
        pairs.push((11, u64_to_string(self.secondary_color.index() as u64)));
        pairs.push((13, u64_to_string(self.secret_coins as u64)));
        match &self.icon_type {
            Option::None => {},
            Option::Some(x) => {
                pairs.push((14, u64_to_string((*x).index() as u64)));
            },
        }
        pairs.push((16, u64_to_string(self.account_id)));
        pairs.push((17, u64_to_string(self.user_coins as u64)));
        pairs.push((18, u64_to_string(self.message_state.index() as u64)));
        pairs.push((19, u64_to_string(self.friends_state.index() as u64)));
        proof {
            assert(pairs_view(pairs@) =~~= before + profile_pairs_b(self@));
        }
    }
    /// Appends one run of this profile's fields to the pair list.
    #[verifier::rlimit(100)]
    fn push_pairs_c(&self, pairs: &mut Vec<(u64, String)>)
        ensures
            pairs_view(final(pairs)@) == pairs_view(old(pairs)@) + profile_pairs_c(self@),
    {
        let ghost before = pairs_view(pairs@);
        match &self.youtube_url {
            Option::None => {},
            Option::Some(u) => {
                pairs.push((20, u.0.clone()));
            },
        }
        pairs.push((21, u64_to_string(self.cube_index as u64)));
        pairs.push((22, u64_to_string(self.ship_index as u64)));
        pairs.push((23, u64_to_string(self.ball_index as u64)));
        pairs.push((24, u64_to_string(self.ufo_index as u64)));
        pairs.push((25, u64_to_string(self.wave_index as u64)));
        pairs.push((26, u64_to_string(self.robot_index as u64)));
        pairs.push((28, bool01_text(self.has_glow)));
        proof {
            assert(pairs_view(pairs@) =~~= before + profile_pairs_c(self@));
        }
    }
    /// Appends one run of this profile's fields to the pair list.
    #[verifier::rlimit(100)]
    fn push_pairs_d(&self, pairs: &mut Vec<(u64, String)>)
        ensures
            pairs_view(final(pairs)@) == pairs_view(old(pairs)@) + profile_pairs_d(self@),
    {
        let ghost before = pairs_view(pairs@);
        pairs.push((29, bool01_text(self.is_registered)));
        match &self.global_rank {
            Option::None => {},
            Option::Some(x) => {
                pairs.push((30, u64_to_string((*x) as u64)));
            },
        }
        pairs.push((31, u64_to_string(self.friend_state.index() as u64)));
        match &self.unread_messages_count {
            Option::None => {},
            Option::Some(x) => {
                pairs.push((38, u64_to_string((*x) as u64)));
            },
        }
        match &self.unread_friend_request_count {
            Option::None => {},
            Option::Some(x) => {
                pairs.push((39, u64_to_string((*x) as u64)));
            },
        }
        match &self.new_friends_count {
            Option::None => {},
            Option::Some(x) => {
                pairs.push((40, u64_to_string((*x) as u64)));
            },
        }
        match &self.new_friend_request {
            Option::None => {},
            Option::Some(x) => {
                pairs.push((41, bool01_text((*x))));
            },
        }
        match &self.time_since_score_update {
            Option::None => {},
            Option::Some(s) => {
                pairs.push((42, s.clone()));
            },
        }
        proof {
            assert(pairs_view(pairs@) =~~= before + profile_pairs_d(self@));
        }
    }
    /// Appends one run of this profile's fields to the pair list.
    #[verifier::rlimit(100)]
    fn push_pairs_e(&self, pairs: &mut Vec<(u64, String)>)
        ensures
            pairs_view(final(pairs)@) == pairs_view(old(pairs)@) + profile_pairs_e(self@),
    {
        let ghost before = pairs_view(pairs@);
        pairs.push((43, u64_to_string(self.spider_index as u64)));
        match &self.twitter_url {
            Option::None => {},
            Option::Some(u) => {
                pairs.push((44, u.0.clone()));
            },
        }
        match &self.twitch_url {
            Option::None => {},
            Option::Some(u) => {
                pairs.push((45, u.0.clone()));
            },
        }
        pairs.push((46, u64_to_string(self.diamonds as u64)));
        pairs.push((48, u64_to_string(self.death_effect_index as u64)));
        pairs.push((49, u64_to_string(self.mod_level.index() as u64)));
        pairs.push((50, u64_to_string(self.comment_history_state.index() as u64)));
        proof {
            assert(pairs_view(pairs@) =~~= before + profile_pairs_e(self@));
        }
    }

    /// Appends this profile's wire text to `out`, exactly as
    /// [`profile_encode_spec`] describes.
    #[verifier::rlimit(100)]
    pub fn write_robtop_data(&self, out: &mut String)
        ensures
            final(out)@ == old(out)@ + profile_encode_spec(self@),
    {
        let mut pairs: Vec<(u64, String)> = Vec::new();
        self.push_pairs_a(&mut pairs);
        self.push_pairs_b(&mut pairs);
        self.push_pairs_c(&mut pairs);
        self.push_pairs_d(&mut pairs);
        self.push_pairs_e(&mut pairs);
        proof {
            assert(pairs_view(pairs@) =~= profile_pairs_spec(self@));
        }
        let mut text = String::new();
        write_pairs(&mut text, &pairs, ':');
        out.append(text.as_str());
    }
}


/// Looking a tag up in a one-field pair list.
proof fn lemma_lookup_opt_pair(tag: u64, ov: Option<Seq<char>>, t: u64)
    ensures
        lookup_spec(opt_pair(tag, ov), t) == (if tag == t {
            ov
        } else {
            Option::<Seq<char>>::None
        }),
{
    match ov {
        Option::None => {
            assert(opt_pair(tag, ov) == Seq::<(u64, Seq<char>)>::empty());
            assert(lookup_spec(Seq::<(u64, Seq<char>)>::empty(), t) is None);
        },
        Option::Some(x) => {
            let s = seq![(tag, x)];
            assert(s[0].0 == tag);
            if tag == t {
            } else {
                assert(s.drop_first() =~= Seq::<(u64, Seq<char>)>::empty());
                assert(lookup_spec(Seq::<(u64, Seq<char>)>::empty(), t) is None);
            }
        },
    }
}

/// Every element of a concatenation keeps a separator-free value
/// when both parts do.
proof fn lemma_no_sep_concat(a: Seq<(u64, Seq<char>)>, b: Seq<(u64, Seq<char>)>, sep: char)
    requires
        forall|i: int| 0 <= i < a.len() ==> has_no_sep(#[trigger] a[i].1, sep),
        forall|i: int| 0 <= i < b.len() ==> has_no_sep(#[trigger] b[i].1, sep),
    ensures
        forall|i: int| 0 <= i < (a + b).len() ==> has_no_sep(#[trigger] (a + b)[i].1, sep),
{
    assert forall|i: int| 0 <= i < (a + b).len() implies has_no_sep((a + b)[i].1, sep) by {
        if i < a.len() {
            assert((a + b)[i] == a[i]);
        } else {
            assert((a + b)[i] == b[i - a.len()]);
        }
    }
}

/// A one-field pair list keeps a separator-free value when its field
/// does.
proof fn lemma_no_sep_opt_pair(tag: u64, ov: Option<Seq<char>>, sep: char)
    requires
        ov is Some ==> has_no_sep(ov->Some_0, sep),
    ensures
        forall|i: int|
            0 <= i < opt_pair(tag, ov).len() ==> has_no_sep(#[trigger] opt_pair(tag, ov)[i].1, sep),
{
    match ov {
        Option::None => {
        },
        Option::Some(x) => {
            assert(opt_pair(tag, ov)[0].1 == x);
        },
    }
}

/// Looking any tag up in a profile's emitted pairs finds exactly
/// the schema's text for that tag.
proof fn lemma_profile_lookup(v: ProfileV, t: u64)
    ensures
        lookup_spec(profile_pairs_spec(v), t) == profile_field_text(v, t),
{
    let op1 = opt_pair(1, profile_field_text(v, 1));
    let op2 = opt_pair(2, profile_field_text(v, 2));
    let op3 = opt_pair(3, profile_field_text(v, 3));
    let op4 = opt_pair(4, profile_field_text(v, 4));
    let op6 = opt_pair(6, profile_field_text(v, 6));
    let op7 = opt_pair(7, profile_field_text(v, 7));
    let op8 = opt_pair(8, profile_field_text(v, 8));
    let op9 = opt_pair(9, profile_field_text(v, 9));
    let op10 = opt_pair(10, profile_field_text(v, 10));
    let op11 = opt_pair(11, profile_field_text(v, 11));
    let op13 = opt_pair(13, profile_field_text(v, 13));
    let op14 = opt_pair(14, profile_field_text(v, 14));
    let op16 = opt_pair(16, profile_field_text(v, 16));
    let op17 = opt_pair(17, profile_field_text(v, 17));
    let op18 = opt_pair(18, profile_field_text(v, 18));
    let op19 = opt_pair(19, profile_field_text(v, 19));
    let op20 = opt_pair(20, profile_field_text(v, 20));
    let op21 = opt_pair(21, profile_field_text(v, 21));
    let op22 = opt_pair(22, profile_field_text(v, 22));
    let op23 = opt_pair(23, profile_field_text(v, 23));
    let op24 = opt_pair(24, profile_field_text(v, 24));
    let op25 = opt_pair(25, profile_field_text(v, 25));
    let op26 = opt_pair(26, profile_field_text(v, 26));
    let op28 = opt_pair(28, profile_field_text(v, 28));
    let op29 = opt_pair(29, profile_field_text(v, 29));
    let op30 = opt_pair(30, profile_field_text(v, 30));
    let op31 = opt_pair(31, profile_field_text(v, 31));
    let op38 = opt_pair(38, profile_field_text(v, 38));
    let op39 = opt_pair(39, profile_field_text(v, 39));
    let op40 = opt_pair(40, profile_field_text(v, 40));
    let op41 = opt_pair(41, profile_field_text(v, 41));
    let op42 = opt_pair(42, profile_field_text(v, 42));
    let op43 = opt_pair(43, profile_field_text(v, 43));
    let op44 = opt_pair(44, profile_field_text(v, 44));
    let op45 = opt_pair(45, profile_field_text(v, 45));
    let op46 = opt_pair(46, profile_field_text(v, 46));
    let op48 = opt_pair(48, profile_field_text(v, 48));
    let op49 = opt_pair(49, profile_field_text(v, 49));
    let op50 = opt_pair(50, profile_field_text(v, 50));
    let ra9 = op9;
    let ra8 = op8 + ra9;
    let ra7 = op7 + ra8;
    let ra6 = op6 + ra7;
    let ra4 = op4 + ra6;
    let ra3 = op3 + ra4;
    let ra2 = op2 + ra3;
    crate::codec::lemma_lookup_append(op1, ra2, t);
    crate::codec::lemma_lookup_append(op2, ra3, t);
    crate::codec::lemma_lookup_append(op3, ra4, t);
    crate::codec::lemma_lookup_append(op4, ra6, t);
    crate::codec::lemma_lookup_append(op6, ra7, t);
    crate::codec::lemma_lookup_append(op7, ra8, t);
    crate::codec::lemma_lookup_append(op8, ra9, t);
    assert(profile_pairs_a(v) == op1 + ra2);
    let rb19 = op19;
    let rb18 = op18 + rb19;
    let rb17 = op17 + rb18;
    let rb16 = op16 + rb17;
    let rb14 = op14 + rb16;
    let rb13 = op13 + rb14;
    let rb11 = op11 + rb13;
    crate::codec::lemma_lookup_append(op10, rb11, t);
    crate::codec::lemma_lookup_append(op11, rb13, t);
    crate::codec::lemma_lookup_append(op13, rb14, t);
    crate::codec::lemma_lookup_append(op14, rb16, t);
    crate::codec::lemma_lookup_append(op16, rb17, t);
    crate::codec::lemma_lookup_append(op17, rb18, t);
    crate::codec::lemma_lookup_append(op18, rb19, t);
    assert(profile_pairs_b(v) == op10 + rb11);
    let rc28 = op28;
    let rc26 = op26 + rc28;
    let rc25 = op25 + rc26;
    let rc24 = op24 + rc25;
    let rc23 = op23 + rc24;
    let rc22 = op22 + rc23;
    let rc21 = op21 + rc22;
    crate::codec::lemma_lookup_append(op20, rc21, t);
    crate::codec::lemma_lookup_append(op21, rc22, t);
    crate::codec::lemma_lookup_append(op22, rc23, t);
    crate::codec::lemma_lookup_append(op23, rc24, t);
    crate::codec::lemma_lookup_append(op24, rc25, t);
    crate::codec::lemma_lookup_append(op25, rc26, t);
    crate::codec::lemma_lookup_append(op26, rc28, t);
    assert(profile_pairs_c(v) == op20 + rc21);
    let rd42 = op42;
    let rd41 = op41 + rd42;
    let rd40 = op40 + rd41;
    let rd39 = op39 + rd40;
    let rd38 = op38 + rd39;
    let rd31 = op31 + rd38;
    let rd30 = op30 + rd31;
    crate::codec::lemma_lookup_append(op29, rd30, t);
    crate::codec::lemma_lookup_append(op30, rd31, t);
    crate::codec::lemma_lookup_append(op31, rd38, t);
    crate::codec::lemma_lookup_append(op38, rd39, t);
    crate::codec::lemma_lookup_append(op39, rd40, t);
    crate::codec::lemma_lookup_append(op40, rd41, t);
    crate::codec::lemma_lookup_append(op41, rd42, t);
    assert(profile_pairs_d(v) == op29 + rd30);
    let re50 = op50;
    let re49 = op49 + re50;
    let re48 = op48 + re49;
    let re46 = op46 + re48;
    let re45 = op45 + re46;
    let re44 = op44 + re45;
    crate::codec::lemma_lookup_append(op43, re44, t);
    crate::codec::lemma_lookup_append(op44, re45, t);
    crate::codec::lemma_lookup_append(op45, re46, t);
    crate::codec::lemma_lookup_append(op46, re48, t);
    crate::codec::lemma_lookup_append(op48, re49, t);
    crate::codec::lemma_lookup_append(op49, re50, t);
    assert(profile_pairs_e(v) == op43 + re44);
    let te = profile_pairs_e(v);
    let td = profile_pairs_d(v) + te;
    let tc = profile_pairs_c(v) + td;
    let tb = profile_pairs_b(v) + tc;
    crate::codec::lemma_lookup_append(profile_pairs_a(v), tb, t);
    crate::codec::lemma_lookup_append(profile_pairs_b(v), tc, t);
    crate::codec::lemma_lookup_append(profile_pairs_c(v), td, t);
    crate::codec::lemma_lookup_append(profile_pairs_d(v), te, t);
    lemma_lookup_opt_pair(1, profile_field_text(v, 1), t);
    lemma_lookup_opt_pair(2, profile_field_text(v, 2), t);
    lemma_lookup_opt_pair(3, profile_field_text(v, 3), t);
    lemma_lookup_opt_pair(4, profile_field_text(v, 4), t);
    lemma_lookup_opt_pair(6, profile_field_text(v, 6), t);
    lemma_lookup_opt_pair(7, profile_field_text(v, 7), t);
    lemma_lookup_opt_pair(8, profile_field_text(v, 8), t);
    lemma_lookup_opt_pair(9, profile_field_text(v, 9), t);
    lemma_lookup_opt_pair(10, profile_field_text(v, 10), t);
    lemma_lookup_opt_pair(11, profile_field_text(v, 11), t);
    lemma_lookup_opt_pair(13, profile_field_text(v, 13), t);
    lemma_lookup_opt_pair(14, profile_field_text(v, 14), t);
    lemma_lookup_opt_pair(16, profile_field_text(v, 16), t);
    lemma_lookup_opt_pair(17, profile_field_text(v, 17), t);
    lemma_lookup_opt_pair(18, profile_field_text(v, 18), t);
    lemma_lookup_opt_pair(19, profile_field_text(v, 19), t);
    lemma_lookup_opt_pair(20, profile_field_text(v, 20), t);
    lemma_lookup_opt_pair(21, profile_field_text(v, 21), t);
    lemma_lookup_opt_pair(22, profile_field_text(v, 22), t);
    lemma_lookup_opt_pair(23, profile_field_text(v, 23), t);
    lemma_lookup_opt_pair(24, profile_field_text(v, 24), t);
    lemma_lookup_opt_pair(25, profile_field_text(v, 25), t);
    lemma_lookup_opt_pair(26, profile_field_text(v, 26), t);
    lemma_lookup_opt_pair(28, profile_field_text(v, 28), t);
    lemma_lookup_opt_pair(29, profile_field_text(v, 29), t);
    lemma_lookup_opt_pair(30, profile_field_text(v, 30), t);
    lemma_lookup_opt_pair(31, profile_field_text(v, 31), t);
    lemma_lookup_opt_pair(38, profile_field_text(v, 38), t);
    lemma_lookup_opt_pair(39, profile_field_text(v, 39), t);
    lemma_lookup_opt_pair(40, profile_field_text(v, 40), t);
    lemma_lookup_opt_pair(41, profile_field_text(v, 41), t);
    lemma_lookup_opt_pair(42, profile_field_text(v, 42), t);
    lemma_lookup_opt_pair(43, profile_field_text(v, 43), t);
    lemma_lookup_opt_pair(44, profile_field_text(v, 44), t);
    lemma_lookup_opt_pair(45, profile_field_text(v, 45), t);
    lemma_lookup_opt_pair(46, profile_field_text(v, 46), t);
    lemma_lookup_opt_pair(48, profile_field_text(v, 48), t);
    lemma_lookup_opt_pair(49, profile_field_text(v, 49), t);
    lemma_lookup_opt_pair(50, profile_field_text(v, 50), t);
}

/// The record values a profile can round-trip with: its free-text
/// fields hold no separator and its enumerated fields are ones the
/// wire form can name again.
pub open spec fn profile_wf(v: ProfileV) -> bool {
    &&& has_no_sep(v.name, ':')
    &&& (v.time_since_score_update is Some ==> has_no_sep(v.time_since_score_update->Some_0, ':'))
    &&& (v.youtube_url is Some ==> has_no_sep(v.youtube_url->Some_0, ':'))
    &&& (v.twitter_url is Some ==> has_no_sep(v.twitter_url->Some_0, ':'))
    &&& (v.twitch_url is Some ==> has_no_sep(v.twitch_url->Some_0, ':'))
    &&& color_from_index_spec(color_index_spec(v.primary_color)) == v.primary_color
    &&& color_from_index_spec(color_index_spec(v.secondary_color)) == v.secondary_color
    &&& (v.icon_type is Some ==> icon_type_from_index_spec(icon_type_index_spec(v.icon_type->Some_0)) == v.icon_type->Some_0)
    &&& message_state_from_index_spec(message_state_index_spec(v.message_state)) == v.message_state
    &&& friends_state_from_index_spec(friends_state_index_spec(v.friends_state)) == v.friends_state
    &&& friend_state_from_index_spec(friend_state_index_spec(v.friend_state)) == v.friend_state
    &&& mod_level_from_index_spec(mod_level_index_spec(v.mod_level)) == v.mod_level
    &&& comment_history_state_from_index_spec(comment_history_state_index_spec(v.comment_history_state)) == v.comment_history_state
}

/// The round trip: decoding the encoding of a well-formed profile
/// succeeds and gives the profile back exactly.
#[verifier::rlimit(100)]
#[verifier::spinoff_prover]
pub proof fn lemma_profile_round_trip(v: ProfileV)
    requires
        profile_wf(v),
    ensures
        profile_decode_spec(profile_encode_spec(v)) == Result::<ProfileV, DecodeError>::Ok(v),
{
    let ps = profile_pairs_spec(v);
    assert(!crate::text::is_digit(':'));
    crate::text::lemma_dec_str_no_char(v.user_id as nat, ':');
    crate::text::lemma_dec_str_no_char(v.stars as nat, ':');
    crate::text::lemma_dec_str_no_char(v.demons as nat, ':');
    if v.leaderboard_position is Some {
        crate::text::lemma_dec_str_no_char((v.leaderboard_position->Some_0) as nat, ':');
    }
    if v.account_highlight is Some {
        crate::text::lemma_dec_str_no_char((v.account_highlight->Some_0) as nat, ':');
    }
    crate::text::lemma_dec_str_no_char(v.creator_points as nat, ':');
    if v.icon_id is Some {
        crate::text::lemma_dec_str_no_char((v.icon_id->Some_0) as nat, ':');
    }
    crate::text::lemma_dec_str_no_char(color_index_spec(v.primary_color) as nat, ':');
    crate::text::lemma_dec_str_no_char(color_index_spec(v.secondary_color) as nat, ':');
    crate::text::lemma_dec_str_no_char(v.secret_coins as nat, ':');
    if v.icon_type is Some {
        crate::text::lemma_dec_str_no_char(icon_type_index_spec(v.icon_type->Some_0) as nat, ':');
    }
    crate::text::lemma_dec_str_no_char(v.account_id as nat, ':');
    crate::text::lemma_dec_str_no_char(v.user_coins as nat, ':');
    crate::text::lemma_dec_str_no_char(message_state_index_spec(v.message_state) as nat, ':');
    crate::text::lemma_dec_str_no_char(friends_state_index_spec(v.friends_state) as nat, ':');
    crate::text::lemma_dec_str_no_char(v.cube_index as nat, ':');
    crate::text::lemma_dec_str_no_char(v.ship_index as nat, ':');
    crate::text::lemma_dec_str_no_char(v.ball_index as nat, ':');
    crate::text::lemma_dec_str_no_char(v.ufo_index as nat, ':');
    crate::text::lemma_dec_str_no_char(v.wave_index as nat, ':');
    crate::text::lemma_dec_str_no_char(v.robot_index as nat, ':');
    assert(has_no_sep(bool01_text_spec(v.has_glow), ':'));
    assert(has_no_sep(bool01_text_spec(v.is_registered), ':'));
    if v.global_rank is Some {
        crate::text::lemma_dec_str_no_char((v.global_rank->Some_0) as nat, ':');
    }
    crate::text::lemma_dec_str_no_char(friend_state_index_spec(v.friend_state) as nat, ':');
    if v.unread_messages_count is Some {
        crate::text::lemma_dec_str_no_char((v.unread_messages_count->Some_0) as nat, ':');
    }
    if v.unread_friend_request_count is Some {
        crate::text::lemma_dec_str_no_char((v.unread_friend_request_count->Some_0) as nat, ':');
    }
    if v.new_friends_count is Some {
        crate::text::lemma_dec_str_no_char((v.new_friends_count->Some_0) as nat, ':');
    }
    if v.new_friend_request is Some {
        assert(has_no_sep(bool01_text_spec(v.new_friend_request->Some_0), ':'));
    }
    crate::text::lemma_dec_str_no_char(v.spider_index as nat, ':');
    crate::text::lemma_dec_str_no_char(v.diamonds as nat, ':');
    crate::text::lemma_dec_str_no_char(v.death_effect_index as nat, ':');
    crate::text::lemma_dec_str_no_char(mod_level_index_spec(v.mod_level) as nat, ':');
    crate::text::lemma_dec_str_no_char(comment_history_state_index_spec(v.comment_history_state) as nat, ':');
    lemma_no_sep_opt_pair(1, profile_field_text(v, 1), ':');
    lemma_no_sep_opt_pair(2, profile_field_text(v, 2), ':');
    lemma_no_sep_opt_pair(3, profile_field_text(v, 3), ':');
    lemma_no_sep_opt_pair(4, profile_field_text(v, 4), ':');
    lemma_no_sep_opt_pair(6, profile_field_text(v, 6), ':');
    lemma_no_sep_opt_pair(7, profile_field_text(v, 7), ':');
    lemma_no_sep_opt_pair(8, profile_field_text(v, 8), ':');
    lemma_no_sep_opt_pair(9, profile_field_text(v, 9), ':');
    lemma_no_sep_opt_pair(10, profile_field_text(v, 10), ':');
    lemma_no_sep_opt_pair(11, profile_field_text(v, 11), ':');
    lemma_no_sep_opt_pair(13, profile_field_text(v, 13), ':');
    lemma_no_sep_opt_pair(14, profile_field_text(v, 14), ':');
    lemma_no_sep_opt_pair(16, profile_field_text(v, 16), ':');
    lemma_no_sep_opt_pair(17, profile_field_text(v, 17), ':');
    lemma_no_sep_opt_pair(18, profile_field_text(v, 18), ':');
    lemma_no_sep_opt_pair(19, profile_field_text(v, 19), ':');
    lemma_no_sep_opt_pair(20, profile_field_text(v, 20), ':');
    lemma_no_sep_opt_pair(21, profile_field_text(v, 21), ':');
    lemma_no_sep_opt_pair(22, profile_field_text(v, 22), ':');
    lemma_no_sep_opt_pair(23, profile_field_text(v, 23), ':');
    lemma_no_sep_opt_pair(24, profile_field_text(v, 24), ':');
    lemma_no_sep_opt_pair(25, profile_field_text(v, 25), ':');
    lemma_no_sep_opt_pair(26, profile_field_text(v, 26), ':');
    lemma_no_sep_opt_pair(28, profile_field_text(v, 28), ':');
    lemma_no_sep_opt_pair(29, profile_field_text(v, 29), ':');
    lemma_no_sep_opt_pair(30, profile_field_text(v, 30), ':');
    lemma_no_sep_opt_pair(31, profile_field_text(v, 31), ':');
    lemma_no_sep_opt_pair(38, profile_field_text(v, 38), ':');
    lemma_no_sep_opt_pair(39, profile_field_text(v, 39), ':');
    lemma_no_sep_opt_pair(40, profile_field_text(v, 40), ':');
    lemma_no_sep_opt_pair(41, profile_field_text(v, 41), ':');
    lemma_no_sep_opt_pair(42, profile_field_text(v, 42), ':');
    lemma_no_sep_opt_pair(43, profile_field_text(v, 43), ':');
    lemma_no_sep_opt_pair(44, profile_field_text(v, 44), ':');
    lemma_no_sep_opt_pair(45, profile_field_text(v, 45), ':');
    lemma_no_sep_opt_pair(46, profile_field_text(v, 46), ':');
    lemma_no_sep_opt_pair(48, profile_field_text(v, 48), ':');
    lemma_no_sep_opt_pair(49, profile_field_text(v, 49), ':');
    lemma_no_sep_opt_pair(50, profile_field_text(v, 50), ':');
    let op1 = opt_pair(1, profile_field_text(v, 1));
    let op2 = opt_pair(2, profile_field_text(v, 2));
    let op3 = opt_pair(3, profile_field_text(v, 3));
    let op4 = opt_pair(4, profile_field_text(v, 4));
    let op6 = opt_pair(6, profile_field_text(v, 6));
    let op7 = opt_pair(7, profile_field_text(v, 7));
    let op8 = opt_pair(8, profile_field_text(v, 8));
    let op9 = opt_pair(9, profile_field_text(v, 9));
    let op10 = opt_pair(10, profile_field_text(v, 10));
    let op11 = opt_pair(11, profile_field_text(v, 11));
    let op13 = opt_pair(13, profile_field_text(v, 13));
    let op14 = opt_pair(14, profile_field_text(v, 14));
    let op16 = opt_pair(16, profile_field_text(v, 16));
    let op17 = opt_pair(17, profile_field_text(v, 17));
    let op18 = opt_pair(18, profile_field_text(v, 18));
    let op19 = opt_pair(19, profile_field_text(v, 19));
    let op20 = opt_pair(20, profile_field_text(v, 20));
    let op21 = opt_pair(21, profile_field_text(v, 21));
    let op22 = opt_pair(22, profile_field_text(v, 22));
    let op23 = opt_pair(23, profile_field_text(v, 23));
    let op24 = opt_pair(24, profile_field_text(v, 24));
    let op25 = opt_pair(25, profile_field_text(v, 25));
    let op26 = opt_pair(26, profile_field_text(v, 26));
    let op28 = opt_pair(28, profile_field_text(v, 28));
    let op29 = opt_pair(29, profile_field_text(v, 29));
    let op30 = opt_pair(30, profile_field_text(v, 30));
    let op31 = opt_pair(31, profile_field_text(v, 31));
    let op38 = opt_pair(38, profile_field_text(v, 38));
    let op39 = opt_pair(39, profile_field_text(v, 39));
    let op40 = opt_pair(40, profile_field_text(v, 40));
    let op41 = opt_pair(41, profile_field_text(v, 41));
    let op42 = opt_pair(42, profile_field_text(v, 42));
    let op43 = opt_pair(43, profile_field_text(v, 43));
    let op44 = opt_pair(44, profile_field_text(v, 44));
    let op45 = opt_pair(45, profile_field_text(v, 45));
    let op46 = opt_pair(46, profile_field_text(v, 46));
    let op48 = opt_pair(48, profile_field_text(v, 48));
    let op49 = opt_pair(49, profile_field_text(v, 49));
    let op50 = opt_pair(50, profile_field_text(v, 50));
    let ra9 = op9;
    let ra8 = op8 + ra9;
    let ra7 = op7 + ra8;
    let ra6 = op6 + ra7;
    let ra4 = op4 + ra6;
    let ra3 = op3 + ra4;
    let ra2 = op2 + ra3;
    lemma_no_sep_concat(op8, ra9, ':');
    lemma_no_sep_concat(op7, ra8, ':');
    lemma_no_sep_concat(op6, ra7, ':');
    lemma_no_sep_concat(op4, ra6, ':');
    lemma_no_sep_concat(op3, ra4, ':');
    lemma_no_sep_concat(op2, ra3, ':');
    lemma_no_sep_concat(op1, ra2, ':');
    assert(profile_pairs_a(v) == op1 + ra2);
    assert(forall|i: int| 0 <= i < profile_pairs_a(v).len() ==> has_no_sep(#[trigger] profile_pairs_a(v)[i].1, ':'));
    let rb19 = op19;
    let rb18 = op18 + rb19;
    let rb17 = op17 + rb18;
    let rb16 = op16 + rb17;
    let rb14 = op14 + rb16;
    let rb13 = op13 + rb14;
    let rb11 = op11 + rb13;
    lemma_no_sep_concat(op18, rb19, ':');
    lemma_no_sep_concat(op17, rb18, ':');
    lemma_no_sep_concat(op16, rb17, ':');
    lemma_no_sep_concat(op14, rb16, ':');
    lemma_no_sep_concat(op13, rb14, ':');
    lemma_no_sep_concat(op11, rb13, ':');
    lemma_no_sep_concat(op10, rb11, ':');
    assert(profile_pairs_b(v) == op10 + rb11);
    assert(forall|i: int| 0 <= i < profile_pairs_b(v).len() ==> has_no_sep(#[trigger] profile_pairs_b(v)[i].1, ':'));
    let rc28 = op28;
    let rc26 = op26 + rc28;
    let rc25 = op25 + rc26;
    let rc24 = op24 + rc25;
    let rc23 = op23 + rc24;
    let rc22 = op22 + rc23;
    let rc21 = op21 + rc22;
    lemma_no_sep_concat(op26, rc28, ':');
    lemma_no_sep_concat(op25, rc26, ':');
    lemma_no_sep_concat(op24, rc25, ':');
    lemma_no_sep_concat(op23, rc24, ':');
    lemma_no_sep_concat(op22, rc23, ':');
    lemma_no_sep_concat(op21, rc22, ':');
    lemma_no_sep_concat(op20, rc21, ':');
    assert(profile_pairs_c(v) == op20 + rc21);
    assert(forall|i: int| 0 <= i < profile_pairs_c(v).len() ==> has_no_sep(#[trigger] profile_pairs_c(v)[i].1, ':'));
    let rd42 = op42;
    let rd41 = op41 + rd42;
    let rd40 = op40 + rd41;
    let rd39 = op39 + rd40;
    let rd38 = op38 + rd39;
    let rd31 = op31 + rd38;
    let rd30 = op30 + rd31;
    lemma_no_sep_concat(op41, rd42, ':');
    lemma_no_sep_concat(op40, rd41, ':');
    lemma_no_sep_concat(op39, rd40, ':');
    lemma_no_sep_concat(op38, rd39, ':');
    lemma_no_sep_concat(op31, rd38, ':');
    lemma_no_sep_concat(op30, rd31, ':');
    lemma_no_sep_concat(op29, rd30, ':');
    assert(profile_pairs_d(v) == op29 + rd30);
    assert(forall|i: int| 0 <= i < profile_pairs_d(v).len() ==> has_no_sep(#[trigger] profile_pairs_d(v)[i].1, ':'));
    let re50 = op50;
    let re49 = op49 + re50;
    let re48 = op48 + re49;
    let re46 = op46 + re48;
    let re45 = op45 + re46;
    let re44 = op44 + re45;
    lemma_no_sep_concat(op49, re50, ':');
    lemma_no_sep_concat(op48, re49, ':');
    lemma_no_sep_concat(op46, re48, ':');
    lemma_no_sep_concat(op45, re46, ':');
    lemma_no_sep_concat(op44, re45, ':');
    lemma_no_sep_concat(op43, re44, ':');
    assert(profile_pairs_e(v) == op43 + re44);
    assert(forall|i: int| 0 <= i < profile_pairs_e(v).len() ==> has_no_sep(#[trigger] profile_pairs_e(v)[i].1, ':'));
    let te = profile_pairs_e(v);
    let td = profile_pairs_d(v) + te;
    let tc = profile_pairs_c(v) + td;
    let tb = profile_pairs_b(v) + tc;
    lemma_no_sep_concat(profile_pairs_d(v), te, ':');
    lemma_no_sep_concat(profile_pairs_c(v), td, ':');
    lemma_no_sep_concat(profile_pairs_b(v), tc, ':');
    lemma_no_sep_concat(profile_pairs_a(v), tb, ':');
    assert(ps == profile_pairs_a(v) + tb);
    assert(forall|i: int| 0 <= i < ps.len() ==> has_no_sep(#[trigger] ps[i].1, ':'));
    lemma_profile_lookup(v, 1);
    assert(lookup_spec(ps, 1) is Some);
    assert(ps.len() >= 1);
    crate::codec::lemma_tokenize_join(ps, ':');
    lemma_profile_lookup(v, 1);
    lemma_profile_lookup(v, 2);
    lemma_profile_lookup(v, 3);
    lemma_profile_lookup(v, 4);
    lemma_profile_lookup(v, 6);
    lemma_profile_lookup(v, 7);
    lemma_profile_lookup(v, 8);
    lemma_profile_lookup(v, 9);
    lemma_profile_lookup(v, 10);
    lemma_profile_lookup(v, 11);
    lemma_profile_lookup(v, 13);
    lemma_profile_lookup(v, 14);
    lemma_profile_lookup(v, 16);
    lemma_profile_lookup(v, 17);
    lemma_profile_lookup(v, 18);
    lemma_profile_lookup(v, 19);
    lemma_profile_lookup(v, 20);
    lemma_profile_lookup(v, 21);
    lemma_profile_lookup(v, 22);
    lemma_profile_lookup(v, 23);
    lemma_profile_lookup(v, 24);
    lemma_profile_lookup(v, 25);
    lemma_profile_lookup(v, 26);
    lemma_profile_lookup(v, 28);
    lemma_profile_lookup(v, 29);
    lemma_profile_lookup(v, 30);
    lemma_profile_lookup(v, 31);
    lemma_profile_lookup(v, 38);
    lemma_profile_lookup(v, 39);
    lemma_profile_lookup(v, 40);
    lemma_profile_lookup(v, 41);
    lemma_profile_lookup(v, 42);
    lemma_profile_lookup(v, 43);
    lemma_profile_lookup(v, 44);
    lemma_profile_lookup(v, 45);
    lemma_profile_lookup(v, 46);
    lemma_profile_lookup(v, 48);
    lemma_profile_lookup(v, 49);
    lemma_profile_lookup(v, 50);
    crate::text::lemma_parse_dec_str_u64(v.user_id);
    crate::text::lemma_parse_dec_str_u64(v.stars as u64);
    assert(parse_u32_spec(dec_str(v.stars as nat)) == Option::Some(v.stars));
    crate::text::lemma_parse_dec_str_u64(v.demons as u64);
    assert(parse_u16_spec(dec_str(v.demons as nat)) == Option::Some(v.demons));
    if v.leaderboard_position is Some {
        crate::text::lemma_parse_dec_str_u64(v.leaderboard_position->Some_0);
    }
    if v.account_highlight is Some {
        crate::text::lemma_parse_dec_str_u64(v.account_highlight->Some_0);
    }
    crate::text::lemma_parse_dec_str_u64(v.creator_points as u64);
    assert(parse_u16_spec(dec_str(v.creator_points as nat)) == Option::Some(v.creator_points));
    if v.icon_id is Some {
        crate::text::lemma_parse_dec_str_u64(v.icon_id->Some_0 as u64);
        assert(parse_u16_spec(dec_str(v.icon_id->Some_0 as nat)) == Option::Some(v.icon_id->Some_0));
    }
    crate::text::lemma_parse_dec_str_u64(color_index_spec(v.primary_color) as u64);
    assert(parse_u8_spec(dec_str(color_index_spec(v.primary_color) as nat)) == Option::Some(color_index_spec(v.primary_color)));
    crate::text::lemma_parse_dec_str_u64(color_index_spec(v.secondary_color) as u64);
    assert(parse_u8_spec(dec_str(color_index_spec(v.secondary_color) as nat)) == Option::Some(color_index_spec(v.secondary_color)));
    crate::text::lemma_parse_dec_str_u64(v.secret_coins as u64);
    assert(parse_u8_spec(dec_str(v.secret_coins as nat)) == Option::Some(v.secret_coins));
    if v.icon_type is Some {
        crate::text::lemma_parse_dec_str_u64(icon_type_index_spec(v.icon_type->Some_0) as u64);
        assert(parse_u8_spec(dec_str(icon_type_index_spec(v.icon_type->Some_0) as nat)) == Option::Some(icon_type_index_spec(v.icon_type->Some_0)));
    }
    crate::text::lemma_parse_dec_str_u64(v.account_id);
    crate::text::lemma_parse_dec_str_u64(v.user_coins as u64);
    assert(parse_u16_spec(dec_str(v.user_coins as nat)) == Option::Some(v.user_coins));
    crate::text::lemma_parse_dec_str_u64(message_state_index_spec(v.message_state) as u64);
    assert(parse_u8_spec(dec_str(message_state_index_spec(v.message_state) as nat)) == Option::Some(message_state_index_spec(v.message_state)));
    crate::text::lemma_parse_dec_str_u64(friends_state_index_spec(v.friends_state) as u64);
    assert(parse_u8_spec(dec_str(friends_state_index_spec(v.friends_state) as nat)) == Option::Some(friends_state_index_spec(v.friends_state)));
    crate::text::lemma_parse_dec_str_u64(v.cube_index as u64);
    assert(parse_u16_spec(dec_str(v.cube_index as nat)) == Option::Some(v.cube_index));
    crate::text::lemma_parse_dec_str_u64(v.ship_index as u64);
    assert(parse_u8_spec(dec_str(v.ship_index as nat)) == Option::Some(v.ship_index));
    crate::text::lemma_parse_dec_str_u64(v.ball_index as u64);
    assert(parse_u8_spec(dec_str(v.ball_index as nat)) == Option::Some(v.ball_index));
    crate::text::lemma_parse_dec_str_u64(v.ufo_index as u64);
    assert(parse_u8_spec(dec_str(v.ufo_index as nat)) == Option::Some(v.ufo_index));
    crate::text::lemma_parse_dec_str_u64(v.wave_index as u64);
    assert(parse_u8_spec(dec_str(v.wave_index as nat)) == Option::Some(v.wave_index));
    crate::text::lemma_parse_dec_str_u64(v.robot_index as u64);
    assert(parse_u8_spec(dec_str(v.robot_index as nat)) == Option::Some(v.robot_index));
    assert(parse_bool01_spec(bool01_text_spec(v.has_glow)) == Option::Some(v.has_glow));
    assert(parse_bool01_spec(bool01_text_spec(v.is_registered)) == Option::Some(v.is_registered));
    if v.global_rank is Some {
        crate::text::lemma_parse_dec_str_u64(v.global_rank->Some_0 as u64);
        assert(parse_u32_spec(dec_str(v.global_rank->Some_0 as nat)) == Option::Some(v.global_rank->Some_0));
    }
    crate::text::lemma_parse_dec_str_u64(friend_state_index_spec(v.friend_state) as u64);
    assert(parse_u8_spec(dec_str(friend_state_index_spec(v.friend_state) as nat)) == Option::Some(friend_state_index_spec(v.friend_state)));
    if v.unread_messages_count is Some {
        crate::text::lemma_parse_dec_str_u64(v.unread_messages_count->Some_0 as u64);
        assert(parse_u32_spec(dec_str(v.unread_messages_count->Some_0 as nat)) == Option::Some(v.unread_messages_count->Some_0));
    }
    if v.unread_friend_request_count is Some {
        crate::text::lemma_parse_dec_str_u64(v.unread_friend_request_count->Some_0 as u64);
        assert(parse_u32_spec(dec_str(v.unread_friend_request_count->Some_0 as nat)) == Option::Some(v.unread_friend_request_count->Some_0));
    }
    if v.new_friends_count is Some {
        crate::text::lemma_parse_dec_str_u64(v.new_friends_count->Some_0 as u64);
        assert(parse_u32_spec(dec_str(v.new_friends_count->Some_0 as nat)) == Option::Some(v.new_friends_count->Some_0));
    }
    if v.new_friend_request is Some {
        assert(parse_bool01_spec(bool01_text_spec(v.new_friend_request->Some_0)) == Option::Some(v.new_friend_request->Some_0));
    }
    crate::text::lemma_parse_dec_str_u64(v.spider_index as u64);
    assert(parse_u8_spec(dec_str(v.spider_index as nat)) == Option::Some(v.spider_index));
    crate::text::lemma_parse_dec_str_u64(v.diamonds as u64);
    assert(parse_u16_spec(dec_str(v.diamonds as nat)) == Option::Some(v.diamonds));
    crate::text::lemma_parse_dec_str_u64(v.death_effect_index as u64);
    assert(parse_u8_spec(dec_str(v.death_effect_index as nat)) == Option::Some(v.death_effect_index));
    crate::text::lemma_parse_dec_str_u64(mod_level_index_spec(v.mod_level) as u64);
    assert(parse_u8_spec(dec_str(mod_level_index_spec(v.mod_level) as nat)) == Option::Some(mod_level_index_spec(v.mod_level)));
    crate::text::lemma_parse_dec_str_u64(comment_history_state_index_spec(v.comment_history_state) as u64);
    assert(parse_u8_spec(dec_str(comment_history_state_index_spec(v.comment_history_state) as nat)) == Option::Some(comment_history_state_index_spec(v.comment_history_state)));
    assert(profile_from_pairs(ps) is Ok);
    assert(profile_from_pairs(ps)->Ok_0 =~= v);
}

/// Encodes `p` and decodes the text back, demonstrating the round
/// trip executably.
pub fn profile_round_trip(p: &Profile) -> (d: Profile)
    requires
        profile_wf(p@),
    ensures
        d@ == p@,
{
    let mut out = String::new();
    p.write_robtop_data(&mut out);
    proof {
        lemma_profile_round_trip(p@);
    }
    match Profile::from_robtop_str(out.as_str()) {
        Ok(d) => d,
        Err(_) => vstd::pervasive::unreached(),
    }
}

} // verus!
