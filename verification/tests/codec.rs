use dash_rs::codec::{tokenize, SeparatorConfig};
use dash_rs::color::Color;
use dash_rs::comment::{
    comment_round_trip, comment_user_round_trip, CommentUser, LevelComment,
};
use dash_rs::error::DecodeError;
use dash_rs::profile::{profile_round_trip, Profile, Twitch, Youtube};
use dash_rs::thunk::{Policy, Thunk};
use dash_rs::user::{
    CommentHistoryState, FriendState, FriendsState, IconType, MessageState, ModLevel,
};

const COMMENT_TEXT: &str = "2~aGVsbG8=~3~1234~4~56~6~999~9~2 days~10~45~11~1~12~255,0,0";

#[test]
fn tokenizer_example() {
    let mut comment = LevelComment::from_robtop_str(COMMENT_TEXT).unwrap();

    assert_eq!(comment.user_id, 1234);
    assert_eq!(comment.likes, 56);
    assert_eq!(comment.comment_id, 999);
    assert_eq!(comment.is_flagged_spam, None);
    assert_eq!(comment.time_since_post, "2 days");
    assert_eq!(comment.progress, Some(45));
    assert_eq!(comment.mod_level, Some(ModLevel::Normal));
    assert_eq!(comment.special_color, Some(Color::Known(255, 0, 0)));
    assert_eq!(comment.user, None);

    let content = comment.content.as_mut().unwrap();
    content.force(Policy::Base64).unwrap();
    assert_eq!(content.processed_value(), "hello");
}

#[test]
fn unknown_tag_tolerance() {
    let with_extra = "2~aGVsbG8=~3~1234~4~56~6~999~5~whatever~9~2 days~10~45~11~1~12~255,0,0";
    let plain = LevelComment::from_robtop_str(COMMENT_TEXT).unwrap();
    let tolerant = LevelComment::from_robtop_str(with_extra).unwrap();
    assert_eq!(plain, tolerant);

    let extra_at_end = format!("{}~999~x", COMMENT_TEXT);
    assert_eq!(plain, LevelComment::from_robtop_str(&extra_at_end).unwrap());
}

#[test]
fn missing_required_field() {
    let without_user_id = "2~aGVsbG8=~4~56~6~999~9~2 days~10~45~11~1~12~255,0,0";
    assert_eq!(
        LevelComment::from_robtop_str(without_user_id),
        Err(DecodeError::MissingRequiredField(3))
    );
}

#[test]
fn value_parse_failure_names_tag() {
    let bad_user_id = "3~abc~4~56~6~999~9~2 days";
    assert_eq!(
        LevelComment::from_robtop_str(bad_user_id),
        Err(DecodeError::ValueParse(3))
    );
    let bad_color = "3~1~4~56~6~999~9~2 days~12~255,0";
    assert_eq!(
        LevelComment::from_robtop_str(bad_color),
        Err(DecodeError::ValueParse(12))
    );
}

#[test]
fn tokenization_failures() {
    // An odd token count.
    assert_eq!(
        LevelComment::from_robtop_str("2~a~3"),
        Err(DecodeError::Tokenization)
    );
    // A non-numeric tag.
    assert_eq!(
        LevelComment::from_robtop_str("x~a"),
        Err(DecodeError::Tokenization)
    );
}

#[test]
fn lazy_value_fidelity() {
    // Never forced: serializes back to exactly the original text.
    let thunk = Thunk::from_raw(String::from("aGVsbG8="));
    let mut out = String::new();
    thunk.write(&mut out, Policy::Base64);
    assert_eq!(out, "aGVsbG8=");

    // Forced and re-serialized: the canonical encoding of the value.
    let mut forced = thunk.clone();
    forced.force(Policy::Base64).unwrap();
    assert_eq!(forced.processed_value(), "hello");
    let mut out2 = String::new();
    forced.write(&mut out2, Policy::Base64);
    assert_eq!(out2, "aGVsbG8=");
}

#[test]
fn force_failure_keeps_state() {
    let mut thunk = Thunk::from_raw(String::from("not base64!"));
    assert_eq!(thunk.force(Policy::Base64), Err(DecodeError::SecondaryDecode));
    assert_eq!(thunk, Thunk::from_raw(String::from("not base64!")));
}

#[test]
fn comment_round_trip_concrete() {
    let comment = LevelComment {
        user: None,
        content: Some(Thunk::from_value(String::from("nice level"))),
        user_id: 42,
        likes: -3,
        comment_id: 77,
        is_flagged_spam: Some(true),
        time_since_post: String::from("1 year"),
        progress: Some(100),
        mod_level: Some(ModLevel::Elder),
        special_color: Some(Color::Known(0, 255, 0)),
    };
    let back = comment_round_trip(&comment);
    assert_eq!(back.user_id, 42);
    assert_eq!(back.likes, -3);
    assert_eq!(back.comment_id, 77);
    assert_eq!(back.is_flagged_spam, Some(true));
    assert_eq!(back.time_since_post, "1 year");
    assert_eq!(back.progress, Some(100));
    assert_eq!(back.mod_level, Some(ModLevel::Elder));
    assert_eq!(back.special_color, Some(Color::Known(0, 255, 0)));
    let mut content = back.content.unwrap();
    content.force(Policy::Base64).unwrap();
    assert_eq!(content.processed_value(), "nice level");
}

#[test]
fn comment_user_round_trip_concrete() {
    let user = CommentUser {
        name: String::from("TestUser"),
        icon_index: 14,
        primary_color: Color::Known(255, 0, 0),
        secondary_color: Color::Known(0, 0, 0),
        icon_type: IconType::Spider,
        has_glow: true,
        account_id: Some(57903),
    };
    let back = comment_user_round_trip(&user);
    assert_eq!(back, user);
}

#[test]
fn profile_round_trip_concrete() {
    let profile = Profile {
        name: String::from("Ryder"),
        user_id: 2,
        stars: 5000,
        demons: 12,
        leaderboard_position: None,
        account_highlight: None,
        creator_points: 3,
        icon_id: Some(22),
        primary_color: Color::Known(125, 255, 0),
        secondary_color: Color::Known(0, 0, 255),
        secret_coins: 100,
        icon_type: Some(IconType::Cube),
        account_id: 57903,
        user_coins: 250,
        message_state: MessageState::FriendsOnly,
        friends_state: FriendsState::Anyone,
        youtube_url: Some(Youtube(String::from("UCabc"))),
        cube_index: 1,
        ship_index: 2,
        ball_index: 3,
        ufo_index: 4,
        wave_index: 5,
        robot_index: 6,
        has_glow: true,
        is_registered: true,
        global_rank: Some(1234),
        friend_state: FriendState::NoRequest,
        unread_messages_count: None,
        unread_friend_request_count: Some(2),
        new_friends_count: None,
        new_friend_request: Some(false),
        time_since_score_update: Some(String::from("3 months")),
        spider_index: 7,
        twitter_url: None,
        twitch_url: Some(Twitch(String::from("ryder"))),
        diamonds: 90,
        death_effect_index: 8,
        mod_level: ModLevel::NotModerator,
        comment_history_state: CommentHistoryState::Anyone,
    };
    let back = profile_round_trip(&profile);
    assert_eq!(back, profile);
}

#[test]
fn profile_decode_example() {
    let text = "1:Ryder:2:2:3:5000:4:12:8:3:10:9:11:5:13:100:16:57903:17:250:18:1:19:0:21:1:22:2:23:3:24:4:25:5:26:6:28:1:29:1:31:0:43:7:46:90:48:8:49:0:50:0";
    let profile = Profile::from_robtop_str(text).unwrap();
    assert_eq!(profile.name, "Ryder");
    assert_eq!(profile.stars, 5000);
    assert_eq!(profile.primary_color, Color::Known(255, 0, 0));
    assert_eq!(profile.secondary_color, Color::Known(0, 0, 255));
    assert_eq!(profile.message_state, MessageState::FriendsOnly);
    assert_eq!(profile.mod_level, ModLevel::NotModerator);
    assert_eq!(profile.youtube_url, None);
    assert_eq!(
        Profile::from_robtop_str("2:2"),
        Err(DecodeError::MissingRequiredField(1))
    );
}

#[test]
fn dual_separator_mode() {
    let cfg = SeparatorConfig {
        inter_field: ',',
        tag_value: Some(':'),
    };
    let pairs = tokenize("1:abc,2:de:f", cfg).unwrap();
    assert_eq!(pairs.len(), 2);
    assert_eq!(pairs[0], (1, String::from("abc")));
    // Only the first tag/value separator splits; the rest is value text.
    assert_eq!(pairs[1], (2, String::from("de:f")));
    // A field without the tag/value separator is malformed.
    assert_eq!(tokenize("1abc", cfg), Err(DecodeError::Tokenization));
}

#[test]
fn alternating_mode_keeps_empty_values() {
    let cfg = SeparatorConfig {
        inter_field: '~',
        tag_value: None,
    };
    let pairs = tokenize("9~~3~1", cfg).unwrap();
    assert_eq!(pairs, vec![(9, String::new()), (3, String::from("1"))]);
}

#[test]
fn social_media_urls() {
    assert_eq!(
        Youtube(String::from("UCabc")).url(),
        "https://www.youtube.com/channel/UCabc"
    );
    assert_eq!(Twitch(String::from("ryder")).url(), "https://www.twitch.tv/ryder");
    assert_eq!(
        dash_rs::profile::Twitter(String::from("ryder")).url(),
        "https://www.twitter.com/ryder"
    );
}

#[test]
fn color_and_enum_wire_values() {
    assert_eq!(Color::from_index(9), Color::Known(255, 0, 0));
    assert_eq!(Color::from_index(200), Color::Unknown(200));
    assert_eq!(Color::Known(255, 0, 0).index(), 9);
    assert_eq!(Color::Unknown(200).index(), 200);
    assert_eq!(ModLevel::from_index(2), ModLevel::Elder);
    assert_eq!(ModLevel::from_index(9).index(), 9);
    assert_eq!(IconType::from_index(6), IconType::Spider);
    assert_eq!(MessageState::from_index(2), MessageState::NoOne);
    assert_eq!(FriendsState::from_index(1), FriendsState::NoOne);
    assert_eq!(FriendState::from_index(4), FriendState::RequestPendingByUser);
    assert_eq!(CommentHistoryState::from_index(1), CommentHistoryState::FriendsOnly);
}
