//! Level comments and the user header attached to them, in the
//! tilde-separated alternating wire format.

use vstd::prelude::*;

use crate::codec::{
    bool01_text, bool01_text_spec, bool20_text, bool20_text_spec, has_no_sep, join_pairs, lookup,
    lookup_spec, pairs_view, parse_bool01, parse_bool01_spec, parse_bool20, parse_bool20_spec,
    tokenize, tokenize_spec, write_pairs, SeparatorConfig,
};
use crate::color::{
    color_from_index_spec, color_index_spec, color_text, color_text_spec, parse_color,
    parse_color_spec, Color,
};
use crate::encodings::is_b64_std_char;
use crate::error::DecodeError;
use crate::text::{
    dec_str, dec_str_signed, i32_to_string, parse_i32, parse_i32_spec, parse_u16, parse_u16_spec,
    parse_u64, parse_u64_spec, parse_u8, parse_u8_spec, str_to_chars, u64_to_string,
};
use crate::thunk::{policy_decode_spec, policy_encode_spec, Policy, Thunk, ThunkV};
use crate::user::{
    icon_type_from_index_spec, icon_type_index_spec, mod_level_from_index_spec,
    mod_level_index_spec, IconType, ModLevel,
};

verus! {

/// The separator configuration comment-shaped records use: a tilde
/// in alternating mode.
pub open spec fn comment_separators() -> SeparatorConfig {
    SeparatorConfig { inter_field: '~', tag_value: Option::None }
}

/// Builds the comment separator configuration.
pub fn comment_separator_config() -> (c: SeparatorConfig)
    ensures
        c == comment_separators(),
{
    SeparatorConfig { inter_field: '~', tag_value: None }
}

/// One comment posted under a level.
#[derive(Debug, Clone, PartialEq, Eq)]
pub struct LevelComment {
    /// The user that made the comment, when the surrounding response
    /// supplies one; never part of this record's own wire text.
    pub user: Option<CommentUser>,
    /// The comment body, base64-encoded on the wire; tag `2`.
    pub content: Option<Thunk>,
    /// The unique user id of the poster; tag `3`.
    pub user_id: u64,
    /// The likes the comment has received; tag `4`.
    pub likes: i32,
    /// The unique id of the comment; tag `6`.
    pub comment_id: u64,
    /// Whether the comment was flagged as spam; tag `7`.
    pub is_flagged_spam: Option<bool>,
    /// The service's textual age of the comment; tag `9`.
    pub time_since_post: String,
    /// The level progress shown on the comment; tag `10`.
    pub progress: Option<u8>,
    /// The poster's moderator level; tag `11`.
    pub mod_level: Option<ModLevel>,
    /// The special text color of the comment; tag `12`, as an `R,G,B`
    /// triple.
    pub special_color: Option<Color>,
}

/// The mathematical view of a level comment.
#[verifier::ext_equal]
pub struct LevelCommentV {
    /// See [`LevelComment::user`].
    pub user: Option<CommentUserV>,
    /// See [`LevelComment::content`].
    pub content: Option<ThunkV>,
    /// See [`LevelComment::user_id`].
    pub user_id: u64,
    /// See [`LevelComment::likes`].
    pub likes: i32,
    /// See [`LevelComment::comment_id`].
    pub comment_id: u64,
    /// See [`LevelComment::is_flagged_spam`].
    pub is_flagged_spam: Option<bool>,
    /// See [`LevelComment::time_since_post`].
    pub time_since_post: Seq<char>,
    /// See [`LevelComment::progress`].
    pub progress: Option<u8>,
    /// See [`LevelComment::mod_level`].
    pub mod_level: Option<ModLevel>,
    /// See [`LevelComment::special_color`].
    pub special_color: Option<Color>,
}

impl View for LevelComment {
    type V = LevelCommentV;

    open spec fn view(&self) -> LevelCommentV {
        LevelCommentV {
            user: match self.user {
                Option::None => Option::None,
                Option::Some(u) => Option::Some(u@),
            },
            content: match self.content {
                Option::None => Option::None,
                Option::Some(t) => Option::Some(t@),
            },
            user_id: self.user_id,
            likes: self.likes,
            comment_id: self.comment_id,
            is_flagged_spam: self.is_flagged_spam,
            time_since_post: self.time_since_post@,
            progress: self.progress,
            mod_level: self.mod_level,
            special_color: self.special_color,
        }
    }
}

/// The user header shown beside a comment.
#[derive(Debug, Clone, PartialEq, Eq)]
pub struct CommentUser {
    /// The user's name; tag `1`.
    pub name: String,
    /// The index of the displayed icon; tag `9`.
    pub icon_index: u16,
    /// The user's primary color; tag `10`, as a color index.
    pub primary_color: Color,
    /// The user's secondary color; tag `11`, as a color index.
    pub secondary_color: Color,
    /// The type of the displayed icon; tag `14`.
    pub icon_type: IconType,
    /// Whether the user has glow enabled; tag `15`, with true spelled
    /// `"2"`.
    pub has_glow: bool,
    /// The user's account id; tag `16`.
    pub account_id: Option<u64>,
}

/// The mathematical view of a comment's user header.
#[verifier::ext_equal]
pub struct CommentUserV {
    /// See [`CommentUser::name`].
    pub name: Seq<char>,
    /// See [`CommentUser::icon_index`].
    pub icon_index: u16,
    /// See [`CommentUser::primary_color`].
    pub primary_color: Color,
    /// See [`CommentUser::secondary_color`].
    pub secondary_color: Color,
    /// See [`CommentUser::icon_type`].
    pub icon_type: IconType,
    /// See [`CommentUser::has_glow`].
    pub has_glow: bool,
    /// See [`CommentUser::account_id`].
    pub account_id: Option<u64>,
}

impl View for CommentUser {
    type V = CommentUserV;

    open spec fn view(&self) -> CommentUserV {
        CommentUserV {
            name: self.name@,
            icon_index: self.icon_index,
            primary_color: self.primary_color,
            secondary_color: self.secondary_color,
            icon_type: self.icon_type,
            has_glow: self.has_glow,
            account_id: self.account_id,
        }
    }
}

/// What resolving a comment's tag/value pairs against its schema
/// yields.  Fields are checked in declared tag order: a required tag
/// that is absent names itself in the error; a present value that
/// does not parse as its declared kind does too.  Pairs whose tag
/// the schema does not declare are dropped.
pub open spec fn comment_from_pairs(ps: Seq<(u64, Seq<char>)>) -> Result<
    LevelCommentV,
    DecodeError,
> {
    if lookup_spec(ps, 3) is None {
        Result::Err(DecodeError::MissingRequiredField(3))
    } else if parse_u64_spec(lookup_spec(ps, 3)->Some_0) is None {
        Result::Err(DecodeError::ValueParse(3))
    } else if lookup_spec(ps, 4) is None {
        Result::Err(DecodeError::MissingRequiredField(4))
    } else if parse_i32_spec(lookup_spec(ps, 4)->Some_0) is None {
        Result::Err(DecodeError::ValueParse(4))
    } else if lookup_spec(ps, 6) is None {
        Result::Err(DecodeError::MissingRequiredField(6))
    } else if parse_u64_spec(lookup_spec(ps, 6)->Some_0) is None {
        Result::Err(DecodeError::ValueParse(6))
    } else if lookup_spec(ps, 7) is Some && parse_bool01_spec(lookup_spec(ps, 7)->Some_0)
        is None {
        Result::Err(DecodeError::ValueParse(7))
    } else if lookup_spec(ps, 9) is None {
        Result::Err(DecodeError::MissingRequiredField(9))
    } else if lookup_spec(ps, 10) is Some && parse_u8_spec(lookup_spec(ps, 10)->Some_0)
        is None {
        Result::Err(DecodeError::ValueParse(10))
    } else if lookup_spec(ps, 11) is Some && parse_u8_spec(lookup_spec(ps, 11)->Some_0)
        is None {
        Result::Err(DecodeError::ValueParse(11))
    } else if lookup_spec(ps, 12) is Some && parse_color_spec(lookup_spec(ps, 12)->Some_0)
        is None {
        Result::Err(DecodeError::ValueParse(12))
    } else {
        Result::Ok(
            LevelCommentV {
                user: Option::None,
                content: match lookup_spec(ps, 2) {
                    Option::None => Option::None,
                    Option::Some(raw) => Option::Some(ThunkV::Unprocessed(raw)),
                },
                user_id: parse_u64_spec(lookup_spec(ps, 3)->Some_0)->Some_0,
                likes: parse_i32_spec(lookup_spec(ps, 4)->Some_0)->Some_0,
                comment_id: parse_u64_spec(lookup_spec(ps, 6)->Some_0)->Some_0,
                is_flagged_spam: match lookup_spec(ps, 7) {
                    Option::None => Option::None,
                    Option::Some(t) => Option::Some(parse_bool01_spec(t)->Some_0),
                },
                time_since_post: lookup_spec(ps, 9)->Some_0,
                progress: match lookup_spec(ps, 10) {
                    Option::None => Option::None,
                    Option::Some(t) => Option::Some(parse_u8_spec(t)->Some_0),
                },
                mod_level: match lookup_spec(ps, 11) {
                    Option::None => Option::None,
                    Option::Some(t) => Option::Some(
                        mod_level_from_index_spec(parse_u8_spec(t)->Some_0),
                    ),
                },
                special_color: match lookup_spec(ps, 12) {
                    Option::None => Option::None,
                    Option::Some(t) => Option::Some(parse_color_spec(t)->Some_0),
                },
            },
        )
    }
}

/// What decoding a comment's wire text yields: tokenization first,
/// then schema resolution; all-or-nothing.
pub open spec fn comment_decode_spec(s: Seq<char>) -> Result<LevelCommentV, DecodeError> {
    match tokenize_spec(s, comment_separators()) {
        Option::None => Result::Err(DecodeError::Tokenization),
        Option::Some(ps) => comment_from_pairs(ps),
    }
}

/// A pair list holding one tagged value, or nothing.
pub open spec fn opt_pair(tag: u64, v: Option<Seq<char>>) -> Seq<(u64, Seq<char>)> {
    match v {
        Option::None => Seq::empty(),
        Option::Some(t) => seq![(tag, t)],
    }
}

/// The tag/value pairs a comment serializes to, in declared schema
/// order; absent optional fields emit nothing.
pub open spec fn comment_pairs_spec(v: LevelCommentV) -> Seq<(u64, Seq<char>)> {
    opt_pair(2, comment_field_text(v, 2)) + (opt_pair(3, comment_field_text(v, 3)) + (opt_pair(
        4,
        comment_field_text(v, 4),
    ) + (opt_pair(6, comment_field_text(v, 6)) + (opt_pair(7, comment_field_text(v, 7)) + (
    opt_pair(9, comment_field_text(v, 9)) + (opt_pair(10, comment_field_text(v, 10)) + (opt_pair(
        11,
        comment_field_text(v, 11),
    ) + opt_pair(12, comment_field_text(v, 12)))))))))
}

/// The wire text a comment's schema emits for one tag: the value for
/// a present field, nothing for an absent optional field or an
/// undeclared tag.
pub open spec fn comment_field_text(v: LevelCommentV, t: u64) -> Option<Seq<char>> {
    if t == 2 {
        match v.content {
            Option::None => Option::None,
            Option::Some(c) => Option::Some(c.serialized(Policy::Base64)),
        }
    } else if t == 3 {
        Option::Some(dec_str(v.user_id as nat))
    } else if t == 4 {
        Option::Some(dec_str_signed(v.likes as int))
    } else if t == 6 {
        Option::Some(dec_str(v.comment_id as nat))
    } else if t == 7 {
        match v.is_flagged_spam {
            Option::None => Option::None,
            Option::Some(b) => Option::Some(bool01_text_spec(b)),
        }
    } else if t == 9 {
        Option::Some(v.time_since_post)
    } else if t == 10 {
        match v.progress {
            Option::None => Option::None,
            Option::Some(p) => Option::Some(dec_str(p as nat)),
        }
    } else if t == 11 {
        match v.mod_level {
            Option::None => Option::None,
            Option::Some(m) => Option::Some(dec_str(mod_level_index_spec(m) as nat)),
        }
    } else if t == 12 {
        match v.special_color {
            Option::None => Option::None,
            Option::Some(c) => Option::Some(color_text_spec(c)),
        }
    } else {
        Option::None
    }
}

/// The wire text a comment serializes to.
pub open spec fn comment_encode_spec(v: LevelCommentV) -> Seq<char> {
    join_pairs(comment_pairs_spec(v), '~')
}

impl LevelComment {
    /// Decodes a comment from its wire text, exactly as
    /// [`comment_decode_spec`] describes: the record on success, and
    /// the first schema error in declared tag order otherwise.
    pub fn from_robtop_str(s: &str) -> (r: Result<LevelComment, DecodeError>)
        ensures
            match (r, comment_decode_spec(s@)) {
                (Result::Ok(c), Result::Ok(v)) => c@ == v,
                (Result::Err(e), Result::Err(f)) => e == f,
                _ => false,
            },
    {
        let pairs = match tokenize(s, comment_separator_config()) {
            Ok(p) => p,
            Err(e) => {
                return Err(e);
            },
        };
        let ghost psv = pairs_view(pairs@);
        let content: Option<Thunk> = match lookup(&pairs, 2) {
            Option::None => None,
            Option::Some(i) => Some(Thunk::from_raw(pairs[i].1.clone())),
        };
        let user_id: u64 = match lookup(&pairs, 3) {
            Option::None => {
                return Err(DecodeError::MissingRequiredField(3));
            },
            Option::Some(i) => match parse_u64(&str_to_chars(pairs[i].1.as_str())) {
                Option::None => {
                    return Err(DecodeError::ValueParse(3));
                },
                Option::Some(v) => v,
            },
        };
        let likes: i32 = match lookup(&pairs, 4) {
            Option::None => {
                return Err(DecodeError::MissingRequiredField(4));
            },
            Option::Some(i) => match parse_i32(&str_to_chars(pairs[i].1.as_str())) {
                Option::None => {
                    return Err(DecodeError::ValueParse(4));
                },
                Option::Some(v) => v,
            },
        };
        let comment_id: u64 = match lookup(&pairs, 6) {
            Option::None => {
                return Err(DecodeError::MissingRequiredField(6));
            },
            Option::Some(i) => match parse_u64(&str_to_chars(pairs[i].1.as_str())) {
                Option::None => {
                    return Err(DecodeError::ValueParse(6));
                },
                Option::Some(v) => v,
            },
        };
        let is_flagged_spam: Option<bool> = match lookup(&pairs, 7) {
            Option::None => None,
            Option::Some(i) => match parse_bool01(pairs[i].1.as_str()) {
                Option::None => {
                    return Err(DecodeError::ValueParse(7));
                },
                Option::Some(b) => Some(b),
            },
        };
        let time_since_post: String = match lookup(&pairs, 9) {
            Option::None => {
                return Err(DecodeError::MissingRequiredField(9));
            },
            Option::Some(i) => pairs[i].1.clone(),
        };
        let progress: Option<u8> = match lookup(&pairs, 10) {
            Option::None => None,
            Option::Some(i) => match parse_u8(&str_to_chars(pairs[i].1.as_str())) {
                Option::None => {
                    return Err(DecodeError::ValueParse(10));
                },
                Option::Some(v) => Some(v),
            },
        };
        let mod_level: Option<ModLevel> = match lookup(&pairs, 11) {
            Option::None => None,
            Option::Some(i) => match parse_u8(&str_to_chars(pairs[i].1.as_str())) {
                Option::None => {
                    return Err(DecodeError::ValueParse(11));
                },
                Option::Some(v) => Some(ModLevel::from_index(v)),
            },
        };
        let special_color: Option<Color> = match lookup(&pairs, 12) {
            Option::None => None,
            Option::Some(i) => match parse_color(pairs[i].1.as_str()) {
                Option::None => {
                    return Err(DecodeError::ValueParse(12));
                },
                Option::Some(c) => Some(c),
            },
        };
        let c = LevelComment {
            user: None,
            content,
            user_id,
            likes,
            comment_id,
            is_flagged_spam,
            time_since_post,
            progress,
            mod_level,
            special_color,
        };
        proof {
            assert(c@ =~= comment_from_pairs(psv)->Ok_0);
        }
        Ok(c)
    }

    /// Appends this comment's wire text to `out`, exactly as
    /// [`comment_encode_spec`] describes.  When the content cell is a
    /// processed value, the emitted base64 additionally decodes back
    /// to that value and uses only base64-alphabet characters.
    pub fn write_robtop_data(&self, out: &mut String)
        ensures
            final(out)@ == old(out)@ + comment_encode_spec(self@),
            (self.content is Some && self.content->Some_0 is Processed) ==> {
                &&& policy_decode_spec(
                    Policy::Base64,
                    policy_encode_spec(Policy::Base64, self.content->Some_0->Processed_0@),
                ) == Option::Some(self.content->Some_0->Processed_0@)
                &&& forall|i: int|
                    0 <= i < policy_encode_spec(
                        Policy::Base64,
                        self.content->Some_0->Processed_0@,
                    ).len() ==> is_b64_std_char(
                        #[trigger] policy_encode_spec(
                            Policy::Base64,
                            self.content->Some_0->Processed_0@,
                        )[i],
                    )
            },
    {
        let mut pairs: Vec<(u64, String)> = Vec::new();
        match &self.content {
            Option::None => {},
            Option::Some(t) => {
                let mut tmp = String::new();
                t.write(&mut tmp, Policy::Base64);
                pairs.push((2, tmp));
                proof {
                    if t is Processed {
                        crate::thunk::lemma_b64_policy_round_trip(t->Processed_0@);
                    }
                }
            },
        }
        pairs.push((3, u64_to_string(self.user_id)));
        pairs.push((4, i32_to_string(self.likes)));
        pairs.push((6, u64_to_string(self.comment_id)));
        match self.is_flagged_spam {
            Option::None => {},
            Option::Some(b) => {
                pairs.push((7, bool01_text(b)));
            },
        }
        pairs.push((9, self.time_since_post.clone()));
        match self.progress {
            Option::None => {},
            Option::Some(p) => {
                pairs.push((10, u64_to_string(p as u64)));
            },
        }
        match &self.mod_level {
            Option::None => {},
            Option::Some(m) => {
                pairs.push((11, u64_to_string(m.index() as u64)));
            },
        }
        match &self.special_color {
            Option::None => {},
            Option::Some(c) => {
                pairs.push((12, color_text(c)));
            },
        }
        proof {
            assert(pairs_view(pairs@) =~~= comment_pairs_spec(self@));
        }
        let mut text = String::new();
        write_pairs(&mut text, &pairs, '~');
        out.append(text.as_str());
    }
}


/// What resolving a comment user header's pairs against its schema
/// yields.  All fields but the account id are required.
pub open spec fn comment_user_from_pairs(ps: Seq<(u64, Seq<char>)>) -> Result<
    CommentUserV,
    DecodeError,
> {
    if lookup_spec(ps, 1) is None {
        Result::Err(DecodeError::MissingRequiredField(1))
    } else if lookup_spec(ps, 9) is None {
        Result::Err(DecodeError::MissingRequiredField(9))
    } else if parse_u16_spec(lookup_spec(ps, 9)->Some_0) is None {
        Result::Err(DecodeError::ValueParse(9))
    } else if lookup_spec(ps, 10) is None {
        Result::Err(DecodeError::MissingRequiredField(10))
    } else if parse_u8_spec(lookup_spec(ps, 10)->Some_0) is None {
        Result::Err(DecodeError::ValueParse(10))
    } else if lookup_spec(ps, 11) is None {
        Result::Err(DecodeError::MissingRequiredField(11))
    } else if parse_u8_spec(lookup_spec(ps, 11)->Some_0) is None {
        Result::Err(DecodeError::ValueParse(11))
    } else if lookup_spec(ps, 14) is None {
        Result::Err(DecodeError::MissingRequiredField(14))
    } else if parse_u8_spec(lookup_spec(ps, 14)->Some_0) is None {
        Result::Err(DecodeError::ValueParse(14))
    } else if lookup_spec(ps, 15) is None {
        Result::Err(DecodeError::MissingRequiredField(15))
    } else if parse_bool20_spec(lookup_spec(ps, 15)->Some_0) is None {
        Result::Err(DecodeError::ValueParse(15))
    } else if lookup_spec(ps, 16) is Some && parse_u64_spec(lookup_spec(ps, 16)->Some_0)
        is None {
        Result::Err(DecodeError::ValueParse(16))
    } else {
        Result::Ok(
            CommentUserV {
                name: lookup_spec(ps, 1)->Some_0,
                icon_index: parse_u16_spec(lookup_spec(ps, 9)->Some_0)->Some_0,
                primary_color: color_from_index_spec(
                    parse_u8_spec(lookup_spec(ps, 10)->Some_0)->Some_0,
                ),
                secondary_color: color_from_index_spec(
                    parse_u8_spec(lookup_spec(ps, 11)->Some_0)->Some_0,
                ),
                icon_type: icon_type_from_index_spec(
                    parse_u8_spec(lookup_spec(ps, 14)->Some_0)->Some_0,
                ),
                has_glow: parse_bool20_spec(lookup_spec(ps, 15)->Some_0)->Some_0,
                account_id: match lookup_spec(ps, 16) {
                    Option::None => Option::None,
                    Option::Some(t) => Option::Some(parse_u64_spec(t)->Some_0),
                },
            },
        )
    }
}

/// What decoding a comment user header's wire text yields.
pub open spec fn comment_user_decode_spec(s: Seq<char>) -> Result<CommentUserV, DecodeError> {
    match tokenize_spec(s, comment_separators()) {
        Option::None => Result::Err(DecodeError::Tokenization),
        Option::Some(ps) => comment_user_from_pairs(ps),
    }
}

/// The tag/value pairs a comment user header serializes to.
pub open spec fn comment_user_pairs_spec(v: CommentUserV) -> Seq<(u64, Seq<char>)> {
    opt_pair(1, comment_user_field_text(v, 1)) + (opt_pair(9, comment_user_field_text(v, 9)) + (
    opt_pair(10, comment_user_field_text(v, 10)) + (opt_pair(11, comment_user_field_text(v, 11))
        + (opt_pair(14, comment_user_field_text(v, 14)) + (opt_pair(
        15,
        comment_user_field_text(v, 15),
    ) + opt_pair(16, comment_user_field_text(v, 16)))))))
}

/// The wire text a comment user header's schema emits for one tag.
pub open spec fn comment_user_field_text(v: CommentUserV, t: u64) -> Option<Seq<char>> {
    if t == 1 {
        Option::Some(v.name)
    } else if t == 9 {
        Option::Some(dec_str(v.icon_index as nat))
    } else if t == 10 {
        Option::Some(dec_str(color_index_spec(v.primary_color) as nat))
    } else if t == 11 {
        Option::Some(dec_str(color_index_spec(v.secondary_color) as nat))
    } else if t == 14 {
        Option::Some(dec_str(icon_type_index_spec(v.icon_type) as nat))
    } else if t == 15 {
        Option::Some(bool20_text_spec(v.has_glow))
    } else if t == 16 {
        match v.account_id {
            Option::None => Option::None,
            Option::Some(a) => Option::Some(dec_str(a as nat)),
        }
    } else {
        Option::None
    }
}

/// The wire text a comment user header serializes to.
pub open spec fn comment_user_encode_spec(v: CommentUserV) -> Seq<char> {
    join_pairs(comment_user_pairs_spec(v), '~')
}

impl CommentUser {
    /// Decodes a comment user header from its wire text, exactly as
    /// [`comment_user_decode_spec`] describes.
    pub fn from_robtop_str(s: &str) -> (r: Result<CommentUser, DecodeError>)
        ensures
            match (r, comment_user_decode_spec(s@)) {
                (Result::Ok(c), Result::Ok(v)) => c@ == v,
                (Result::Err(e), Result::Err(f)) => e == f,
                _ => false,
            },
    {
        let pairs = match tokenize(s, comment_separator_config()) {
            Ok(p) => p,
            Err(e) => {
                return Err(e);
            },
        };
        let ghost psv = pairs_view(pairs@);
        let name: String = match lookup(&pairs, 1) {
            Option::None => {
                return Err(DecodeError::MissingRequiredField(1));
            },
            Option::Some(i) => pairs[i].1.clone(),
        };
        let icon_index: u16 = match lookup(&pairs, 9) {
            Option::None => {
                return Err(DecodeError::MissingRequiredField(9));
            },
            Option::Some(i) => match parse_u16(&str_to_chars(pairs[i].1.as_str())) {
                Option::None => {
                    return Err(DecodeError::ValueParse(9));
                },
                Option::Some(v) => v,
            },
        };
        let primary_color: Color = match lookup(&pairs, 10) {
            Option::None => {
                return Err(DecodeError::MissingRequiredField(10));
            },
            Option::Some(i) => match parse_u8(&str_to_chars(pairs[i].1.as_str())) {
                Option::None => {
                    return Err(DecodeError::ValueParse(10));
                },
                Option::Some(v) => Color::from_index(v),
            },
        };
        let secondary_color: Color = match lookup(&pairs, 11) {
            Option::None => {
                return Err(DecodeError::MissingRequiredField(11));
            },
            Option::Some(i) => match parse_u8(&str_to_chars(pairs[i].1.as_str())) {
                Option::None => {
                    return Err(DecodeError::ValueParse(11));
                },
                Option::Some(v) => Color::from_index(v),
            },
        };
        let icon_type: IconType = match lookup(&pairs, 14) {
            Option::None => {
                return Err(DecodeError::MissingRequiredField(14));
            },
            Option::Some(i) => match parse_u8(&str_to_chars(pairs[i].1.as_str())) {
                Option::None => {
                    return Err(DecodeError::ValueParse(14));
                },
                Option::Some(v) => IconType::from_index(v),
            },
        };
        let has_glow: bool = match lookup(&pairs, 15) {
            Option::None => {
                return Err(DecodeError::MissingRequiredField(15));
            },
            Option::Some(i) => match parse_bool20(pairs[i].1.as_str()) {
                Option::None => {
                    return Err(DecodeError::ValueParse(15));
                },
                Option::Some(b) => b,
            },
        };
        let account_id: Option<u64> = match lookup(&pairs, 16) {
            Option::None => None,
            Option::Some(i) => match parse_u64(&str_to_chars(pairs[i].1.as_str())) {
                Option::None => {
                    return Err(DecodeError::ValueParse(16));
                },
                Option::Some(v) => Some(v),
            },
        };
        let c = CommentUser {
            name,
            icon_index,
            primary_color,
            secondary_color,
            icon_type,
            has_glow,
            account_id,
        };
        proof {
            assert(c@ =~= comment_user_from_pairs(psv)->Ok_0);
        }
        Ok(c)
    }

    /// Appends this user header's wire text to `out`, exactly as
    /// [`comment_user_encode_spec`] describes.
    pub fn write_robtop_data(&self, out: &mut String)
        ensures
            final(out)@ == old(out)@ + comment_user_encode_spec(self@),
    {
        let mut pairs: Vec<(u64, String)> = Vec::new();
        pairs.push((1, self.name.clone()));
        pairs.push((9, u64_to_string(self.icon_index as u64)));
        pairs.push((10, u64_to_string(self.primary_color.index() as u64)));
        pairs.push((11, u64_to_string(self.secondary_color.index() as u64)));
        pairs.push((14, u64_to_string(self.icon_type.index() as u64)));
        pairs.push((15, bool20_text(self.has_glow)));
        match self.account_id {
            Option::None => {},
            Option::Some(a) => {
                pairs.push((16, u64_to_string(a)));
            },
        }
        proof {
            assert(pairs_view(pairs@) =~~= comment_user_pairs_spec(self@));
        }
        let mut text = String::new();
        write_pairs(&mut text, &pairs, '~');
        out.append(text.as_str());
    }
}


/// Looking a tag up in a one-field pair list.
proof fn lemma_lookup_opt_pair(tag: u64, ov: Option<Seq<char>>, t: u64)
    ensures
        lookup_spec(opt_pair(tag, ov), t) == (if tag == t {
            ov
        } else {
            Option::<Seq<char>>::None
        }),
{
    match ov {
        Option::None => {
            assert(opt_pair(tag, ov) == Seq::<(u64, Seq<char>)>::empty());
            assert(lookup_spec(Seq::<(u64, Seq<char>)>::empty(), t) is None);
        },
        Option::Some(x) => {
            let s = seq![(tag, x)];
            assert(s[0].0 == tag);
            if tag == t {
            } else {
                assert(s.drop_first() =~= Seq::<(u64, Seq<char>)>::empty());
                assert(lookup_spec(Seq::<(u64, Seq<char>)>::empty(), t) is None);
            }
        },
    }
}

/// Looking any tag up in a comment's emitted pairs finds exactly the
/// schema's text for that tag.
proof fn lemma_comment_lookup(v: LevelCommentV, t: u64)
    ensures
        lookup_spec(comment_pairs_spec(v), t) == comment_field_text(v, t),
{
    let op2 = opt_pair(2, comment_field_text(v, 2));
    let op3 = opt_pair(3, comment_field_text(v, 3));
    let op4 = opt_pair(4, comment_field_text(v, 4));
    let op6 = opt_pair(6, comment_field_text(v, 6));
    let op7 = opt_pair(7, comment_field_text(v, 7));
    let op9 = opt_pair(9, comment_field_text(v, 9));
    let op10 = opt_pair(10, comment_field_text(v, 10));
    let op11 = opt_pair(11, comment_field_text(v, 11));
    let op12 = opt_pair(12, comment_field_text(v, 12));
    let r11 = op11 + op12;
    let r10 = op10 + r11;
    let r9 = op9 + r10;
    let r7 = op7 + r9;
    let r6 = op6 + r7;
    let r4 = op4 + r6;
    let r3 = op3 + r4;
    crate::codec::lemma_lookup_append(op2, r3, t);
    crate::codec::lemma_lookup_append(op3, r4, t);
    crate::codec::lemma_lookup_append(op4, r6, t);
    crate::codec::lemma_lookup_append(op6, r7, t);
    crate::codec::lemma_lookup_append(op7, r9, t);
    crate::codec::lemma_lookup_append(op9, r10, t);
    crate::codec::lemma_lookup_append(op10, r11, t);
    crate::codec::lemma_lookup_append(op11, op12, t);
    lemma_lookup_opt_pair(2, comment_field_text(v, 2), t);
    lemma_lookup_opt_pair(3, comment_field_text(v, 3), t);
    lemma_lookup_opt_pair(4, comment_field_text(v, 4), t);
    lemma_lookup_opt_pair(6, comment_field_text(v, 6), t);
    lemma_lookup_opt_pair(7, comment_field_text(v, 7), t);
    lemma_lookup_opt_pair(9, comment_field_text(v, 9), t);
    lemma_lookup_opt_pair(10, comment_field_text(v, 10), t);
    lemma_lookup_opt_pair(11, comment_field_text(v, 11), t);
    lemma_lookup_opt_pair(12, comment_field_text(v, 12), t);
}

/// Looking any tag up in a comment user header's emitted pairs.
proof fn lemma_comment_user_lookup(v: CommentUserV, t: u64)
    ensures
        lookup_spec(comment_user_pairs_spec(v), t) == comment_user_field_text(v, t),
{
    let op1 = opt_pair(1, comment_user_field_text(v, 1));
    let op9 = opt_pair(9, comment_user_field_text(v, 9));
    let op10 = opt_pair(10, comment_user_field_text(v, 10));
    let op11 = opt_pair(11, comment_user_field_text(v, 11));
    let op14 = opt_pair(14, comment_user_field_text(v, 14));
    let op15 = opt_pair(15, comment_user_field_text(v, 15));
    let op16 = opt_pair(16, comment_user_field_text(v, 16));
    let r15 = op15 + op16;
    let r14 = op14 + r15;
    let r11 = op11 + r14;
    let r10 = op10 + r11;
    let r9 = op9 + r10;
    crate::codec::lemma_lookup_append(op1, r9, t);
    crate::codec::lemma_lookup_append(op9, r10, t);
    crate::codec::lemma_lookup_append(op10, r11, t);
    crate::codec::lemma_lookup_append(op11, r14, t);
    crate::codec::lemma_lookup_append(op14, r15, t);
    crate::codec::lemma_lookup_append(op15, op16, t);
    lemma_lookup_opt_pair(1, comment_user_field_text(v, 1), t);
    lemma_lookup_opt_pair(9, comment_user_field_text(v, 9), t);
    lemma_lookup_opt_pair(10, comment_user_field_text(v, 10), t);
    lemma_lookup_opt_pair(11, comment_user_field_text(v, 11), t);
    lemma_lookup_opt_pair(14, comment_user_field_text(v, 14), t);
    lemma_lookup_opt_pair(15, comment_user_field_text(v, 15), t);
    lemma_lookup_opt_pair(16, comment_user_field_text(v, 16), t);
}

/// Every element of a concatenation keeps a separator-free value
/// when both parts do.
proof fn lemma_no_sep_concat(a: Seq<(u64, Seq<char>)>, b: Seq<(u64, Seq<char>)>, sep: char)
    requires
        forall|i: int| 0 <= i < a.len() ==> has_no_sep(#[trigger] a[i].1, sep),
        forall|i: int| 0 <= i < b.len() ==> has_no_sep(#[trigger] b[i].1, sep),
    ensures
        forall|i: int| 0 <= i < (a + b).len() ==> has_no_sep(#[trigger] (a + b)[i].1, sep),
{
    assert forall|i: int| 0 <= i < (a + b).len() implies has_no_sep((a + b)[i].1, sep) by {
        if i < a.len() {
            assert((a + b)[i] == a[i]);
        } else {
            assert((a + b)[i] == b[i - a.len()]);
        }
    }
}

/// A one-field pair list keeps a separator-free value when its field
/// does.
proof fn lemma_no_sep_opt_pair(tag: u64, ov: Option<Seq<char>>, sep: char)
    requires
        ov is Some ==> has_no_sep(ov->Some_0, sep),
    ensures
        forall|i: int|
            0 <= i < opt_pair(tag, ov).len() ==> has_no_sep(#[trigger] opt_pair(tag, ov)[i].1, sep),
{
    match ov {
        Option::None => {
        },
        Option::Some(x) => {
            assert(opt_pair(tag, ov)[0].1 == x);
        },
    }
}

/// The record values a comment can round-trip with: its free-text
/// field holds no separator, its content is a concrete value, and
/// its enumerated fields are ones the wire form can name again.
pub open spec fn comment_wf(v: LevelCommentV) -> bool {
    &&& has_no_sep(v.time_since_post, '~')
    &&& (v.content is Some ==> v.content->Some_0 is Processed)
    &&& (v.mod_level is Some ==> mod_level_from_index_spec(
        mod_level_index_spec(v.mod_level->Some_0),
    ) == v.mod_level->Some_0)
    &&& (v.special_color is Some ==> v.special_color->Some_0 is Known)
}

/// Field-by-field equality over the schema's declared field set: the
/// content cells are compared by the logical value they denote, and
/// the user header, which is never part of this record's own wire
/// text, is not compared.
pub open spec fn comment_equiv(a: LevelCommentV, b: LevelCommentV) -> bool {
    &&& (match (a.content, b.content) {
        (Option::None, Option::None) => true,
        (Option::Some(x), Option::Some(y)) => x.logical(Policy::Base64) == y.logical(
            Policy::Base64,
        ),
        _ => false,
    })
    &&& a.user_id == b.user_id
    &&& a.likes == b.likes
    &&& a.comment_id == b.comment_id
    &&& a.is_flagged_spam == b.is_flagged_spam
    &&& a.time_since_post == b.time_since_post
    &&& a.progress == b.progress
    &&& a.mod_level == b.mod_level
    &&& a.special_color == b.special_color
}

/// The round trip: decoding the encoding of a well-formed comment
/// succeeds and gives the comment back, compared field by field over
/// the schema's declared fields.  The hypothesis on the content cell
/// is what the base64 engine's contract gives at every call site:
/// its emitted text is separator-free and decodes back to the value.
pub proof fn lemma_comment_round_trip(v: LevelCommentV)
    requires
        comment_wf(v),
        v.content is Some ==> (has_no_sep(v.content->Some_0.serialized(Policy::Base64), '~')
            && policy_decode_spec(Policy::Base64, v.content->Some_0.serialized(Policy::Base64))
            == Option::Some(v.content->Some_0->Processed_0)),
    ensures
        comment_decode_spec(comment_encode_spec(v)) is Ok,
        comment_equiv(comment_decode_spec(comment_encode_spec(v))->Ok_0, v),
{
    let ps = comment_pairs_spec(v);
    let op2 = opt_pair(2, comment_field_text(v, 2));
    let op3 = opt_pair(3, comment_field_text(v, 3));
    let op4 = opt_pair(4, comment_field_text(v, 4));
    let op6 = opt_pair(6, comment_field_text(v, 6));
    let op7 = opt_pair(7, comment_field_text(v, 7));
    let op9 = opt_pair(9, comment_field_text(v, 9));
    let op10 = opt_pair(10, comment_field_text(v, 10));
    let op11 = opt_pair(11, comment_field_text(v, 11));
    let op12 = opt_pair(12, comment_field_text(v, 12));
    // No emitted value holds the separator.
    assert(!crate::text::is_digit('~'));
    crate::text::lemma_dec_str_no_char(v.user_id as nat, '~');
    crate::text::lemma_dec_str_no_char(v.comment_id as nat, '~');
    if v.likes >= 0 {
        crate::text::lemma_dec_str_no_char(v.likes as nat, '~');
    } else {
        crate::text::lemma_dec_str_no_char((-(v.likes as int)) as nat, '~');
        let sgn = dec_str_signed(v.likes as int);
        assert forall|i: int| 0 <= i < sgn.len() implies sgn[i] != '~' by {
            if i == 0 {
                assert(sgn[i] == '-');
            } else {
                assert(sgn[i] == dec_str((-(v.likes as int)) as nat)[i - 1]);
            }
        }
    }
    assert(has_no_sep(dec_str_signed(v.likes as int), '~'));
    match v.is_flagged_spam {
        Option::None => {
        },
        Option::Some(b) => {
            assert(has_no_sep(bool01_text_spec(b), '~'));
        },
    }
    match v.progress {
        Option::None => {
        },
        Option::Some(p) => {
            crate::text::lemma_dec_str_no_char(p as nat, '~');
        },
    }
    match v.mod_level {
        Option::None => {
        },
        Option::Some(m) => {
            crate::text::lemma_dec_str_no_char(mod_level_index_spec(m) as nat, '~');
        },
    }
    match v.special_color {
        Option::None => {
        },
        Option::Some(c) => {
            crate::color::lemma_color_text_no_sep(c, '~');
        },
    }
    lemma_no_sep_opt_pair(2, comment_field_text(v, 2), '~');
    lemma_no_sep_opt_pair(3, comment_field_text(v, 3), '~');
    lemma_no_sep_opt_pair(4, comment_field_text(v, 4), '~');
    lemma_no_sep_opt_pair(6, comment_field_text(v, 6), '~');
    lemma_no_sep_opt_pair(7, comment_field_text(v, 7), '~');
    lemma_no_sep_opt_pair(9, comment_field_text(v, 9), '~');
    lemma_no_sep_opt_pair(10, comment_field_text(v, 10), '~');
    lemma_no_sep_opt_pair(11, comment_field_text(v, 11), '~');
    lemma_no_sep_opt_pair(12, comment_field_text(v, 12), '~');
    let r11 = op11 + op12;
    let r10 = op10 + r11;
    let r9 = op9 + r10;
    let r7 = op7 + r9;
    let r6 = op6 + r7;
    let r4 = op4 + r6;
    let r3 = op3 + r4;
    lemma_no_sep_concat(op11, op12, '~');
    lemma_no_sep_concat(op10, r11, '~');
    lemma_no_sep_concat(op9, r10, '~');
    lemma_no_sep_concat(op7, r9, '~');
    lemma_no_sep_concat(op6, r7, '~');
    lemma_no_sep_concat(op4, r6, '~');
    lemma_no_sep_concat(op3, r4, '~');
    lemma_no_sep_concat(op2, r3, '~');
    assert(ps.len() >= 1);
    crate::codec::lemma_tokenize_join(ps, '~');
    // The schema finds each field where the writer put it.
    lemma_comment_lookup(v, 2);
    lemma_comment_lookup(v, 3);
    lemma_comment_lookup(v, 4);
    lemma_comment_lookup(v, 6);
    lemma_comment_lookup(v, 7);
    lemma_comment_lookup(v, 9);
    lemma_comment_lookup(v, 10);
    lemma_comment_lookup(v, 11);
    lemma_comment_lookup(v, 12);
    // Each scalar parses back to the value it was printed from.
    crate::text::lemma_parse_dec_str_u64(v.user_id);
    crate::text::lemma_parse_dec_str_u64(v.comment_id);
    crate::text::lemma_parse_dec_str_i32(v.likes);
    match v.is_flagged_spam {
        Option::None => {
        },
        Option::Some(b) => {
            assert(parse_bool01_spec(bool01_text_spec(b)) == Option::Some(b));
        },
    }
    match v.progress {
        Option::None => {
        },
        Option::Some(p) => {
            crate::text::lemma_parse_dec_str_u64(p as u64);
            assert(parse_u8_spec(dec_str(p as nat)) == Option::Some(p));
        },
    }
    match v.mod_level {
        Option::None => {
        },
        Option::Some(m) => {
            crate::text::lemma_parse_dec_str_u64(mod_level_index_spec(m) as u64);
            assert(parse_u8_spec(dec_str(mod_level_index_spec(m) as nat)) == Option::Some(
                mod_level_index_spec(m),
            ));
        },
    }
    match v.special_color {
        Option::None => {
        },
        Option::Some(c) => {
            crate::color::lemma_color_text_roundtrip(c);
        },
    }
    let d = comment_from_pairs(ps)->Ok_0;
    assert(comment_from_pairs(ps) is Ok);
    assert(comment_equiv(d, v));
}

/// Inserting a pair whose tag the comment schema does not declare,
/// anywhere in the pair list, leaves the decoded record unchanged:
/// unknown tags are dropped, not errors.
pub proof fn lemma_comment_unknown_tag(
    ps: Seq<(u64, Seq<char>)>,
    k: int,
    extra: (u64, Seq<char>),
)
    requires
        0 <= k <= ps.len(),
        extra.0 != 2 && extra.0 != 3 && extra.0 != 4 && extra.0 != 6 && extra.0 != 7 && extra.0
            != 9 && extra.0 != 10 && extra.0 != 11 && extra.0 != 12,
    ensures
        comment_from_pairs(ps.insert(k, extra)) == comment_from_pairs(ps),
{
    crate::codec::lemma_lookup_insert_irrelevant(ps, k, extra, 2);
    crate::codec::lemma_lookup_insert_irrelevant(ps, k, extra, 3);
    crate::codec::lemma_lookup_insert_irrelevant(ps, k, extra, 4);
    crate::codec::lemma_lookup_insert_irrelevant(ps, k, extra, 6);
    crate::codec::lemma_lookup_insert_irrelevant(ps, k, extra, 7);
    crate::codec::lemma_lookup_insert_irrelevant(ps, k, extra, 9);
    crate::codec::lemma_lookup_insert_irrelevant(ps, k, extra, 10);
    crate::codec::lemma_lookup_insert_irrelevant(ps, k, extra, 11);
    crate::codec::lemma_lookup_insert_irrelevant(ps, k, extra, 12);
}

/// Encodes `c` and decodes the text back, demonstrating the round
/// trip executably: the result compares equal to `c` field by field
/// over the schema's declared fields.
pub fn comment_round_trip(c: &LevelComment) -> (d: LevelComment)
    requires
        comment_wf(c@),
    ensures
        comment_equiv(d@, c@),
{
    let mut out = String::new();
    c.write_robtop_data(&mut out);
    proof {
        if c@.content is Some {
            let val = c@.content->Some_0->Processed_0;
            let enc = policy_encode_spec(Policy::Base64, val);
            assert(c@.content->Some_0.serialized(Policy::Base64) == enc);
            assert forall|i: int| 0 <= i < enc.len() implies enc[i] != '~' by {
                assert(is_b64_std_char(enc[i]));
            }
            assert(has_no_sep(enc, '~'));
        }
        lemma_comment_round_trip(c@);
        assert(out@ == comment_encode_spec(c@));
    }
    match LevelComment::from_robtop_str(out.as_str()) {
        Ok(d) => d,
        Err(_) => vstd::pervasive::unreached(),
    }
}

/// The record values a comment user header can round-trip with.
pub open spec fn comment_user_wf(v: CommentUserV) -> bool {
    &&& has_no_sep(v.name, '~')
    &&& color_from_index_spec(color_index_spec(v.primary_color)) == v.primary_color
    &&& color_from_index_spec(color_index_spec(v.secondary_color)) == v.secondary_color
    &&& icon_type_from_index_spec(icon_type_index_spec(v.icon_type)) == v.icon_type
}

/// The round trip for the user header: decoding the encoding of a
/// well-formed header gives it back exactly.
pub proof fn lemma_comment_user_round_trip(v: CommentUserV)
    requires
        comment_user_wf(v),
    ensures
        comment_user_decode_spec(comment_user_encode_spec(v)) == Result::<
            CommentUserV,
            DecodeError,
        >::Ok(v),
{
    let ps = comment_user_pairs_spec(v);
    let op1 = opt_pair(1, comment_user_field_text(v, 1));
    let op9 = opt_pair(9, comment_user_field_text(v, 9));
    let op10 = opt_pair(10, comment_user_field_text(v, 10));
    let op11 = opt_pair(11, comment_user_field_text(v, 11));
    let op14 = opt_pair(14, comment_user_field_text(v, 14));
    let op15 = opt_pair(15, comment_user_field_text(v, 15));
    let op16 = opt_pair(16, comment_user_field_text(v, 16));
    assert(!crate::text::is_digit('~'));
    crate::text::lemma_dec_str_no_char(v.icon_index as nat, '~');
    crate::text::lemma_dec_str_no_char(color_index_spec(v.primary_color) as nat, '~');
    crate::text::lemma_dec_str_no_char(color_index_spec(v.secondary_color) as nat, '~');
    crate::text::lemma_dec_str_no_char(icon_type_index_spec(v.icon_type) as nat, '~');
    assert(has_no_sep(bool20_text_spec(v.has_glow), '~'));
    match v.account_id {
        Option::None => {
        },
        Option::Some(a) => {
            crate::text::lemma_dec_str_no_char(a as nat, '~');
        },
    }
    lemma_no_sep_opt_pair(1, comment_user_field_text(v, 1), '~');
    lemma_no_sep_opt_pair(9, comment_user_field_text(v, 9), '~');
    lemma_no_sep_opt_pair(10, comment_user_field_text(v, 10), '~');
    lemma_no_sep_opt_pair(11, comment_user_field_text(v, 11), '~');
    lemma_no_sep_opt_pair(14, comment_user_field_text(v, 14), '~');
    lemma_no_sep_opt_pair(15, comment_user_field_text(v, 15), '~');
    lemma_no_sep_opt_pair(16, comment_user_field_text(v, 16), '~');
    let r15 = op15 + op16;
    let r14 = op14 + r15;
    let r11 = op11 + r14;
    let r10 = op10 + r11;
    let r9 = op9 + r10;
    lemma_no_sep_concat(op15, op16, '~');
    lemma_no_sep_concat(op14, r15, '~');
    lemma_no_sep_concat(op11, r14, '~');
    lemma_no_sep_concat(op10, r11, '~');
    lemma_no_sep_concat(op9, r10, '~');
    lemma_no_sep_concat(op1, r9, '~');
    assert(ps.len() >= 1);
    crate::codec::lemma_tokenize_join(ps, '~');
    lemma_comment_user_lookup(v, 1);
    lemma_comment_user_lookup(v, 9);
    lemma_comment_user_lookup(v, 10);
    lemma_comment_user_lookup(v, 11);
    lemma_comment_user_lookup(v, 14);
    lemma_comment_user_lookup(v, 15);
    lemma_comment_user_lookup(v, 16);
    crate::text::lemma_parse_dec_str_u64(v.icon_index as u64);
    assert(parse_u16_spec(dec_str(v.icon_index as nat)) == Option::Some(v.icon_index));
    crate::text::lemma_parse_dec_str_u64(color_index_spec(v.primary_color) as u64);
    assert(parse_u8_spec(dec_str(color_index_spec(v.primary_color) as nat)) == Option::Some(
        color_index_spec(v.primary_color),
    ));
    crate::text::lemma_parse_dec_str_u64(color_index_spec(v.secondary_color) as u64);
    assert(parse_u8_spec(dec_str(color_index_spec(v.secondary_color) as nat)) == Option::Some(
        color_index_spec(v.secondary_color),
    ));
    crate::text::lemma_parse_dec_str_u64(icon_type_index_spec(v.icon_type) as u64);
    assert(parse_u8_spec(dec_str(icon_type_index_spec(v.icon_type) as nat)) == Option::Some(
        icon_type_index_spec(v.icon_type),
    ));
    assert(parse_bool20_spec(bool20_text_spec(v.has_glow)) == Option::Some(v.has_glow));
    match v.account_id {
        Option::None => {
        },
        Option::Some(a) => {
            crate::text::lemma_parse_dec_str_u64(a);
        },
    }
    assert(comment_user_from_pairs(ps) is Ok);
    assert(comment_user_from_pairs(ps)->Ok_0 =~= v);
}

/// Encodes `u` and decodes the text back, demonstrating the user
/// header's round trip executably.
pub fn comment_user_round_trip(u: &CommentUser) -> (d: CommentUser)
    requires
        comment_user_wf(u@),
    ensures
        d@ == u@,
{
    let mut out = String::new();
    u.write_robtop_data(&mut out);
    proof {
        lemma_comment_user_round_trip(u@);
    }
    match CommentUser::from_robtop_str(out.as_str()) {
        Ok(d) => d,
        Err(_) => vstd::pervasive::unreached(),
    }
}

} // verus!
