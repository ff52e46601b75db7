//! Requests for retrieving, uploading and deleting comments.

use vstd::prelude::*;

use crate::encodings::{b64_std_encode, b64_std_of};
use crate::pipeline::{comment_checksum, comment_checksum_spec};
use crate::request::{auth_user_query_spec, base_is_gd21, base_query_spec, AuthenticatedUser, BaseRequest};
use crate::text::{dec_str, u64_to_string};

verus! {

/// The ordering the service can return level comments in.
#[derive(Debug, Clone, Copy, PartialEq, Eq, Structural, Hash)]
pub enum SortMode {
    /// Most-liked first.
    Liked,
    /// Newest first.
    Recent,
}

/// The wire value of a sort mode.
pub open spec fn sort_mode_value(m: SortMode) -> nat {
    match m {
        SortMode::Liked => 1,
        SortMode::Recent => 0,
    }
}

impl SortMode {
    /// The wire value of this sort mode.
    pub fn value(&self) -> (r: u8)
        ensures
            r as nat == sort_mode_value(*self),
    {
        match self {
            SortMode::Liked => 1,
            SortMode::Recent => 0,
        }
    }
}

/// A request for the comments under one level.
#[derive(Debug, Clone, PartialEq, Eq)]
pub struct LevelCommentsRequest {
    /// The base request data.
    pub base: BaseRequest,
    /// An opaque pagination field the service expects.
    pub total: u32,
    /// The zero-based page to retrieve.
    pub page: u32,
    /// The ordering to return comments in.
    pub sort_mode: SortMode,
    /// The id of the level.
    pub level_id: u64,
    /// How many comments to retrieve.
    pub limit: u32,
}

/// The query text of a level-comments request.
pub open spec fn level_comments_query_spec(r: LevelCommentsRequest) -> Seq<char> {
    base_query_spec(r.base) + "&total="@ + dec_str(r.total as nat) + "&page="@ + dec_str(
        r.page as nat,
    ) + "&mode="@ + dec_str(sort_mode_value(r.sort_mode)) + "&levelID="@ + dec_str(
        r.level_id as nat,
    ) + "&count="@ + dec_str(r.limit as nat)
}

impl LevelCommentsRequest {
    /// A request for the comments of `level`, with the defaults the
    /// game uses: newest first, twenty per page.
    pub fn new(level: u64) -> (r: LevelCommentsRequest)
        ensures
            base_is_gd21(r.base),
            r.total == 0u32 && r.page == 0u32 && r.sort_mode == SortMode::Recent,
            r.level_id == level && r.limit == 20u32,
    {
        Self::with_base(BaseRequest::gd21(), level)
    }

    /// The same defaults over an explicit base.
    pub fn with_base(base: BaseRequest, level: u64) -> (r: LevelCommentsRequest)
        ensures
            r.base == base,
            r.total == 0u32 && r.page == 0u32 && r.sort_mode == SortMode::Recent,
            r.level_id == level && r.limit == 20u32,
    {
        LevelCommentsRequest {
            base,
            total: 0,
            page: 0,
            sort_mode: SortMode::Recent,
            level_id: level,
            limit: 20,
        }
    }

    /// Requests the most-liked ordering.
    pub fn most_liked(self) -> (r: LevelCommentsRequest)
        ensures
            r == (LevelCommentsRequest { sort_mode: SortMode::Liked, ..self }),
    {
        LevelCommentsRequest { sort_mode: SortMode::Liked, ..self }
    }

    /// Requests the newest-first ordering.
    pub fn most_recent(self) -> (r: LevelCommentsRequest)
        ensures
            r == (LevelCommentsRequest { sort_mode: SortMode::Recent, ..self }),
    {
        LevelCommentsRequest { sort_mode: SortMode::Recent, ..self }
    }

    /// Replaces the page.
    pub fn page(self, page: u32) -> (r: LevelCommentsRequest)
        ensures
            r == (LevelCommentsRequest { page, ..self }),
    {
        LevelCommentsRequest { page, ..self }
    }

    /// Replaces the per-page limit.
    pub fn limit(self, limit: u32) -> (r: LevelCommentsRequest)
        ensures
            r == (LevelCommentsRequest { limit, ..self }),
    {
        LevelCommentsRequest { limit, ..self }
    }

    /// Replaces the pagination total.
    pub fn total(self, total: u32) -> (r: LevelCommentsRequest)
        ensures
            r == (LevelCommentsRequest { total, ..self }),
    {
        LevelCommentsRequest { total, ..self }
    }

    /// The endpoint's URL.
    pub fn to_url(&self) -> (r: String)
        ensures
            r@ == "http://www.boomlings.com/database/getGJComments21.php"@,
    {
        String::from_str("http://www.boomlings.com/database/getGJComments21.php")
    }

    /// The request body, exactly as [`level_comments_query_spec`]
    /// describes.
    pub fn query_string(&self) -> (r: String)
        ensures
            r@ == level_comments_query_spec(*self),
    {
        let mut out = String::new();
        self.base.write_query(&mut out);
        out.append("&total=");
        let t = u64_to_string(self.total as u64);
        out.append(t.as_str());
        out.append("&page=");
        let p = u64_to_string(self.page as u64);
        out.append(p.as_str());
        out.append("&mode=");
        let m = u64_to_string(self.sort_mode.value() as u64);
        out.append(m.as_str());
        out.append("&levelID=");
        let l = u64_to_string(self.level_id);
        out.append(l.as_str());
        out.append("&count=");
        let c = u64_to_string(self.limit as u64);
        out.append(c.as_str());
        out
    }
}

/// A request for the comments on a user's own profile.
#[derive(Debug, Clone, PartialEq, Eq)]
pub struct ProfileCommentsRequest {
    /// The base request data.
    pub base: BaseRequest,
    /// An opaque pagination field the service expects.
    pub total: u32,
    /// The zero-based page to retrieve.
    pub page: u32,
    /// The account id whose profile comments to retrieve.
    pub account_id: u64,
}

/// The query text of a profile-comments request.
pub open spec fn profile_comments_query_spec(r: ProfileCommentsRequest) -> Seq<char> {
    base_query_spec(r.base) + "&total="@ + dec_str(r.total as nat) + "&page="@ + dec_str(
        r.page as nat,
    ) + "&accountID="@ + dec_str(r.account_id as nat)
}

impl ProfileCommentsRequest {
    /// A request for the profile comments of `account`.
    pub fn new(account: u64) -> (r: ProfileCommentsRequest)
        ensures
            base_is_gd21(r.base),
            r.total == 0u32 && r.page == 0u32 && r.account_id == account,
    {
        Self::with_base(BaseRequest::gd21(), account)
    }

    /// The same defaults over an explicit base.
    pub fn with_base(base: BaseRequest, account: u64) -> (r: ProfileCommentsRequest)
        ensures
            r.base == base,
            r.total == 0u32 && r.page == 0u32 && r.account_id == account,
    {
        ProfileCommentsRequest { base, total: 0, page: 0, account_id: account }
    }

    /// Replaces the page.
    pub fn page(self, page: u32) -> (r: ProfileCommentsRequest)
        ensures
            r == (ProfileCommentsRequest { page, ..self }),
    {
        ProfileCommentsRequest { page, ..self }
    }

    /// Replaces the pagination total.
    pub fn total(self, total: u32) -> (r: ProfileCommentsRequest)
        ensures
            r == (ProfileCommentsRequest { total, ..self }),
    {
        ProfileCommentsRequest { total, ..self }
    }

    /// Replaces the account id.
    pub fn account_id(self, account_id: u64) -> (r: ProfileCommentsRequest)
        ensures
            r == (ProfileCommentsRequest { account_id, ..self }),
    {
        ProfileCommentsRequest { account_id, ..self }
    }

    /// The endpoint's URL.
    pub fn to_url(&self) -> (r: String)
        ensures
            r@ == "http://www.boomlings.com/database/getGJAccountComments20.php"@,
    {
        String::from_str("http://www.boomlings.com/database/getGJAccountComments20.php")
    }

    /// The request body, exactly as [`profile_comments_query_spec`]
    /// describes.
    pub fn query_string(&self) -> (r: String)
        ensures
            r@ == profile_comments_query_spec(*self),
    {
        let mut out = String::new();
        self.base.write_query(&mut out);
        out.append("&total=");
        let t = u64_to_string(self.total as u64);
        out.append(t.as_str());
        out.append("&page=");
        let p = u64_to_string(self.page as u64);
        out.append(p.as_str());
        out.append("&accountID=");
        let a = u64_to_string(self.account_id);
        out.append(a.as_str());
        out
    }
}

/// A request for one player's comment history.
#[derive(Debug, Clone, PartialEq, Eq)]
pub struct CommentHistoryRequest {
    /// The base request data.
    pub base: BaseRequest,
    /// An opaque pagination field the service expects.
    pub total: u32,
    /// The zero-based page to retrieve.
    pub page: u32,
    /// The ordering to return comments in.
    pub sort_mode: SortMode,
    /// The player id (not the account id) whose history to retrieve.
    pub player_id: u64,
    /// How many comments to retrieve.
    pub limit: u32,
}

/// The query text of a comment-history request.
pub open spec fn comment_history_query_spec(r: CommentHistoryRequest) -> Seq<char> {
    base_query_spec(r.base) + "&total="@ + dec_str(r.total as nat) + "&page="@ + dec_str(
        r.page as nat,
    ) + "&mode="@ + dec_str(sort_mode_value(r.sort_mode)) + "&userID="@ + dec_str(
        r.player_id as nat,
    ) + "&count="@ + dec_str(r.limit as nat)
}

impl CommentHistoryRequest {
    /// A request for the comment history of `player`, newest first,
    /// twenty per page, over an explicit base.
    pub fn with_base(base: BaseRequest, player: u64) -> (r: CommentHistoryRequest)
        ensures
            r.base == base,
            r.total == 0u32 && r.page == 0u32 && r.sort_mode == SortMode::Recent,
            r.player_id == player && r.limit == 20u32,
    {
        CommentHistoryRequest {
            base,
            total: 0,
            page: 0,
            sort_mode: SortMode::Recent,
            player_id: player,
            limit: 20,
        }
    }

    /// A request for the comment history of `player` with the
    /// default base.
    pub fn new(player: u64) -> (r: CommentHistoryRequest)
        ensures
            base_is_gd21(r.base),
            r.total == 0u32 && r.page == 0u32 && r.sort_mode == SortMode::Recent,
            r.player_id == player && r.limit == 20u32,
    {
        Self::with_base(BaseRequest::gd21(), player)
    }

    /// Replaces the sort mode.
    pub fn sort_mode(self, sort_mode: SortMode) -> (r: CommentHistoryRequest)
        ensures
            r == (CommentHistoryRequest { sort_mode, ..self }),
    {
        CommentHistoryRequest { sort_mode, ..self }
    }

    /// Replaces the page.
    pub fn page(self, page: u32) -> (r: CommentHistoryRequest)
        ensures
            r == (CommentHistoryRequest { page, ..self }),
    {
        CommentHistoryRequest { page, ..self }
    }

    /// Replaces the per-page limit.
    pub fn limit(self, limit: u32) -> (r: CommentHistoryRequest)
        ensures
            r == (CommentHistoryRequest { limit, ..self }),
    {
        CommentHistoryRequest { limit, ..self }
    }

    /// The endpoint's URL.
    pub fn to_url(&self) -> (r: String)
        ensures
            r@ == "http://www.boomlings.com/database/getGJCommentHistory.php"@,
    {
        String::from_str("http://www.boomlings.com/database/getGJCommentHistory.php")
    }

    /// The request body, exactly as [`comment_history_query_spec`]
    /// describes.
    pub fn query_string(&self) -> (r: String)
        ensures
            r@ == comment_history_query_spec(*self),
    {
        let mut out = String::new();
        self.base.write_query(&mut out);
        out.append("&total=");
        let t = u64_to_string(self.total as u64);
        out.append(t.as_str());
        out.append("&page=");
        let p = u64_to_string(self.page as u64);
        out.append(p.as_str());
        out.append("&mode=");
        let m = u64_to_string(self.sort_mode.value() as u64);
        out.append(m.as_str());
        out.append("&userID=");
        let u = u64_to_string(self.player_id);
        out.append(u.as_str());
        out.append("&count=");
        let c = u64_to_string(self.limit as u64);
        out.append(c.as_str());
        out
    }
}

/// A request that uploads one comment to a level.
#[derive(Debug, Clone, PartialEq, Eq)]
pub struct UploadCommentRequest {
    /// The base request data.
    pub base: BaseRequest,
    /// The authenticated user posting the comment.
    pub authenticated_user: AuthenticatedUser,
    /// The comment body, already base64-encoded.
    pub comment: String,
    /// The id of the level commented on.
    pub level_id: u64,
    /// The completion percentage shown on the comment.
    pub percent: u8,
    /// The request checksum; filled in by [`Self::generate_chk`].
    pub chk: String,
}

/// The salt of the comment checksum.
pub open spec fn comment_chk_salt() -> Seq<char> {
    "xPT6iUrtws0J"@
}

/// The query text of an upload-comment request.
pub open spec fn upload_comment_query_spec(r: UploadCommentRequest) -> Seq<char> {
    base_query_spec(r.base) + "&"@ + auth_user_query_spec(r.authenticated_user) + "&comment="@
        + r.comment@ + "&levelID="@ + dec_str(r.level_id as nat) + "&percent="@ + dec_str(
        r.percent as nat,
    ) + "&chk="@ + r.chk@
}

impl UploadCommentRequest {
    /// A request to comment on `level_id` as `authenticated_user`,
    /// with the comment still to fill in.
    pub fn new(authenticated_user: AuthenticatedUser, level_id: u64) -> (r: UploadCommentRequest)
        ensures
            base_is_gd21(r.base),
            r.authenticated_user == authenticated_user,
            r.comment@ == Seq::<char>::empty(),
            r.level_id == level_id && r.percent == 0u8,
            r.chk@ == Seq::<char>::empty(),
    {
        Self::with_base(BaseRequest::gd21(), authenticated_user, level_id)
    }

    /// The same defaults over an explicit base.
    pub fn with_base(base: BaseRequest, authenticated_user: AuthenticatedUser, level_id: u64) -> (
    r: UploadCommentRequest)
        ensures
            r.base == base,
            r.authenticated_user == authenticated_user,
            r.comment@ == Seq::<char>::empty(),
            r.level_id == level_id && r.percent == 0u8,
            r.chk@ == Seq::<char>::empty(),
    {
        UploadCommentRequest {
            base,
            authenticated_user,
            comment: String::new(),
            level_id,
            percent: 0,
            chk: String::new(),
        }
    }

    /// Sets the comment body: the plain text is base64-encoded here,
    /// as the wire format expects.
    pub fn comment(self, comment_content: &str) -> (r: UploadCommentRequest)
        ensures
            r.comment@ == b64_std_of(vstd::utf8::encode_utf8(comment_content@)),
            r.base == self.base && r.authenticated_user == self.authenticated_user,
            r.level_id == self.level_id && r.percent == self.percent && r.chk == self.chk,
    {
        let encoded = b64_std_encode(comment_content.as_bytes());
        UploadCommentRequest { comment: encoded, ..self }
    }

    /// Replaces the completion percentage.
    pub fn percent(self, percent: u8) -> (r: UploadCommentRequest)
        ensures
            r == (UploadCommentRequest { percent, ..self }),
    {
        UploadCommentRequest { percent, ..self }
    }

    /// Replaces the level id.
    pub fn level_id(self, level_id: u64) -> (r: UploadCommentRequest)
        ensures
            r == (UploadCommentRequest { level_id, ..self }),
    {
        UploadCommentRequest { level_id, ..self }
    }

    /// Fills in the request checksum over the user name, encoded
    /// comment, level id and percentage, with the endpoint's salt.
    pub fn generate_chk(self) -> (r: UploadCommentRequest)
        ensures
            r.chk@ == comment_checksum_spec(
                self.authenticated_user.user_name@,
                self.comment@,
                self.level_id,
                self.percent,
                comment_chk_salt(),
            ),
            r.base == self.base && r.authenticated_user == self.authenticated_user,
            r.comment == self.comment && r.level_id == self.level_id && r.percent == self.percent,
    {
        let chk = comment_checksum(
            self.authenticated_user.user_name.as_str(),
            self.comment.as_str(),
            self.level_id,
            self.percent,
            "xPT6iUrtws0J",
        );
        UploadCommentRequest { chk, ..self }
    }

    /// The endpoint's URL.
    pub fn to_url(&self) -> (r: String)
        ensures
            r@ == "http://www.boomlings.com/database/uploadGJComment21.php"@,
    {
        String::from_str("http://www.boomlings.com/database/uploadGJComment21.php")
    }

    /// The request body, exactly as [`upload_comment_query_spec`]
    /// describes.
    pub fn query_string(&self) -> (r: String)
        ensures
            r@ == upload_comment_query_spec(*self),
    {
        let mut out = String::new();
        self.base.write_query(&mut out);
        out.append("&");
        self.authenticated_user.write_query(&mut out);
        out.append("&comment=");
        out.append(self.comment.as_str());
        out.append("&levelID=");
        let l = u64_to_string(self.level_id);
        out.append(l.as_str());
        out.append("&percent=");
        let p = u64_to_string(self.percent as u64);
        out.append(p.as_str());
        out.append("&chk=");
        out.append(self.chk.as_str());
        out
    }
}

/// A request that deletes one of the authenticated user's comments.
#[derive(Debug, Clone, PartialEq, Eq)]
pub struct DeleteCommentRequest {
    /// The base request data.
    pub base: BaseRequest,
    /// The authenticated user deleting the comment.
    pub authenticated_user: AuthenticatedUser,
    /// The id of the comment to delete.
    pub comment_id: u64,
    /// The id of the level it was posted under.
    pub level_id: u64,
}

/// The query text of a delete-comment request.
pub open spec fn delete_comment_query_spec(r: DeleteCommentRequest) -> Seq<char> {
    base_query_spec(r.base) + "&"@ + auth_user_query_spec(r.authenticated_user) + "&commentID="@
        + dec_str(r.comment_id as nat) + "&levelID="@ + dec_str(r.level_id as nat)
}

impl DeleteCommentRequest {
    /// A request to delete `comment_id` under `level_id`.
    pub fn new(authenticated_user: AuthenticatedUser, level_id: u64, comment_id: u64) -> (r:
        DeleteCommentRequest)
        ensures
            base_is_gd21(r.base),
            r.authenticated_user == authenticated_user,
            r.comment_id == comment_id && r.level_id == level_id,
    {
        Self::with_base(BaseRequest::gd21(), authenticated_user, level_id, comment_id)
    }

    /// The same over an explicit base.
    pub fn with_base(
        base: BaseRequest,
        authenticated_user: AuthenticatedUser,
        level_id: u64,
        comment_id: u64,
    ) -> (r: DeleteCommentRequest)
        ensures
            r.base == base,
            r.authenticated_user == authenticated_user,
            r.comment_id == comment_id && r.level_id == level_id,
    {
        DeleteCommentRequest { base, authenticated_user, comment_id, level_id }
    }

    /// The endpoint's URL.
    pub fn to_url(&self) -> (r: String)
        ensures
            r@ == "http://www.boomlings.com/database/deleteGJComment20.php"@,
    {
        String::from_str("http://www.boomlings.com/database/deleteGJComment20.php")
    }

    /// The request body, exactly as [`delete_comment_query_spec`]
    /// describes.
    pub fn query_string(&self) -> (r: String)
        ensures
            r@ == delete_comment_query_spec(*self),
    {
        let mut out = String::new();
        self.base.write_query(&mut out);
        out.append("&");
        self.authenticated_user.write_query(&mut out);
        out.append("&commentID=");
        let c = u64_to_string(self.comment_id);
        out.append(c.as_str());
        out.append("&levelID=");
        let l = u64_to_string(self.level_id);
        out.append(l.as_str());
        out
    }
}

} // verus!
