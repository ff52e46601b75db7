use dash_rs::request::account::LoginRequest;
use dash_rs::request::comment::{
    CommentHistoryRequest, DeleteCommentRequest, LevelCommentsRequest, ProfileCommentsRequest,
    SortMode, UploadCommentRequest,
};
use dash_rs::request::user::{UserRequest, UserSearchRequest};
use dash_rs::request::{AuthenticatedUser, BaseRequest, GameVersion};

fn test_authenticated_user() -> AuthenticatedUser {
    AuthenticatedUser::new(
        String::from("TestUser"),
        472634,
        String::from("VGhpc0lzQUZha2VQYXNzd29yZA=="),
    )
}

#[test]
fn serialize_login_request() {
    let request = LoginRequest::default()
        .user_name("TestUser")
        .password("PLAIN_TEXT_PASS_HERE");

    assert_eq!(
        request.query_string(),
        "udid=100000&userName=TestUser&password=PLAIN_TEXT_PASS_HERE&secret=Wmfv3899gc9"
    );
}

#[test]
fn serialize_level_comments() {
    let request = LevelCommentsRequest::new(1234).most_liked().page(2).limit(15);

    assert_eq!(
        request.query_string(),
        "gameVersion=21&binaryVersion=33&secret=Wmfd2893gb7&total=0&page=2&mode=1&levelID=1234&count=15"
    );
}

#[test]
fn serialize_profile_comments() {
    let request = ProfileCommentsRequest::new(1710032).page(2);

    assert_eq!(
        request.query_string(),
        "gameVersion=21&binaryVersion=33&secret=Wmfd2893gb7&total=0&page=2&accountID=1710032"
    );
}

#[test]
fn serialize_comment_history() {
    let request = CommentHistoryRequest::new(159782398)
        .sort_mode(SortMode::Recent)
        .page(0)
        .limit(2);

    assert_eq!(
        request.query_string(),
        "gameVersion=21&binaryVersion=33&secret=Wmfd2893gb7&total=0&page=0&mode=0&userID=159782398&count=2"
    );
}

#[test]
fn serialize_upload_comment() {
    let request = UploadCommentRequest::new(test_authenticated_user(), 85179632)
        .comment("This is a test comment")
        .percent(56)
        .generate_chk();

    assert_eq!(
        request.query_string(),
        "gameVersion=21&binaryVersion=33&secret=Wmfd2893gb7&userName=TestUser&accountID=472634&gjp=VGhpc0lzQUZha2VQYXNzd29yZA==&comment=VGhpcyBpcyBhIHRlc3QgY29tbWVudA==&levelID=85179632&percent=56&chk=UQsGAAEACgQBVQBaAwoGVwtSDQIEWAYOUFEAVQoIBVtWDwEHDQEJVA=="
    );
}

#[test]
fn serialize_delete_comment() {
    let request = DeleteCommentRequest::new(test_authenticated_user(), 85179632, 7000000);

    assert_eq!(
        request.query_string(),
        "gameVersion=21&binaryVersion=33&secret=Wmfd2893gb7&userName=TestUser&accountID=472634&gjp=VGhpc0lzQUZha2VQYXNzd29yZA==&commentID=7000000&levelID=85179632"
    );
}

#[test]
fn serialize_user_request() {
    let request = UserRequest::new(57903);

    assert_eq!(
        request.query_string(),
        "gameVersion=21&binaryVersion=33&secret=Wmfd2893gb7&targetAccountID=57903"
    );
}

#[test]
fn serialize_user_search_request() {
    let request = UserSearchRequest::new("Ryder");

    assert_eq!(
        request.query_string(),
        "gameVersion=21&binaryVersion=33&secret=Wmfd2893gb7&total=0&page=0&str=Ryder"
    );
}

#[test]
fn serialize_user_request_authenticated() {
    let request = UserRequest::with_authenticated_user(test_authenticated_user(), 57903);

    assert_eq!(
        request.query_string(),
        "gameVersion=21&binaryVersion=33&secret=Wmfd2893gb7&userName=TestUser&accountID=472634&gjp=VGhpc0lzQUZha2VQYXNzd29yZA==&targetAccountID=57903"
    );
}

#[test]
fn game_version_wire_number() {
    assert_eq!(GameVersion::new(2, 1).to_text(), "21");
    assert_eq!(GameVersion::new(3, 8).to_text(), "38");
}

#[test]
fn base_request_defaults() {
    let base: BaseRequest = Default::default();
    assert_eq!(base.game_version, GameVersion::new(2, 2));
    assert_eq!(base.secret, "Wmfd2893gb7");
    assert_eq!(
        dash_rs::request::get_gdps_url(),
        "http://www.boomlings.com/database/"
    );
}

#[test]
fn upload_comment_encodes_body() {
    let request = UploadCommentRequest::new(test_authenticated_user(), 1).comment("hello");
    assert_eq!(request.comment, "aGVsbG8=");
}
