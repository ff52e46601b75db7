//! Requests for retrieving and searching users.

use vstd::prelude::*;

use crate::request::{auth_user_query_spec, base_is_gd21, base_query_spec, AuthenticatedUser, BaseRequest};
use crate::text::{dec_str, u64_to_string};

verus! {

/// A request that downloads one player's profile by account id.
#[derive(Debug, Clone, PartialEq, Eq)]
pub struct UserRequest {
    /// The base request data.
    pub base: BaseRequest,
    /// Credentials, when the caller wants the profile seen as a
    /// logged-in user.
    pub authenticated_user: Option<AuthenticatedUser>,
    /// The account id (not the user id) whose profile to retrieve.
    pub user: u64,
}

/// The query text of a user request; the credential fields appear
/// only when credentials were attached.
pub open spec fn user_query_spec(r: UserRequest) -> Seq<char> {
    base_query_spec(r.base) + (match r.authenticated_user {
        Option::None => Seq::<char>::empty(),
        Option::Some(u) => "&"@ + auth_user_query_spec(u),
    }) + "&targetAccountID="@ + dec_str(r.user as nat)
}

impl UserRequest {
    /// A request for the profile of `user_id`, unauthenticated.
    pub fn new(user_id: u64) -> (r: UserRequest)
        ensures
            base_is_gd21(r.base),
            r.authenticated_user is None,
            r.user == user_id,
    {
        UserRequest { base: BaseRequest::gd21(), authenticated_user: None, user: user_id }
    }

    /// A request for the profile of `user_id`, seen as
    /// `authenticated_user`.
    pub fn with_authenticated_user(authenticated_user: AuthenticatedUser, user_id: u64) -> (r:
        UserRequest)
        ensures
            base_is_gd21(r.base),
            r.authenticated_user == Option::Some(authenticated_user),
            r.user == user_id,
    {
        UserRequest {
            base: BaseRequest::gd21(),
            authenticated_user: Some(authenticated_user),
            user: user_id,
        }
    }

    /// The endpoint's URL.
    pub fn to_url(&self) -> (r: String)
        ensures
            r@ == "http://www.boomlings.com/database/getGJUserInfo20.php"@,
    {
        String::from_str("http://www.boomlings.com/database/getGJUserInfo20.php")
    }

    /// The request body, exactly as [`user_query_spec`] describes.
    pub fn query_string(&self) -> (r: String)
        ensures
            r@ == user_query_spec(*self),
    {
        let mut out = String::new();
        self.base.write_query(&mut out);
        match &self.authenticated_user {
            Option::None => {},
            Option::Some(u) => {
                out.append("&");
                u.write_query(&mut out);
            },
        }
        out.append("&targetAccountID=");
        let t = u64_to_string(self.user);
        out.append(t.as_str());
        out
    }
}

/// A request that searches users by name.  The service matches the
/// name exactly, so at most one user comes back.
#[derive(Debug, Clone, PartialEq, Eq)]
pub struct UserSearchRequest {
    /// The base request data.
    pub base: BaseRequest,
    /// An opaque pagination field the service expects.
    pub total: u32,
    /// The zero-based page to retrieve.
    pub page: u32,
    /// The name being searched for.
    pub search_string: String,
}

/// The query text of a user-search request.
pub open spec fn user_search_query_spec(r: UserSearchRequest) -> Seq<char> {
    base_query_spec(r.base) + "&total="@ + dec_str(r.total as nat) + "&page="@ + dec_str(
        r.page as nat,
    ) + "&str="@ + r.search_string@
}

impl UserSearchRequest {
    /// A request that searches for `search_string`.
    pub fn new(search_string: &str) -> (r: UserSearchRequest)
        ensures
            base_is_gd21(r.base),
            r.total == 0u32 && r.page == 0u32,
            r.search_string@ == search_string@,
    {
        UserSearchRequest {
            base: BaseRequest::gd21(),
            total: 0,
            page: 0,
            search_string: String::from_str(search_string),
        }
    }

    /// The endpoint's URL.
    pub fn to_url(&self) -> (r: String)
        ensures
            r@ == "http://www.boomlings.com/database/getGJUsers20.php"@,
    {
        String::from_str("http://www.boomlings.com/database/getGJUsers20.php")
    }

    /// The request body, exactly as [`user_search_query_spec`]
    /// describes.
    pub fn query_string(&self) -> (r: String)
        ensures
            r@ == user_search_query_spec(*self),
    {
        let mut out = String::new();
        self.base.write_query(&mut out);
        out.append("&total=");
        let t = u64_to_string(self.total as u64);
        out.append(t.as_str());
        out.append("&page=");
        let p = u64_to_string(self.page as u64);
        out.append(p.as_str());
        out.append("&str=");
        out.append(self.search_string.as_str());
        out
    }
}

} // verus!
