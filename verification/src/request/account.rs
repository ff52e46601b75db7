//! The login request and the pure part of turning its response into
//! an authenticated user.

use vstd::prelude::*;

use crate::codec::{split_spec, split_text, str_views};
use crate::error::AuthenticationError;
use crate::pipeline::{auth_token, auth_token_spec};
use crate::request::AuthenticatedUser;
use crate::text::{parse_u64, parse_u64_spec, str_to_chars};

verus! {

/// A request to the account login endpoint.
#[derive(Debug, Clone, PartialEq, Eq)]
pub struct LoginRequest {
    /// The unique device identifier; any value in the accepted range
    /// works.
    pub udid: String,
    /// The user name to authenticate.
    pub user_name: String,
    /// The plaintext password to authenticate with.
    pub password: String,
    /// The secret token of the account endpoints.
    pub secret: String,
}

/// The query text of a login request:
/// `udid=..&userName=..&password=..&secret=..`.
pub open spec fn login_query_spec(r: LoginRequest) -> Seq<char> {
    "udid="@ + r.udid@ + "&userName="@ + r.user_name@ + "&password="@ + r.password@ + "&secret="@
        + r.secret@
}

/// The account id at the front of a successful login response:
/// everything before the first comma, read as a number.
pub open spec fn login_account_id(body: Seq<char>) -> Option<u64> {
    parse_u64_spec(split_spec(body, ',')[0])
}

impl LoginRequest {
    /// The empty login request: a fixed device identifier and the
    /// account secret, with name and password still to fill in.
    pub fn default() -> (r: LoginRequest)
        ensures
            r.udid@ == "100000"@,
            r.user_name@ == Seq::<char>::empty(),
            r.password@ == Seq::<char>::empty(),
            r.secret@ == "Wmfv3899gc9"@,
    {
        LoginRequest {
            udid: String::from_str("100000"),
            user_name: String::new(),
            password: String::new(),
            secret: String::from_str("Wmfv3899gc9"),
        }
    }

    /// Replaces the user name.
    pub fn user_name(self, user_name: &str) -> (r: LoginRequest)
        ensures
            r.user_name@ == user_name@,
            r.udid == self.udid,
            r.password == self.password,
            r.secret == self.secret,
    {
        LoginRequest { user_name: String::from_str(user_name), ..self }
    }

    /// Replaces the password.
    pub fn password(self, password: &str) -> (r: LoginRequest)
        ensures
            r.password@ == password@,
            r.udid == self.udid,
            r.user_name == self.user_name,
            r.secret == self.secret,
    {
        LoginRequest { password: String::from_str(password), ..self }
    }

    /// The login endpoint's URL.
    pub fn to_url(&self) -> (r: String)
        ensures
            r@ == "http://www.boomlings.com/database/accounts/loginGJAccount.php"@,
    {
        String::from_str("http://www.boomlings.com/database/accounts/loginGJAccount.php")
    }

    /// The request body, exactly as [`login_query_spec`] describes.
    pub fn query_string(&self) -> (r: String)
        ensures
            r@ == login_query_spec(*self),
    {
        let mut out = String::new();
        out.append("udid=");
        out.append(self.udid.as_str());
        out.append("&userName=");
        out.append(self.user_name.as_str());
        out.append("&password=");
        out.append(self.password.as_str());
        out.append("&secret=");
        out.append(self.secret.as_str());
        out
    }
}

/// Turns a login response body into an authenticated user: `-1`
/// means rejected credentials; otherwise the text before the first
/// comma must be the account id.  The stored token is derived from
/// the password, never the password itself.
pub fn parse_login_response(user_name: &str, password: &str, body: &str) -> (r: Result<
    AuthenticatedUser,
    AuthenticationError,
>)
    ensures
        body@ == "-1"@ ==> (r matches Err(e) && e.reason@ == "invalid credentials"@),
        (body@ != "-1"@ && login_account_id(body@) is Some) ==> (r matches Ok(u) && u.user_name@
            == user_name@ && u.account_id == login_account_id(body@)->Some_0 && u.password_hash@
            == auth_token_spec(password@)),
        (body@ != "-1"@ && login_account_id(body@) is None) ==> (r matches Err(e) && e.reason@
            == "malformed login response"@),
{
    let bc = str_to_chars(body);
    let minus_one = bc.len() == 2 && bc[0] == '-' && bc[1] == '1';
    proof {
        reveal_strlit("-1");
        if minus_one {
            assert(body@ =~= "-1"@);
        } else {
            assert(body@ != "-1"@);
        }
    }
    if minus_one {
        return Err(AuthenticationError { reason: String::from_str("invalid credentials") });
    }
    let parts = split_text(body, ',');
    proof {
        assert(str_views(parts@)[0] == parts@[0]@);
    }
    let id_chars = str_to_chars(parts[0].as_str());
    match parse_u64(&id_chars) {
        Option::None => Err(
            AuthenticationError { reason: String::from_str("malformed login response") },
        ),
        Option::Some(account_id) => Ok(
            AuthenticatedUser {
                user_name: String::from_str(user_name),
                account_id,
                password_hash: auth_token(password),
            },
        ),
    }
}

} // verus!
