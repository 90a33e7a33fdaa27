use vstd::prelude::*;
use crate::api_response::{ApiResponse, Reply, STATUS_UNAUTHORIZED};
use crate::jwt::Claims;
use crate::text::{or_default, same_text};

verus! {

/// The scheme prefix of a bearer `Authorization` header.
pub open spec fn bearer_prefix() -> Seq<char> {
    "Bearer "@
}

/// The token of an `Authorization` header of the form `Bearer <token>`, or
/// `None` when the header does not start with `Bearer `.
pub open spec fn bearer_token_of(h: Seq<char>) -> Option<Seq<char>> {
    if h.len() >= 7 && h.subrange(0, 7) == bearer_prefix() {
        Some(h.subrange(7, h.len() as int))
    } else {
        None
    }
}

/// A header carries exactly the token `t` when it is `Bearer ` followed by `t`.
pub proof fn lemma_bearer_token_exact(h: Seq<char>, t: Seq<char>)
    ensures
        bearer_token_of(h) == Some(t) <==> h == bearer_prefix() + t,
{
    reveal_strlit("Bearer ");
    if h == bearer_prefix() + t {
        assert(h.subrange(0, 7) =~= bearer_prefix());
        assert(h.subrange(7, h.len() as int) =~= t);
    }
    if bearer_token_of(h) == Some(t) {
        assert(h =~= bearer_prefix() + t);
    }
}

/// The token of a bearer header, or `None` when the header is not of the
/// form `Bearer <token>`.
pub fn bearer_token(header: &str) -> (r: Option<String>)
    ensures
        match bearer_token_of(header@) {
            Some(t) => r matches Some(s) && s@ == t,
            None => r is None,
        },
{
    proof {
        reveal_strlit("Bearer ");
    }
    let n = header.unicode_len();
    if n < 7 {
        return None;
    }
    let prefix = header.substring_char(0, 7);
    if same_text(prefix, "Bearer ") {
        Some(header.substring_char(7, n).to_owned())
    } else {
        None
    }
}

/// The secret tokens are signed with: the `JWT_SECRET` setting, or
/// `mysecret` when it is absent.
pub fn jwt_secret(setting: Option<String>) -> (s: String)
    ensures
        s@ == (match setting {
            Some(v) => v@,
            None => "mysecret"@,
        }),
{
    or_default(setting, "mysecret")
}

/// The token internal callers must present: the `INTERNAL_API_TOKEN`
/// setting, or `your_secret_token_here` when it is absent.
pub fn internal_token(setting: Option<String>) -> (s: String)
    ensures
        s@ == (match setting {
            Some(v) => v@,
            None => "your_secret_token_here"@,
        }),
{
    or_default(setting, "your_secret_token_here")
}

/// The claims of an authenticated request.
pub struct Auth(pub Claims);

/// A rejection of the user authentication: HTTP 401 with an envelope whose
/// status is 401 too and which carries no data.
pub open spec fn is_auth_rejection(r: Reply<()>, message: Seq<char>) -> bool {
    &&& r.0 == STATUS_UNAUTHORIZED
    &&& r.1.status == 401
    &&& r.1.message@ == message
    &&& r.1.data is None
}

fn unauthorized(message: &str) -> (r: Reply<()>)
    ensures
        is_auth_rejection(r, message@),
{
    (STATUS_UNAUTHORIZED, ApiResponse { status: 401, message: message.to_owned(), data: None })
}

/// The first step of user authentication, on the `Authorization` header
/// (`None` when it is absent or not visible ASCII): the token to verify, or
/// the rejection.
pub fn auth_token_from_header(header: Option<&str>) -> (r: Result<String, Reply<()>>)
    ensures
        match header {
            None => r matches Err(e) && is_auth_rejection(e, "Thiếu header Authorization"@),
            Some(h) => match bearer_token_of(h@) {
                Some(t) => r matches Ok(s) && s@ == t,
                None => r matches Err(e) && is_auth_rejection(e, "Sai định dạng token"@),
            },
        },
{
    match header {
        None => Err(unauthorized("Thiếu header Authorization")),
        Some(h) => match bearer_token(h) {
            Some(t) => Ok(t),
            None => Err(unauthorized("Sai định dạng token")),
        },
    }
}

/// The last step of user authentication, on the outcome of verifying the
/// token: the claims it carries, or the rejection of an invalid token.
pub fn auth_from_verification(verified: Result<Claims, ()>) -> (r: Result<Auth, Reply<()>>)
    ensures
        match verified {
            Ok(c) => r matches Ok(a) && a.0 == c,
            Err(_) => r matches Err(e) && is_auth_rejection(e, "Token không hợp lệ"@),
        },
{
    match verified {
        Ok(c) => Ok(Auth(c)),
        Err(_) => Err(unauthorized("Token không hợp lệ")),
    }
}

/// Proof that a request carried the internal API token.
pub struct InternalAuth;

/// Checks the `Authorization` header of an internal request against the
/// expected token. Accepted exactly when the header is `Bearer ` followed by
/// that token; otherwise HTTP 401 with the reason.
pub fn internal_auth(header: Option<&str>, expected: &str) -> (r: Result<InternalAuth, Reply<()>>)
    ensures
        r is Ok <==> (header matches Some(h) && h@ == bearer_prefix() + expected@),
        match header {
            Some(h) => match bearer_token_of(h@) {
                Some(t) => if t == expected@ {
                    r is Ok
                } else {
                    r matches Err(e) && e.0 == STATUS_UNAUTHORIZED && e.1.status == 400
                        && e.1.message@ == "Invalid token"@ && e.1.data is None
                },
                None => r matches Err(e) && e.0 == STATUS_UNAUTHORIZED && e.1.status == 400
                    && e.1.message@ == "Missing or invalid Authorization header"@
                    && e.1.data is None,
            },
            None => r matches Err(e) && e.0 == STATUS_UNAUTHORIZED && e.1.status == 400
                && e.1.message@ == "Missing or invalid Authorization header"@ && e.1.data is None,
        },
{
    let r = match header {
        Some(h) => match bearer_token(h) {
            Some(t) => {
                if same_text(t.as_str(), expected) {
                    Ok(InternalAuth)
                } else {
                    Err(ApiResponse::error(STATUS_UNAUTHORIZED, "Invalid token"))
                }
            },
            None => Err(
                ApiResponse::error(STATUS_UNAUTHORIZED, "Missing or invalid Authorization header"),
            ),
        },
        None => Err(
            ApiResponse::error(STATUS_UNAUTHORIZED, "Missing or invalid Authorization header"),
        ),
    };
    proof {
        if let Some(h) = header {
            lemma_bearer_token_exact(h@, expected@);
        }
    }
    r
}

} // verus!
