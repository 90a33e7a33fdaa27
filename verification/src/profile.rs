use vstd::prelude::*;
use crate::api_response::{
    ApiResponse,
    Reply,
    STATUS_INTERNAL_SERVER_ERROR,
    STATUS_NOT_FOUND,
    STATUS_OK,
};
use crate::entity::{AuthUser, Student, Teacher, User};
use crate::ids::{uuid_text, uuid_text_of};
use crate::role::{role_from_name, Role};
use crate::store::DbError;

verus! {

/// What `/api/user/me` answers with.
pub enum ProfileData {
    /// A teacher or student: their record id, names, e-mail, stored role
    /// text, picture, and the name of their class when it was found.
    Member {
        id: u128,
        first_name: String,
        last_name: String,
        email: String,
        role: String,
        image_url: String,
        class_name: Option<String>,
    },
    /// An administrator: e-mail and stored role text only.
    Admin { email: String, role: String },
}

/// `d` shows the member with this record id and personal data, for the
/// account, with the class name given.
pub open spec fn is_member_data(
    d: ProfileData,
    id: u128,
    user: User,
    account: AuthUser,
    class_name: Option<Seq<char>>,
) -> bool {
    match d {
        ProfileData::Member { id: i, first_name, last_name, email, role, image_url, class_name: c } => {
            &&& i == id
            &&& first_name == user.first_name
            &&& last_name == user.last_name
            &&& email == account.email
            &&& role == account.role
            &&& image_url == user.image_url
            &&& match c {
                Some(n) => class_name == Some(n@),
                None => class_name is None,
            }
        },
        ProfileData::Admin { .. } => false,
    }
}

/// `r` is HTTP 200 `User data retrieved` with data.
pub open spec fn is_profile_reply(r: Reply<ProfileData>) -> bool {
    &&& r.0 == STATUS_OK
    &&& r.1.status == 200
    &&& r.1.message@ == "User data retrieved"@
    &&& r.1.data is Some
}

/// `r` is the failure reply with this status and message.
pub open spec fn is_error_reply<T>(r: Reply<T>, code: u16, message: Seq<char>) -> bool {
    &&& r.0 == code
    &&& r.1.status == 400
    &&& r.1.message@ == message
    &&& r.1.data is None
}

/// The account whose profile is being gathered.
pub struct ProfileLookup {
    pub account: AuthUser,
}

/// A member's profile that waits for the name of their class.
pub struct PendingProfileClass {
    pub account: AuthUser,
    pub id: u128,
    pub user: User,
}

/// What the profile lookup needs next.
pub enum ProfileNext {
    /// Read the teacher record with this id, then call `ProfileLookup::on_teacher`.
    FetchTeacher(ProfileLookup, u128),
    /// Read the student record with this id, then call `ProfileLookup::on_student`.
    FetchStudent(ProfileLookup, u128),
    /// Look up the class with this id text, then call `PendingProfileClass::on_class_name`.
    FetchClassName(PendingProfileClass, String),
    /// Send this reply.
    Done(Reply<ProfileData>),
}

/// Starts the profile lookup on the account read for the token's e-mail.
pub fn profile_start(found: Result<Option<AuthUser>, DbError>) -> (next: ProfileNext)
    ensures
        match found {
            Err(_) => next matches ProfileNext::Done(r) && is_error_reply(
                r,
                STATUS_INTERNAL_SERVER_ERROR,
                "Internal server error"@,
            ),
            Ok(None) => next matches ProfileNext::Done(r) && is_error_reply(
                r,
                STATUS_NOT_FOUND,
                "User not found"@,
            ),
            Ok(Some(a)) => match role_from_name(a.role@) {
                Role::Teacher => next == ProfileNext::FetchTeacher(
                    (ProfileLookup { account: a }),
                    a.user_id,
                ),
                Role::Student => next == ProfileNext::FetchStudent(
                    (ProfileLookup { account: a }),
                    a.user_id,
                ),
                Role::Admin => next matches ProfileNext::Done(r) && is_profile_reply(r)
                    && r.1.data == Some((ProfileData::Admin { email: a.email, role: a.role })),
            },
        },
{
    match found {
        Err(_) => ProfileNext::Done(
            ApiResponse::error(STATUS_INTERNAL_SERVER_ERROR, "Internal server error"),
        ),
        Ok(None) => ProfileNext::Done(ApiResponse::error(STATUS_NOT_FOUND, "User not found")),
        Ok(Some(a)) => {
            let role = Role::from_name(a.role.as_str());
            let user_id = a.user_id;
            match role {
                Role::Teacher => ProfileNext::FetchTeacher(ProfileLookup { account: a }, user_id),
                Role::Student => ProfileNext::FetchStudent(ProfileLookup { account: a }, user_id),
                Role::Admin => ProfileNext::Done(
                    ApiResponse::ok(
                        "User data retrieved",
                        ProfileData::Admin { email: a.email, role: a.role },
                    ),
                ),
            }
        },
    }
}

/// `next` follows a member record: look up the class when there is one,
/// else answer without a class name.
pub open spec fn after_member(
    next: ProfileNext,
    account: AuthUser,
    id: u128,
    user: User,
    class_id: Option<u128>,
) -> bool {
    match class_id {
        Some(c) => next matches ProfileNext::FetchClassName(p, text) && p == (PendingProfileClass {
            account,
            id,
            user,
        }) && text@ == uuid_text_of(c),
        None => next matches ProfileNext::Done(r) && is_profile_reply(r) && is_member_data(
            r.1.data->Some_0,
            id,
            user,
            account,
            None,
        ),
    }
}

fn member_data(account: AuthUser, id: u128, user: User, class_name: Option<String>) -> (d:
    ProfileData)
    ensures
        is_member_data(
            d,
            id,
            user,
            account,
            match class_name {
                Some(n) => Some(n@),
                None => None,
            },
        ),
        d matches ProfileData::Member { id: i, first_name: f, last_name: l, email: e, role: ro, image_url: im, class_name: c }
            && i == id && f@ == user.first_name@ && l@ == user.last_name@ && e@ == account.email@
            && ro@ == account.role@ && im@ == user.image_url@ && c == class_name,
{
    ProfileData::Member {
        id,
        first_name: user.first_name,
        last_name: user.last_name,
        email: account.email,
        role: account.role,
        image_url: user.image_url,
        class_name,
    }
}

fn continue_member(account: AuthUser, id: u128, user: User, class_id: Option<u128>) -> (next:
    ProfileNext)
    ensures
        after_member(next, account, id, user, class_id),
        match class_id {
            Some(c) => next matches ProfileNext::FetchClassName(p, text) && p.account == account
                && p.id == id && p.user == user && text@ == uuid_text_of(c),
            None => next matches ProfileNext::Done(r) && r.0 == STATUS_OK && (r.1.data matches Some(
                ProfileData::Member { id: i, first_name: f, last_name: l, email: e, role: ro, image_url: im, class_name: c },
            ) && i == id && f@ == user.first_name@ && l@ == user.last_name@ && e@ == account.email@
                && ro@ == account.role@ && im@ == user.image_url@ && c is None),
        },
{
    match class_id {
        Some(c) => {
            let text = uuid_text(c);
            ProfileNext::FetchClassName(PendingProfileClass { account, id, user }, text)
        },
        None => ProfileNext::Done(
            ApiResponse::ok("User data retrieved", member_data(account, id, user, None)),
        ),
    }
}

impl ProfileLookup {
    /// Continues with the teacher record read: a missing or unreadable record
    /// answers HTTP 404 `User not found`.
    pub fn on_teacher(self, found: Result<Option<Teacher>, DbError>) -> (next: ProfileNext)
        ensures
            match found {
                Ok(Some(t)) => after_member(
                    next,
                    self.account,
                    t.id,
                    t.user,
                    t.homeroom_class_id,
                ),
                _ => next matches ProfileNext::Done(r) && is_error_reply(
                    r,
                    STATUS_NOT_FOUND,
                    "User not found"@,
                ),
            },
            found matches Ok(Some(t)) ==> match t.homeroom_class_id {
                Some(c) => next matches ProfileNext::FetchClassName(p, text) && p.account
                    == self.account && p.id == t.id && p.user.first_name@ == t.user.first_name@
                    && p.user.last_name@ == t.user.last_name@ && p.user.image_url@
                    == t.user.image_url@ && text@ == uuid_text_of(c),
                None => next matches ProfileNext::Done(r) && r.0 == STATUS_OK && (r.1.data matches Some(
                    ProfileData::Member { id: i, first_name: f, last_name: l, email: e, role: ro, image_url: im, class_name: cn },
                ) && i == t.id && f@ == t.user.first_name@ && l@ == t.user.last_name@ && e@
                    == self.account.email@ && ro@ == self.account.role@ && im@
                    == t.user.image_url@ && cn is None),
            },
    {
        match found {
            Ok(Some(t)) => continue_member(self.account, t.id, t.user, t.homeroom_class_id),
            _ => ProfileNext::Done(ApiResponse::error(STATUS_NOT_FOUND, "User not found")),
        }
    }

    /// Continues with the student record read: a missing or unreadable record
    /// answers HTTP 404 `User not found`.
    pub fn on_student(self, found: Result<Option<Student>, DbError>) -> (next: ProfileNext)
        ensures
            match found {
                Ok(Some(s)) => after_member(next, self.account, s.id, s.user, Some(s.class_id)),
                _ => next matches ProfileNext::Done(r) && is_error_reply(
                    r,
                    STATUS_NOT_FOUND,
                    "User not found"@,
                ),
            },
            found matches Ok(Some(s)) ==> (next matches ProfileNext::FetchClassName(p, text)
                && p.account == self.account && p.id == s.id && p.user.first_name@
                == s.user.first_name@ && p.user.last_name@ == s.user.last_name@
                && p.user.image_url@ == s.user.image_url@ && text@ == uuid_text_of(s.class_id)),
    {
        match found {
            Ok(Some(s)) => continue_member(self.account, s.id, s.user, Some(s.class_id)),
            _ => ProfileNext::Done(ApiResponse::error(STATUS_NOT_FOUND, "User not found")),
        }
    }
}

impl PendingProfileClass {
    /// Answers with the member's profile; the class name is shown only when
    /// the lookup found one, a failed lookup just leaves it out.
    pub fn on_class_name(self, found: Result<Option<String>, DbError>) -> (r: Reply<ProfileData>)
        ensures
            is_profile_reply(r),
            is_member_data(
                r.1.data->Some_0,
                self.id,
                self.user,
                self.account,
                match found {
                    Ok(Some(n)) => Some(n@),
                    _ => None,
                },
            ),
            r.1.data matches Some(
                ProfileData::Member { id: i, first_name: f, last_name: l, email: e, role: ro, image_url: im, class_name: c },
            ) && i == self.id && f@ == self.user.first_name@ && l@ == self.user.last_name@ && e@
                == self.account.email@ && ro@ == self.account.role@ && im@ == self.user.image_url@
                && match found {
                Ok(Some(n)) => c matches Some(cn) && cn@ == n@,
                _ => c is None,
            },
    {
        let class_name = match found {
            Ok(Some(n)) => Some(n),
            _ => None,
        };
        ApiResponse::ok("User data retrieved", member_data(self.account, self.id, self.user, class_name))
    }
}

/// The profile shown for a member is that person's record: the record id,
/// their names and stored picture, the account's e-mail and role text, and
/// exactly the class name that was found.
pub proof fn lemma_member_data_shows_the_record(
    d: ProfileData,
    id: u128,
    user: User,
    account: AuthUser,
    class_name: Option<Seq<char>>,
)
    requires
        is_member_data(d, id, user, account, class_name),
    ensures
        d matches ProfileData::Member { id: i, first_name: f, last_name: l, email: e, role: ro, image_url: im, class_name: c }
            && i == id && f@ == user.first_name@ && l@ == user.last_name@ && e@ == account.email@
            && ro@ == account.role@ && im@ == user.image_url@ && (match c {
            Some(n) => class_name == Some(n@),
            None => class_name is None,
        }),
{
}

} // verus!
