use vstd::prelude::*;
use crate::api_response::{ApiResponse, Reply, STATUS_UNAUTHORIZED};
use crate::entity::{AuthUser, Student, Teacher};
use crate::ids::{uuid_text, uuid_text_of};
use crate::clock::{lemma_clock_reading_bounds, read_by_clock, Timestamp, CALENDAR_LAST_SECOND};
use crate::jwt::{create_jwt, expiry_after, issuable_at, jwt_signed, TokenError};
use crate::models::LoginResponse;
use crate::password::{bcrypt_accepts, check_password};
use crate::role::{role_from_name, Role};
use crate::store::DbError;

verus! {

/// Why a login failed.
#[derive(Debug, Clone, Copy, PartialEq, Eq, Structural)]
pub enum LoginError {
    /// The account could not be read (no account has that e-mail, or the query failed).
    Database,
    /// The stored hash could not be checked.
    PasswordCheck,
    /// The password does not match.
    InvalidCredentials,
    /// The account is a teacher's but no teacher record exists.
    TeacherNotFound,
    /// The account is a student's but no student record exists.
    StudentNotFound,
    /// No token could be issued at the instant the clock read.
    Token(TokenError, Timestamp),
}

impl LoginError {
    /// The text a failed login is reported with in the server's log.
    pub fn message(&self) -> (m: String)
        ensures
            m@ == match *self {
                LoginError::Database => "Database error"@,
                LoginError::PasswordCheck => "Password hash could not be checked"@,
                LoginError::InvalidCredentials => "Invalid credentials"@,
                LoginError::TeacherNotFound => "Teacher record not found user"@,
                LoginError::StudentNotFound => "Student record not found user"@,
                LoginError::Token(TokenError::Expiry, _) => "invalid timestamp"@,
                LoginError::Token(TokenError::Encoding, _) => "Error creating JWT"@,
            },
    {
        match self {
            LoginError::Database => "Database error".to_owned(),
            LoginError::PasswordCheck => "Password hash could not be checked".to_owned(),
            LoginError::InvalidCredentials => "Invalid credentials".to_owned(),
            LoginError::TeacherNotFound => "Teacher record not found user".to_owned(),
            LoginError::StudentNotFound => "Student record not found user".to_owned(),
            LoginError::Token(TokenError::Expiry, _) => "invalid timestamp".to_owned(),
            LoginError::Token(TokenError::Encoding, _) => "Error creating JWT".to_owned(),
        }
    }
}

/// The outcome of the first login step on the account found for the e-mail.
pub enum LoginGate {
    Refused(LoginError),
    Admitted(Role),
}

/// The first login step: the account must have been read and the password
/// must match its stored hash; then the account's role decides what follows.
pub open spec fn login_gate(record: Result<AuthUser, DbError>, password: Seq<char>) -> LoginGate {
    match record {
        Err(_) => LoginGate::Refused(LoginError::Database),
        Ok(r) => match bcrypt_accepts(password, r.password@) {
            None => LoginGate::Refused(LoginError::PasswordCheck),
            Some(false) => LoginGate::Refused(LoginError::InvalidCredentials),
            Some(true) => LoginGate::Admitted(role_from_name(r.role@)),
        },
    }
}

/// The profile data a login answers with.
pub struct LoginProfile {
    pub image_url: String,
    pub first_name: String,
    pub last_name: String,
    pub class_id: Option<u128>,
}

/// A login whose password was accepted: the account, its role, the secret
/// tokens are signed with, and (as a proof-only value) the password that
/// was checked. Only `login_start` makes one, so every value of this type
/// holds an account whose stored hash accepts the password given.
pub struct AdmittedLogin {
    record: AuthUser,
    role: Role,
    secret: String,
    password: Ghost<Seq<char>>,
}

impl AdmittedLogin {
    #[verifier::type_invariant]
    spec fn password_was_accepted(self) -> bool {
        &&& bcrypt_accepts(self.password@, self.record.password@) == Some(true)
        &&& self.role == role_from_name(self.record.role@)
    }

    /// The account that logs in.
    pub closed spec fn record(self) -> AuthUser {
        self.record
    }

    /// The role the account logs in under.
    pub closed spec fn role(self) -> Role {
        self.role
    }

    /// The secret its token is signed with.
    pub closed spec fn secret(self) -> Seq<char> {
        self.secret@
    }

    /// The password that was checked against the account's stored hash.
    pub closed spec fn password(self) -> Seq<char> {
        self.password@
    }
}

/// A login that waits for the name of the class of its profile.
pub struct PendingClassName {
    pub login: AdmittedLogin,
    pub profile: LoginProfile,
}

/// A login that went through: the response and the instant the token was
/// issued, which its expiry counts from.
pub struct LoginGranted {
    pub response: LoginResponse,
    pub issued_at: Timestamp,
}

/// What the login needs next.
pub enum LoginNext {
    /// Read the teacher record with this id, then call `AdmittedLogin::on_teacher`.
    FetchTeacher(AdmittedLogin, u128),
    /// Read the student record with this id, then call `AdmittedLogin::on_student`.
    FetchStudent(AdmittedLogin, u128),
    /// Look up the class with this id text, then call `PendingClassName::on_class_name`.
    FetchClassName(PendingClassName, String),
    /// The login is over.
    Done(Result<LoginGranted, LoginError>),
}

/// `res` is the answer of a login of an admitted account whose profile is
/// `profile` and whose class is named `class_name`: the account's user id, a
/// token for its user id text, stored role and e-mail that expires an hour
/// after the instant it was issued, an empty refresh token, the account's
/// role and the profile data. Such an answer exists only for an account whose
/// stored hash accepted the password given. A failure is a failure to issue
/// the token at the instant the clock read: that instant lies in the last
/// hour of the calendar, so the expiry an hour later would have no date.
pub open spec fn login_completed(
    res: Result<LoginGranted, LoginError>,
    login: AdmittedLogin,
    profile: LoginProfile,
    class_name: Seq<char>,
) -> bool {
    match res {
        Ok(g) => {
            let resp = g.response;
            &&& resp.uuid == login.record().user_id
            &&& resp.access_token@ == jwt_signed(
                uuid_text_of(login.record().user_id),
                expiry_after(g.issued_at),
                login.record().role@,
                login.record().email@,
                login.secret(),
            )
            &&& resp.refresh_token@ == Seq::<char>::empty()
            &&& resp.role == login.role()
            &&& resp.role == role_from_name(login.record().role@)
            &&& resp.image_url@ == profile.image_url@
            &&& resp.first_name@ == profile.first_name@
            &&& resp.last_name@ == profile.last_name@
            &&& resp.class@ == class_name
            &&& bcrypt_accepts(login.password(), login.record().password@) == Some(true)
            &&& read_by_clock(g.issued_at)
        },
        Err(e) => e matches LoginError::Token(k, at) && k == TokenError::Expiry && at.nanos
            < 1_000_000_000 && 0 <= at.secs <= CALENDAR_LAST_SECOND && !issuable_at(at)
            && read_by_clock(at),
    }
}

/// `next` is the step after a profile was found: look up its class when it
/// has one, else answer with an empty class name.
pub open spec fn after_profile(next: LoginNext, login: AdmittedLogin, profile: LoginProfile) -> bool {
    match profile.class_id {
        Some(id) => next matches LoginNext::FetchClassName(p, text) && p.login == login
            && p.profile == profile && text@ == uuid_text_of(id),
        None => next matches LoginNext::Done(res) && login_completed(
            res,
            login,
            profile,
            Seq::<char>::empty(),
        ),
    }
}

/// The profile of an administrator: no picture, first name `Admin`, no
/// last name, no class.
pub open spec fn is_admin_profile(p: LoginProfile) -> bool {
    &&& p.image_url@ == Seq::<char>::empty()
    &&& p.first_name@ == "Admin"@
    &&& p.last_name@ == Seq::<char>::empty()
    &&& p.class_id is None
}

/// `l` is the login admitted for this account, password and secret.
pub open spec fn is_admitted(l: AdmittedLogin, record: AuthUser, password: Seq<char>, secret: Seq<char>) -> bool {
    &&& l.record() == record
    &&& l.role() == role_from_name(record.role@)
    &&& l.password() == password
    &&& l.secret() == secret
}

fn empty_string() -> (s: String)
    ensures
        s@ == Seq::<char>::empty(),
{
    String::new()
}

fn complete_login(login: AdmittedLogin, profile: LoginProfile, class_name: String) -> (r: Result<
    LoginGranted,
    LoginError,
>)
    ensures
        login_completed(r, login, profile, class_name@),
        r matches Ok(g) ==> read_by_clock(g.issued_at) && g.response.first_name@
            == profile.first_name@ && g.response.last_name@ == profile.last_name@
            && g.response.image_url@ == profile.image_url@ && g.response.class@ == class_name@,
        r matches Err(e) ==> (e matches LoginError::Token(_, at) && read_by_clock(at)),
{
    proof {
        use_type_invariant(&login);
    }
    let sub = uuid_text(login.record.user_id);
    let (token, issued_at) = create_jwt(
        sub.as_str(),
        login.record.role.as_str(),
        login.record.email.as_str(),
        login.secret.as_str(),
    );
    match token {
        Err(e) => Err(LoginError::Token(e, issued_at)),
        Ok(t) => Ok(
            LoginGranted {
                response: LoginResponse {
                    uuid: login.record.user_id,
                    access_token: t,
                    refresh_token: empty_string(),
                    role: login.role,
                    image_url: profile.image_url,
                    first_name: profile.first_name,
                    last_name: profile.last_name,
                    class: class_name,
                },
                issued_at,
            },
        ),
    }
}

fn continue_with_profile(login: AdmittedLogin, profile: LoginProfile) -> (next: LoginNext)
    ensures
        after_profile(next, login, profile),
        match profile.class_id {
            Some(id) => next matches LoginNext::FetchClassName(p, text) && p.login == login
                && p.profile == profile && text@ == uuid_text_of(id),
            None => next matches LoginNext::Done(res) && (res matches Ok(g) ==> read_by_clock(
                g.issued_at,
            ) && g.response.first_name@ == profile.first_name@ && g.response.last_name@
                == profile.last_name@ && g.response.image_url@ == profile.image_url@
                && g.response.class@ == Seq::<char>::empty()),
        },
{
    match profile.class_id {
        Some(id) => {
            let text = uuid_text(id);
            LoginNext::FetchClassName(PendingClassName { login, profile }, text)
        },
        None => LoginNext::Done(complete_login(login, profile, empty_string())),
    }
}

/// Starts a login on the account read for the e-mail and the password given.
/// Only an account whose stored hash accepts the password is admitted.
pub fn login_start(record: Result<AuthUser, DbError>, password: &str, secret: String) -> (next:
    LoginNext)
    ensures
        match login_gate(record, password@) {
            LoginGate::Refused(e) => next == LoginNext::Done(Err(e)),
            LoginGate::Admitted(role) => match role {
                Role::Teacher => next matches LoginNext::FetchTeacher(l, id) && is_admitted(
                    l,
                    record->Ok_0,
                    password@,
                    secret@,
                ) && id == record->Ok_0.user_id,
                Role::Student => next matches LoginNext::FetchStudent(l, id) && is_admitted(
                    l,
                    record->Ok_0,
                    password@,
                    secret@,
                ) && id == record->Ok_0.user_id,
                Role::Admin => exists|l: AdmittedLogin, p: LoginProfile|
                    is_admitted(l, record->Ok_0, password@, secret@) && is_admin_profile(p)
                        && after_profile(next, l, p),
            },
        },
        next matches LoginNext::Done(Ok(g)) ==> read_by_clock(g.issued_at)
            && g.response.uuid == record->Ok_0.user_id && g.response.first_name@ == "Admin"@
            && g.response.last_name@ == Seq::<char>::empty() && g.response.image_url@
            == Seq::<char>::empty() && g.response.class@ == Seq::<char>::empty(),
{
    let record = match record {
        Err(_) => return LoginNext::Done(Err(LoginError::Database)),
        Ok(r) => r,
    };
    match check_password(password, record.password.as_str()) {
        Err(_) => LoginNext::Done(Err(LoginError::PasswordCheck)),
        Ok(false) => LoginNext::Done(Err(LoginError::InvalidCredentials)),
        Ok(true) => {
            let role = Role::from_name(record.role.as_str());
            let user_id = record.user_id;
            let login = AdmittedLogin { record, role, secret, password: Ghost(password@) };
            match role {
                Role::Teacher => LoginNext::FetchTeacher(login, user_id),
                Role::Student => LoginNext::FetchStudent(login, user_id),
                Role::Admin => {
                    proof {
                        reveal_strlit("Admin");
                    }
                    let profile = LoginProfile {
                        image_url: empty_string(),
                        first_name: "Admin".to_owned(),
                        last_name: empty_string(),
                        class_id: None,
                    };
                    let ghost p = profile;
                    let ghost l = login;
                    let next = continue_with_profile(login, profile);
                    assert(is_admitted(l, l.record(), password@, l.secret()) && is_admin_profile(p)
                        && after_profile(next, l, p));
                    next
                },
            }
        },
    }
}

/// The profile data of a teacher: their picture and names, and the class
/// they are homeroom teacher of.
pub open spec fn teacher_profile(t: Teacher, p: LoginProfile) -> bool {
    &&& p.image_url == t.user.image_url
    &&& p.first_name == t.user.first_name
    &&& p.last_name == t.user.last_name
    &&& p.class_id == t.homeroom_class_id
}

/// The profile data of a student: their picture and names, and their class.
pub open spec fn student_profile(s: Student, p: LoginProfile) -> bool {
    &&& p.image_url == s.user.image_url
    &&& p.first_name == s.user.first_name
    &&& p.last_name == s.user.last_name
    &&& p.class_id == Some(s.class_id)
}

impl AdmittedLogin {
    /// Continues a teacher's login with the teacher record that was read.
    pub fn on_teacher(self, found: Result<Option<Teacher>, DbError>) -> (next: LoginNext)
        ensures
            bcrypt_accepts(self.password(), self.record().password@) == Some(true),
            match found {
                Err(_) => next == LoginNext::Done(Err(LoginError::Database)),
                Ok(None) => next == LoginNext::Done(Err(LoginError::TeacherNotFound)),
                Ok(Some(t)) => exists|p: LoginProfile|
                    teacher_profile(t, p) && after_profile(next, self, p),
            },
            found matches Ok(Some(t)) ==> match t.homeroom_class_id {
                Some(c) => next matches LoginNext::FetchClassName(p, text) && p.login == self
                    && p.profile.first_name@ == t.user.first_name@ && p.profile.last_name@
                    == t.user.last_name@ && p.profile.image_url@ == t.user.image_url@
                    && p.profile.class_id == Some(c) && text@ == uuid_text_of(c),
                None => next matches LoginNext::Done(res) && (res matches Ok(g) ==> read_by_clock(
                    g.issued_at,
                ) && g.response.first_name@ == t.user.first_name@ && g.response.last_name@
                    == t.user.last_name@ && g.response.image_url@ == t.user.image_url@
                    && g.response.class@ == Seq::<char>::empty()),
            },
    {
        proof {
            use_type_invariant(&self);
        }
        match found {
            Err(_) => LoginNext::Done(Err(LoginError::Database)),
            Ok(None) => LoginNext::Done(Err(LoginError::TeacherNotFound)),
            Ok(Some(t)) => {
                let ghost login = self;
                let profile = LoginProfile {
                    image_url: t.user.image_url,
                    first_name: t.user.first_name,
                    last_name: t.user.last_name,
                    class_id: t.homeroom_class_id,
                };
                let ghost p = profile;
                let next = continue_with_profile(self, profile);
                assert(teacher_profile(t, p) && after_profile(next, login, p));
                next
            },
        }
    }

    /// Continues a student's login with the student record that was read.
    pub fn on_student(self, found: Result<Option<Student>, DbError>) -> (next: LoginNext)
        ensures
            bcrypt_accepts(self.password(), self.record().password@) == Some(true),
            match found {
                Err(_) => next == LoginNext::Done(Err(LoginError::Database)),
                Ok(None) => next == LoginNext::Done(Err(LoginError::StudentNotFound)),
                Ok(Some(s)) => exists|p: LoginProfile|
                    student_profile(s, p) && after_profile(next, self, p),
            },
            found matches Ok(Some(s)) ==> (next matches LoginNext::FetchClassName(p, text)
                && p.login == self && p.profile.first_name@ == s.user.first_name@
                && p.profile.last_name@ == s.user.last_name@ && p.profile.image_url@
                == s.user.image_url@ && p.profile.class_id == Some(s.class_id) && text@
                == uuid_text_of(s.class_id)),
    {
        proof {
            use_type_invariant(&self);
        }
        match found {
            Err(_) => LoginNext::Done(Err(LoginError::Database)),
            Ok(None) => LoginNext::Done(Err(LoginError::StudentNotFound)),
            Ok(Some(s)) => {
                let ghost login = self;
                let profile = LoginProfile {
                    image_url: s.user.image_url,
                    first_name: s.user.first_name,
                    last_name: s.user.last_name,
                    class_id: Some(s.class_id),
                };
                let ghost p = profile;
                let next = continue_with_profile(self, profile);
                assert(student_profile(s, p) && after_profile(next, login, p));
                next
            },
        }
    }
}

impl PendingClassName {
    /// Finishes the login with the outcome of the class lookup: a missing
    /// class gives an empty class name, a failed lookup fails the login.
    pub fn on_class_name(self, found: Result<Option<String>, DbError>) -> (r: Result<
        LoginGranted,
        LoginError,
    >)
        ensures
            match found {
                Err(_) => r == Err::<LoginGranted, LoginError>(LoginError::Database),
                Ok(None) => login_completed(r, self.login, self.profile, Seq::<char>::empty()),
                Ok(Some(name)) => login_completed(r, self.login, self.profile, name@),
            },
            r matches Ok(g) ==> read_by_clock(g.issued_at) && g.response.first_name@
                == self.profile.first_name@ && g.response.last_name@ == self.profile.last_name@
                && g.response.image_url@ == self.profile.image_url@,
            match found {
                Ok(Some(name)) => r matches Ok(g) ==> g.response.class@ == name@,
                _ => r matches Ok(g) ==> g.response.class@ == Seq::<char>::empty(),
            },
    {
        match found {
            Err(_) => Err(LoginError::Database),
            Ok(None) => complete_login(self.login, self.profile, empty_string()),
            Ok(Some(name)) => complete_login(self.login, self.profile, name),
        }
    }
}

/// The reply to a login request: HTTP 200 with the login data, or HTTP 401
/// `Invalid credentials` whatever went wrong.
pub fn login_reply(r: Result<LoginResponse, LoginError>) -> (reply: Reply<LoginResponse>)
    ensures
        match r {
            Ok(resp) => reply.0 == 200 && reply.1.status == 200 && reply.1.message@
                == "Login successful"@ && reply.1.data == Some(resp),
            Err(_) => reply.0 == STATUS_UNAUTHORIZED && reply.1.status == 400 && reply.1.message@
                == "Invalid credentials"@ && reply.1.data is None,
        },
{
    match r {
        Ok(resp) => ApiResponse::ok("Login successful", resp),
        Err(_) => ApiResponse::error(STATUS_UNAUTHORIZED, "Invalid credentials"),
    }
}

/// A student's granted login answers with the student's own record: their
/// first and last names, their picture, and the class name that was found.
pub proof fn lemma_student_login_answers_with_the_record(
    s: Student,
    p: LoginProfile,
    g: LoginGranted,
    login: AdmittedLogin,
    class_name: Seq<char>,
)
    requires
        student_profile(s, p),
        login_completed(Ok(g), login, p, class_name),
    ensures
        g.response.first_name@ == s.user.first_name@,
        g.response.last_name@ == s.user.last_name@,
        g.response.image_url@ == s.user.image_url@,
        g.response.class@ == class_name,
{
}

/// A teacher's granted login answers with the teacher's own record: their
/// first and last names, their picture, and the class name that was found.
pub proof fn lemma_teacher_login_answers_with_the_record(
    t: Teacher,
    p: LoginProfile,
    g: LoginGranted,
    login: AdmittedLogin,
    class_name: Seq<char>,
)
    requires
        teacher_profile(t, p),
        login_completed(Ok(g), login, p, class_name),
    ensures
        g.response.first_name@ == t.user.first_name@,
        g.response.last_name@ == t.user.last_name@,
        g.response.image_url@ == t.user.image_url@,
        g.response.class@ == class_name,
{
}

/// A granted login's token was issued at an instant read from the clock,
/// and it expires exactly an hour (3600 seconds) after that instant (where
/// that count fits the expiry claim's machine word), for the account's user
/// id, role and e-mail.
pub proof fn lemma_granted_token_expires_an_hour_after_the_clock_reading(
    g: LoginGranted,
    login: AdmittedLogin,
    p: LoginProfile,
    class_name: Seq<char>,
)
    requires
        login_completed(Ok(g), login, p, class_name),
    ensures
        read_by_clock(g.issued_at),
        0 <= g.issued_at.secs,
        g.issued_at.secs + 3600 <= usize::MAX ==> expiry_after(g.issued_at) == g.issued_at.secs
            + 3600,
        g.response.access_token@ == jwt_signed(
            uuid_text_of(login.record().user_id),
            expiry_after(g.issued_at),
            login.record().role@,
            login.record().email@,
            login.secret(),
        ),
{
    lemma_clock_reading_bounds(g.issued_at);
}

} // verus!
