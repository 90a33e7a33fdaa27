use vstd::prelude::*;
use crate::api_response::{ApiResponse, Reply, STATUS_INTERNAL_SERVER_ERROR, STATUS_OK};
use crate::clock::{now_utc, read_by_clock, Timestamp};
use crate::entity::{AuthUser, StudentEntity, TeacherEntity};
use crate::ids::new_uuid;
use crate::models::RegisterRequest;
use crate::login::{login_gate, LoginGate};
use crate::password::bcrypt_accepts;
use crate::role::{lemma_role_name_round_trip, role_name, Role};

verus! {

/// A registration in progress: the request and the user id chosen for the
/// new person.
pub struct Registration {
    pub req: RegisterRequest,
    pub user_id: u128,
}

/// `a` is the account a registration of `req` creates with these ids at `now`.
pub open spec fn is_account_of(a: AuthUser, req: RegisterRequest, account_id: u128, user_id: u128, now: Timestamp) -> bool {
    &&& a.id == account_id
    &&& a.user_id == user_id
    &&& a.email == req.email
    &&& a.password == req.password
    &&& a.role@ == role_name(req.role)
    &&& a.created_at == now
}

/// The teacher record a registration creates: the new user id, the
/// request's personal data, no picture and no homeroom class.
pub open spec fn is_teacher_record_of(t: TeacherEntity, req: RegisterRequest, user_id: u128) -> bool {
    &&& t.id == user_id
    &&& t.first_name == req.first_name
    &&& t.last_name == req.last_name
    &&& t.date_of_birth == req.date_of_birth
    &&& t.phone_number == req.phone_number
    &&& t.image_url@ == Seq::<char>::empty()
    &&& t.homeroom_class_id is None
}

/// The student record a registration creates: the new user id, the
/// request's personal data, no picture and the given class id.
pub open spec fn is_student_record_of(s: StudentEntity, req: RegisterRequest, user_id: u128, class_id: u128) -> bool {
    &&& s.id == user_id
    &&& s.first_name == req.first_name
    &&& s.last_name == req.last_name
    &&& s.date_of_birth == req.date_of_birth
    &&& s.phone_number == req.phone_number
    &&& s.image_url@ == Seq::<char>::empty()
    &&& s.class_id == class_id
}

/// What a registration needs next.
pub enum RegisterNext {
    /// Insert this teacher record, then call `Registration::on_profile_saved`.
    CreateTeacher(Registration, TeacherEntity),
    /// Insert this student record, then call `Registration::on_profile_saved`.
    CreateStudent(Registration, StudentEntity),
    /// The registration is over; send this reply.
    Done(Reply<()>),
}

/// `r` is HTTP 500 with the given message and no data.
pub open spec fn is_failure_reply(r: Reply<()>, message: Seq<char>) -> bool {
    &&& r.0 == STATUS_INTERNAL_SERVER_ERROR
    &&& r.1.status == 400
    &&& r.1.message@ == message
    &&& r.1.data is None
}

/// `r` is the reply to a registration that went through.
pub open spec fn is_registered_reply(r: Reply<()>) -> bool {
    &&& r.0 == STATUS_OK
    &&& r.1.status == 200
    &&& r.1.message@ == "User registered successfully"@
    &&& r.1.data == Some(())
}

fn empty_string() -> (s: String)
    ensures
        s@ == Seq::<char>::empty(),
{
    String::new()
}

/// The account for a registration with the ids and time given.
pub fn account_for(req: &RegisterRequest, account_id: u128, user_id: u128, now: Timestamp) -> (a: AuthUser)
    ensures
        is_account_of(a, *req, account_id, user_id, now),
{
    AuthUser {
        id: account_id,
        user_id,
        email: req.email.clone(),
        password: req.password.clone(),
        role: req.role.to_string(),
        created_at: now,
    }
}

/// Starts a registration: picks the new user id and the account id at
/// random, takes the current time (the instant the clock reads during the
/// call), and gives the account to store.
pub fn register_begin(req: RegisterRequest) -> (r: (Registration, AuthUser))
    ensures
        r.0.req == req,
        is_account_of(r.1, req, r.1.id, r.0.user_id, r.1.created_at),
        0 <= r.1.created_at.secs,
        r.1.created_at.nanos < 1_000_000_000,
        read_by_clock(r.1.created_at),
{
    let user_id = new_uuid();
    let account_id = new_uuid();
    let now = now_utc();
    let account = account_for(&req, account_id, user_id, now);
    (Registration { req, user_id }, account)
}

/// The teacher record for a registration.
pub fn teacher_record(req: &RegisterRequest, user_id: u128) -> (t: TeacherEntity)
    ensures
        is_teacher_record_of(t, *req, user_id),
        t.id == user_id && t.first_name@ == req.first_name@ && t.last_name@ == req.last_name@
            && t.date_of_birth == req.date_of_birth && t.phone_number@ == req.phone_number@,
{
    TeacherEntity {
        id: user_id,
        first_name: req.first_name.clone(),
        last_name: req.last_name.clone(),
        date_of_birth: req.date_of_birth,
        phone_number: req.phone_number.clone(),
        image_url: empty_string(),
        homeroom_class_id: None,
    }
}

/// The student record for a registration, in the class given.
pub fn student_record(req: &RegisterRequest, user_id: u128, class_id: u128) -> (s: StudentEntity)
    ensures
        is_student_record_of(s, *req, user_id, class_id),
        s.id == user_id && s.first_name@ == req.first_name@ && s.last_name@ == req.last_name@
            && s.date_of_birth == req.date_of_birth && s.phone_number@ == req.phone_number@
            && s.class_id == class_id,
{
    StudentEntity {
        id: user_id,
        first_name: req.first_name.clone(),
        last_name: req.last_name.clone(),
        date_of_birth: req.date_of_birth,
        phone_number: req.phone_number.clone(),
        image_url: empty_string(),
        class_id,
    }
}

impl Registration {
    /// Continues after storing the account: a teacher or student gets the
    /// matching record created (a student in a class id chosen at random),
    /// an administrator is done; a failed store ends with HTTP 500.
    pub fn on_account_saved(self, account_saved: bool) -> (next: RegisterNext)
        ensures
            !account_saved ==> (next matches RegisterNext::Done(r) && is_failure_reply(
                r,
                "Failed to register user"@,
            )),
            account_saved ==> match self.req.role {
                Role::Teacher => next matches RegisterNext::CreateTeacher(g, t) && g == self
                    && is_teacher_record_of(t, self.req, self.user_id),
                Role::Student => next matches RegisterNext::CreateStudent(g, s) && g == self
                    && is_student_record_of(s, self.req, self.user_id, s.class_id),
                Role::Admin => next matches RegisterNext::Done(r) && is_registered_reply(r),
            },
            next matches RegisterNext::CreateTeacher(_, t) ==> t.id == self.user_id
                && t.first_name@ == self.req.first_name@ && t.last_name@ == self.req.last_name@
                && t.date_of_birth == self.req.date_of_birth && t.phone_number@
                == self.req.phone_number@,
            next matches RegisterNext::CreateStudent(_, s) ==> s.id == self.user_id
                && s.first_name@ == self.req.first_name@ && s.last_name@ == self.req.last_name@
                && s.date_of_birth == self.req.date_of_birth && s.phone_number@
                == self.req.phone_number@,
    {
        if !account_saved {
            return RegisterNext::Done(
                ApiResponse::error(STATUS_INTERNAL_SERVER_ERROR, "Failed to register user"),
            );
        }
        match self.req.role {
            Role::Teacher => {
                let t = teacher_record(&self.req, self.user_id);
                RegisterNext::CreateTeacher(self, t)
            },
            Role::Student => {
                let class_id = new_uuid();
                let s = student_record(&self.req, self.user_id, class_id);
                RegisterNext::CreateStudent(self, s)
            },
            Role::Admin => RegisterNext::Done(ApiResponse::ok("User registered successfully", ())),
        }
    }

    /// Ends the registration after storing the teacher or student record.
    pub fn on_profile_saved(self, profile_saved: bool) -> (r: Reply<()>)
        ensures
            profile_saved ==> is_registered_reply(r),
            !profile_saved ==> match self.req.role {
                Role::Teacher => is_failure_reply(r, "Failed to create teacher record"@),
                Role::Student => is_failure_reply(r, "Failed to create student record"@),
                Role::Admin => is_registered_reply(r),
            },
    {
        if profile_saved {
            return ApiResponse::ok("User registered successfully", ());
        }
        match self.req.role {
            Role::Teacher => ApiResponse::error(
                STATUS_INTERNAL_SERVER_ERROR,
                "Failed to create teacher record",
            ),
            Role::Student => ApiResponse::error(
                STATUS_INTERNAL_SERVER_ERROR,
                "Failed to create student record",
            ),
            Role::Admin => ApiResponse::ok("User registered successfully", ()),
        }
    }
}

/// An account registered with a role and a password, once stored (its
/// password replaced by a hash that accepts it, its role text kept), passes
/// the login check with that password and logs in under that role.
pub proof fn lemma_registered_account_logs_in(
    req: RegisterRequest,
    account: AuthUser,
    stored: AuthUser,
    account_id: u128,
    user_id: u128,
    now: Timestamp,
)
    requires
        is_account_of(account, req, account_id, user_id, now),
        stored.role == account.role,
        bcrypt_accepts(account.password@, stored.password@) == Some(true),
    ensures
        login_gate(Ok(stored), req.password@) == LoginGate::Admitted(req.role),
{
    lemma_role_name_round_trip(req.role);
}

/// The teacher record a registration creates is the person the request
/// describes: same user id, names, birth date and phone number.
pub proof fn lemma_teacher_record_keeps_request_data(t: TeacherEntity, req: RegisterRequest, user_id: u128)
    requires
        is_teacher_record_of(t, req, user_id),
    ensures
        t.id == user_id,
        t.first_name@ == req.first_name@,
        t.last_name@ == req.last_name@,
        t.date_of_birth == req.date_of_birth,
        t.phone_number@ == req.phone_number@,
{
}

/// The student record a registration creates is the person the request
/// describes: same user id, names, birth date and phone number.
pub proof fn lemma_student_record_keeps_request_data(
    s: StudentEntity,
    req: RegisterRequest,
    user_id: u128,
    class_id: u128,
)
    requires
        is_student_record_of(s, req, user_id, class_id),
    ensures
        s.id == user_id,
        s.first_name@ == req.first_name@,
        s.last_name@ == req.last_name@,
        s.date_of_birth == req.date_of_birth,
        s.phone_number@ == req.phone_number@,
        s.class_id == class_id,
{
}

} // verus!
