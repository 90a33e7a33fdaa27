use be::avatar::{avatar_start, AvatarNext};
use be::clock::Timestamp;
use be::entity::{AuthUser, Student, StudentEntity, Teacher, TeacherEntity, User};
use be::face::{embedding_outcome, face_vectors_reply};
use be::ids::uuid_text;
use be::login::{login_reply, login_start, LoginError, LoginNext};
use be::models::RegisterRequest;
use be::password::prepare_auth_user;
use be::profile::{profile_start, ProfileData, ProfileNext};
use be::register::{register_begin, RegisterNext};
use be::role::Role;
use be::store::DbError;

const PASSWORD_HASH: &str = "$2a$04$UuTkLRZZ6QofpDOlMz32MuuxEHA43WOemOYHPz6.SjsVsyO1tDU96";
const USER_ID: u128 = 0x11111111_2222_4333_8444_555555555555;
const CLASS_ID: u128 = 0x99999999_8888_4777_8666_555555555555;

fn at(secs: i64) -> Timestamp {
    Timestamp { secs, nanos: 0 }
}

fn account(role: &str) -> AuthUser {
    AuthUser {
        id: 1,
        user_id: USER_ID,
        email: "x@school.vn".to_string(),
        password: PASSWORD_HASH.to_string(),
        role: role.to_string(),
        created_at: at(0),
    }
}

fn person(first: &str) -> User {
    User {
        first_name: first.to_string(),
        last_name: "Tran".to_string(),
        date_of_birth: at(86_400),
        phone_number: "0900".to_string(),
        image_url: "http://img/1.jpg".to_string(),
    }
}

fn decoded_sub(token: &str) -> String {
    let mut v = jsonwebtoken::Validation::default();
    v.validate_exp = false;
    let c = jsonwebtoken::decode::<serde_json::Map<String, serde_json::Value>>(
        token,
        &jsonwebtoken::DecodingKey::from_secret(b"k"),
        &v,
    )
    .unwrap()
    .claims;
    c["sub"].as_str().unwrap().to_string()
}

#[test]
fn login_fails_when_account_unreadable() {
    match login_start(Err(DbError), "password", "k".to_string()) {
        LoginNext::Done(Err(e)) => assert_eq!(e, LoginError::Database),
        _ => panic!("expected a failure"),
    }
}

#[test]
fn login_fails_on_wrong_password() {
    match login_start(Ok(account("Teacher")), "wrong", "k".to_string()) {
        LoginNext::Done(Err(e)) => assert_eq!(e, LoginError::InvalidCredentials),
        _ => panic!("expected a failure"),
    }
}

#[test]
fn login_fails_on_unreadable_hash() {
    let mut a = account("Teacher");
    a.password = "plain".to_string();
    match login_start(Ok(a), "plain", "k".to_string()) {
        LoginNext::Done(Err(e)) => assert_eq!(e, LoginError::PasswordCheck),
        _ => panic!("expected a failure"),
    }
}

#[test]
fn admin_login_finishes_at_once() {
    match login_start(Ok(account("Admin")), "password", "k".to_string()) {
        LoginNext::Done(Ok(granted)) => {
            let resp = granted.response;
            assert_eq!(resp.uuid, USER_ID);
            assert_eq!(resp.role, Role::Admin);
            assert_eq!(resp.first_name, "Admin");
            assert_eq!(resp.last_name, "");
            assert_eq!(resp.image_url, "");
            assert_eq!(resp.class, "");
            assert_eq!(resp.refresh_token, "");
            assert_eq!(decoded_sub(&resp.access_token), uuid_text(USER_ID));
        },
        _ => panic!("expected a response"),
    }
}

#[test]
fn teacher_login_reads_teacher_then_class() {
    let login = match login_start(Ok(account("Teacher")), "password", "k".to_string()) {
        LoginNext::FetchTeacher(l, id) => {
            assert_eq!(id, USER_ID);
            l
        },
        _ => panic!("expected a teacher lookup"),
    };
    let t = Teacher { id: USER_ID, user: person("An"), homeroom_class_id: Some(CLASS_ID) };
    let pending = match login.on_teacher(Ok(Some(t))) {
        LoginNext::FetchClassName(p, text) => {
            assert_eq!(text, uuid_text(CLASS_ID));
            p
        },
        _ => panic!("expected a class lookup"),
    };
    let resp = pending.on_class_name(Ok(Some("10A1".to_string()))).ok().unwrap().response;
    assert_eq!(resp.role, Role::Teacher);
    assert_eq!(resp.first_name, "An");
    assert_eq!(resp.image_url, "http://img/1.jpg");
    assert_eq!(resp.class, "10A1");
}

#[test]
fn teacher_without_record_cannot_log_in() {
    let login = match login_start(Ok(account("Teacher")), "password", "k".to_string()) {
        LoginNext::FetchTeacher(l, _) => l,
        _ => panic!("expected a teacher lookup"),
    };
    match login.on_teacher(Ok(None)) {
        LoginNext::Done(Err(e)) => assert_eq!(e, LoginError::TeacherNotFound),
        _ => panic!("expected a failure"),
    }
}

#[test]
fn teacher_without_homeroom_has_empty_class() {
    let login = match login_start(Ok(account("Teacher")), "password", "k".to_string()) {
        LoginNext::FetchTeacher(l, _) => l,
        _ => panic!("expected a teacher lookup"),
    };
    let t = Teacher { id: USER_ID, user: person("An"), homeroom_class_id: None };
    match login.on_teacher(Ok(Some(t))) {
        LoginNext::Done(Ok(granted)) => assert_eq!(granted.response.class, ""),
        _ => panic!("expected a response"),
    }
}

#[test]
fn student_login_missing_class_gives_empty_name() {
    let login = match login_start(Ok(account("Student")), "password", "k".to_string()) {
        LoginNext::FetchStudent(l, _) => l,
        _ => panic!("expected a student lookup"),
    };
    let s = Student { id: USER_ID, user: person("Binh"), class_id: CLASS_ID };
    let pending = match login.on_student(Ok(Some(s))) {
        LoginNext::FetchClassName(p, _) => p,
        _ => panic!("expected a class lookup"),
    };
    let resp = pending.on_class_name(Ok(None)).ok().unwrap().response;
    assert_eq!(resp.class, "");
    assert_eq!(resp.role, Role::Student);
}

#[test]
fn student_login_fails_on_class_lookup_error() {
    let login = match login_start(Ok(account("Student")), "password", "k".to_string()) {
        LoginNext::FetchStudent(l, _) => l,
        _ => panic!("expected a student lookup"),
    };
    match login.on_student(Ok(None)) {
        LoginNext::Done(Err(e)) => assert_eq!(e, LoginError::StudentNotFound),
        _ => panic!("expected a failure"),
    }
    let login = match login_start(Ok(account("Student")), "password", "k".to_string()) {
        LoginNext::FetchStudent(l, _) => l,
        _ => panic!("expected a student lookup"),
    };
    let s = Student { id: USER_ID, user: person("Binh"), class_id: CLASS_ID };
    let pending = match login.on_student(Ok(Some(s))) {
        LoginNext::FetchClassName(p, _) => p,
        _ => panic!("expected a class lookup"),
    };
    assert_eq!(pending.on_class_name(Err(DbError)).err(), Some(LoginError::Database));
}

#[test]
fn login_reply_hides_the_cause() {
    let (code, body) = login_reply(Err(LoginError::StudentNotFound));
    assert_eq!((code, body.status, body.message.as_str()), (401, 400, "Invalid credentials"));
    assert!(body.data.is_none());
}

fn request(role: Role) -> RegisterRequest {
    RegisterRequest {
        first_name: "Chi".to_string(),
        last_name: "Le".to_string(),
        email: "chi@school.vn".to_string(),
        password: "password".to_string(),
        date_of_birth: at(1_000_000),
        phone_number: "0911".to_string(),
        class: "11B".to_string(),
        role,
    }
}

#[test]
fn registration_builds_the_account() {
    let (reg, acc) = register_begin(request(Role::Teacher));
    assert_eq!(acc.user_id, reg.user_id);
    assert_eq!(acc.email, "chi@school.vn");
    assert_eq!(acc.password, "password");
    assert_eq!(acc.role, "Teacher");
    let (reg2, _) = register_begin(request(Role::Teacher));
    assert_ne!(reg.user_id, reg2.user_id);
}

#[test]
fn failed_account_store_ends_registration() {
    let (reg, _) = register_begin(request(Role::Student));
    match reg.on_account_saved(false) {
        RegisterNext::Done((code, body)) => {
            assert_eq!((code, body.status, body.message.as_str()), (500, 400, "Failed to register user"));
        },
        _ => panic!("expected a reply"),
    }
}

#[test]
fn teacher_registration_creates_teacher_record() {
    let (reg, _) = register_begin(request(Role::Teacher));
    let uid = reg.user_id;
    match reg.on_account_saved(true) {
        RegisterNext::CreateTeacher(reg, t) => {
            assert_eq!(t.id, uid);
            assert_eq!(t.first_name, "Chi");
            assert_eq!(t.image_url, "");
            assert!(t.homeroom_class_id.is_none());
            let (code, body) = reg.on_profile_saved(false);
            assert_eq!((code, body.message.as_str()), (500, "Failed to create teacher record"));
        },
        _ => panic!("expected a teacher record"),
    }
}

#[test]
fn student_registration_creates_student_record() {
    let (reg, _) = register_begin(request(Role::Student));
    let uid = reg.user_id;
    match reg.on_account_saved(true) {
        RegisterNext::CreateStudent(reg, s) => {
            assert_eq!(s.id, uid);
            assert_eq!(s.last_name, "Le");
            let (code, body) = reg.on_profile_saved(true);
            assert_eq!((code, body.status, body.message.as_str()), (200, 200, "User registered successfully"));
            assert_eq!(body.data, Some(()));
        },
        _ => panic!("expected a student record"),
    }
}

#[test]
fn admin_registration_needs_no_record() {
    let (reg, _) = register_begin(request(Role::Admin));
    match reg.on_account_saved(true) {
        RegisterNext::Done((code, body)) => assert_eq!((code, body.status), (200, 200)),
        _ => panic!("expected a reply"),
    }
}

#[test]
fn registered_password_logs_in_with_its_role() {
    let (_, acc) = register_begin(request(Role::Admin));
    let stored = prepare_auth_user(acc).ok().unwrap();
    match login_start(Ok(stored), "password", "k".to_string()) {
        LoginNext::Done(Ok(granted)) => assert_eq!(granted.response.role, Role::Admin),
        _ => panic!("expected a response"),
    }
}

#[test]
fn profile_of_unknown_account_is_404() {
    match profile_start(Ok(None)) {
        ProfileNext::Done((code, body)) => {
            assert_eq!((code, body.status, body.message.as_str()), (404, 400, "User not found"));
        },
        _ => panic!("expected a reply"),
    }
    match profile_start(Err(DbError)) {
        ProfileNext::Done((code, body)) => {
            assert_eq!((code, body.message.as_str()), (500, "Internal server error"));
        },
        _ => panic!("expected a reply"),
    }
}

#[test]
fn admin_profile_shows_email_and_role() {
    match profile_start(Ok(Some(account("Admin")))) {
        ProfileNext::Done((code, body)) => {
            assert_eq!((code, body.message.as_str()), (200, "User data retrieved"));
            match body.data {
                Some(ProfileData::Admin { email, role }) => {
                    assert_eq!(email, "x@school.vn");
                    assert_eq!(role, "Admin");
                },
                _ => panic!("expected admin data"),
            }
        },
        _ => panic!("expected a reply"),
    }
}

#[test]
fn student_profile_with_class_name() {
    let lookup = match profile_start(Ok(Some(account("Student")))) {
        ProfileNext::FetchStudent(l, id) => {
            assert_eq!(id, USER_ID);
            l
        },
        _ => panic!("expected a student lookup"),
    };
    let s = Student { id: 42, user: person("Dung"), class_id: CLASS_ID };
    let pending = match lookup.on_student(Ok(Some(s))) {
        ProfileNext::FetchClassName(p, text) => {
            assert_eq!(text, uuid_text(CLASS_ID));
            p
        },
        _ => panic!("expected a class lookup"),
    };
    let (code, body) = pending.on_class_name(Err(DbError));
    assert_eq!(code, 200);
    match body.data {
        Some(ProfileData::Member { id, first_name, class_name, role, .. }) => {
            assert_eq!(id, 42);
            assert_eq!(first_name, "Dung");
            assert_eq!(role, "Student");
            assert!(class_name.is_none());
        },
        _ => panic!("expected member data"),
    }
}

#[test]
fn teacher_profile_missing_record_is_404() {
    let lookup = match profile_start(Ok(Some(account("Teacher")))) {
        ProfileNext::FetchTeacher(l, _) => l,
        _ => panic!("expected a teacher lookup"),
    };
    match lookup.on_teacher(Err(DbError)) {
        ProfileNext::Done((code, _)) => assert_eq!(code, 404),
        _ => panic!("expected a reply"),
    }
}

#[test]
fn teacher_profile_without_homeroom() {
    let lookup = match profile_start(Ok(Some(account("Teacher")))) {
        ProfileNext::FetchTeacher(l, _) => l,
        _ => panic!("expected a teacher lookup"),
    };
    let t = Teacher { id: 5, user: person("Em"), homeroom_class_id: None };
    match lookup.on_teacher(Ok(Some(t))) {
        ProfileNext::Done((code, body)) => {
            assert_eq!(code, 200);
            assert!(matches!(body.data, Some(ProfileData::Member { class_name: None, .. })));
        },
        _ => panic!("expected a reply"),
    }
}

#[test]
fn avatar_flow_for_student() {
    let up = match avatar_start(Ok(Some(account("Student")))) {
        AvatarNext::NextField(u) => u,
        _ => panic!("expected a field read"),
    };
    let up = match up.on_field(Some(None)) {
        AvatarNext::NextField(u) => u,
        _ => panic!("a field without file name is skipped"),
    };
    let up = match up.on_field(Some(Some("me.jpg".to_string()))) {
        AvatarNext::Upload(u, name) => {
            assert_eq!(name, "me.jpg");
            u
        },
        _ => panic!("expected an upload"),
    };
    let saving = match up.on_uploaded(Ok("https://cdn/me.jpg".to_string())) {
        AvatarNext::SaveStudentUrl(s, id) => {
            assert_eq!(id, USER_ID);
            s
        },
        _ => panic!("expected a save"),
    };
    match saving.on_saved(true) {
        AvatarNext::RefreshFaceVector((code, body), id) => {
            assert_eq!(id, USER_ID);
            assert_eq!((code, body.message.as_str()), (200, "Upload avatar thành công"));
            assert_eq!(body.data.unwrap().url, "https://cdn/me.jpg");
        },
        _ => panic!("expected a face vector refresh"),
    }
}

#[test]
fn avatar_errors() {
    match avatar_start(Err(DbError)) {
        AvatarNext::Done((code, body)) => assert_eq!((code, body.message.as_str()), (500, "Lỗi truy vấn database")),
        _ => panic!(),
    }
    match avatar_start(Ok(None)) {
        AvatarNext::Done((code, body)) => assert_eq!((code, body.message.as_str()), (404, "User không tồn tại")),
        _ => panic!(),
    }
    let up = match avatar_start(Ok(Some(account("Teacher")))) {
        AvatarNext::NextField(u) => u,
        _ => panic!(),
    };
    match up.on_field(None) {
        AvatarNext::Done((code, body)) => assert_eq!((code, body.message.as_str()), (400, "Thiếu file upload")),
        _ => panic!(),
    }
    let up = match avatar_start(Ok(Some(account("Teacher")))) {
        AvatarNext::NextField(u) => u,
        _ => panic!(),
    };
    match up.on_uploaded(Err("boom".to_string())) {
        AvatarNext::Done((code, body)) => assert_eq!((code, body.message.as_str()), (500, "Lỗi upload Cloudinary")),
        _ => panic!(),
    }
    let up = match avatar_start(Ok(Some(account("Teacher")))) {
        AvatarNext::NextField(u) => u,
        _ => panic!(),
    };
    let saving = match up.on_uploaded(Ok("u".to_string())) {
        AvatarNext::SaveTeacherUrl(s, _) => s,
        _ => panic!(),
    };
    match saving.on_saved(false) {
        AvatarNext::Done((code, body)) => assert_eq!((code, body.message.as_str()), (500, "Không lưu được URL ảnh")),
        _ => panic!(),
    }
}

#[test]
fn admin_avatar_is_not_saved() {
    let up = match avatar_start(Ok(Some(account("Admin")))) {
        AvatarNext::NextField(u) => u,
        _ => panic!(),
    };
    match up.on_uploaded(Ok("https://cdn/a.jpg".to_string())) {
        AvatarNext::Done((code, body)) => {
            assert_eq!(code, 200);
            assert_eq!(body.data.unwrap().url, "https://cdn/a.jpg");
        },
        _ => panic!("expected a reply"),
    }
}

#[test]
fn face_vector_reply_and_embedding_status() {
    let (code, body) = face_vectors_reply(Ok(vec![1u8, 2]));
    assert_eq!((code, body.status, body.message.as_str()), (200, 200, "Success"));
    assert_eq!(body.data, Some(vec![1u8, 2]));
    let (code, body) = face_vectors_reply::<Vec<u8>>(Err(DbError));
    assert_eq!((code, body.message.as_str()), (500, "Failed to retrieve face vectors"));
    assert_eq!(embedding_outcome("success", vec![0.5f32]), Ok(vec![0.5f32]));
    assert_eq!(
        embedding_outcome("error", vec![0.5f32]),
        Err("Python API returned non-success status".to_string())
    );
}

#[test]
fn entity_rows_become_people() {
    let t = Teacher::from_entity(TeacherEntity {
        id: 3,
        first_name: "G".to_string(),
        last_name: "H".to_string(),
        date_of_birth: at(5),
        phone_number: "1".to_string(),
        image_url: "i".to_string(),
        homeroom_class_id: Some(9),
    });
    assert_eq!((t.id, t.user.first_name.as_str(), t.homeroom_class_id), (3, "G", Some(9)));
    let s = Student::from_entity(StudentEntity {
        id: 4,
        first_name: "K".to_string(),
        last_name: "L".to_string(),
        date_of_birth: at(6),
        phone_number: "2".to_string(),
        image_url: "j".to_string(),
        class_id: 8,
    });
    assert_eq!((s.id, s.user.last_name.as_str(), s.class_id), (4, "L", 8));
    assert_eq!(s.user.date_of_birth, at(6));
}

#[test]
fn login_token_expires_an_hour_after_issue() {
    match login_start(Ok(account("Admin")), "password", "k".to_string()) {
        LoginNext::Done(Ok(granted)) => {
            let mut v = jsonwebtoken::Validation::default();
            v.validate_exp = false;
            let c = jsonwebtoken::decode::<serde_json::Map<String, serde_json::Value>>(
                &granted.response.access_token,
                &jsonwebtoken::DecodingKey::from_secret(b"k"),
                &v,
            )
            .unwrap()
            .claims;
            assert_eq!(c["exp"].as_i64().unwrap(), granted.issued_at.secs + 3600);
            assert_eq!(c["role"], "Admin");
            assert_eq!(c["email"], "x@school.vn");
        },
        _ => panic!("expected a response"),
    }
}

#[test]
fn stored_password_is_a_bcrypt_hash() {
    let (_, acc) = register_begin(request(Role::Teacher));
    let stored = prepare_auth_user(acc).ok().unwrap();
    assert_eq!(stored.password.len(), 60);
    assert!(stored.password.starts_with("$2b$12$"));
    assert_ne!(stored.password, "password");
}

#[test]
fn edit_applies_only_to_existing_users() {
    assert!(be::entity::user_edit_applies(&Some(1u8)));
    assert!(!be::entity::user_edit_applies::<u8>(&None));
}

#[test]
fn login_errors_are_logged_with_their_messages() {
    assert_eq!(LoginError::InvalidCredentials.message(), "Invalid credentials");
    assert_eq!(LoginError::TeacherNotFound.message(), "Teacher record not found user");
    assert_eq!(LoginError::StudentNotFound.message(), "Student record not found user");
    assert_eq!(LoginError::Token(be::jwt::TokenError::Expiry, Timestamp { secs: 0, nanos: 0 }).message(), "invalid timestamp");
}
