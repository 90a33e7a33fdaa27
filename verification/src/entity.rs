use vstd::prelude::*;
use crate::clock::Timestamp;

verus! {

/// A login account: the credentials of a person whose profile lives in the
/// teachers or students table under `user_id`. UUIDs are held as their
/// 128-bit values.
pub struct AuthUser {
    pub id: u128,
    pub user_id: u128,
    pub email: String,
    pub password: String,
    pub role: String,
    pub created_at: Timestamp,
}

/// A class of the school.
pub struct ClassRoom {
    pub id: u128,
    pub name: String,
}

/// The personal data shared by teachers and students.
pub struct User {
    pub first_name: String,
    pub last_name: String,
    pub date_of_birth: Timestamp,
    pub phone_number: String,
    pub image_url: String,
}

/// A teacher with the class they are homeroom teacher of, if any.
pub struct Teacher {
    pub id: u128,
    pub user: User,
    pub homeroom_class_id: Option<u128>,
}

/// A student with the class they belong to.
pub struct Student {
    pub id: u128,
    pub user: User,
    pub class_id: u128,
}

/// Which subject a teacher teaches.
pub struct TeacherSubject {
    pub teacher_id: u128,
    pub subject_id: u128,
}

/// A row of the teachers table.
pub struct TeacherEntity {
    pub id: u128,
    pub first_name: String,
    pub last_name: String,
    pub date_of_birth: Timestamp,
    pub phone_number: String,
    pub image_url: String,
    pub homeroom_class_id: Option<u128>,
}

/// A row of the students table.
pub struct StudentEntity {
    pub id: u128,
    pub first_name: String,
    pub last_name: String,
    pub date_of_birth: Timestamp,
    pub phone_number: String,
    pub image_url: String,
    pub class_id: u128,
}

/// A row of the users table.
pub struct UserEntity {
    pub id: u128,
    pub password: String,
    pub image_url: String,
    pub first_name: String,
    pub last_name: String,
    pub date_of_birth: Timestamp,
    pub email: String,
    pub phone_number: String,
    pub class: String,
    pub role: String,
    pub created_at: Timestamp,
}

/// The personal data of a row, as a `User`.
pub open spec fn user_of(
    first_name: String,
    last_name: String,
    date_of_birth: Timestamp,
    phone_number: String,
    image_url: String,
) -> User {
    User { first_name, last_name, date_of_birth, phone_number, image_url }
}

impl Teacher {
    /// The teacher a row of the teachers table describes.
    pub fn from_entity(e: TeacherEntity) -> (t: Teacher)
        ensures
            t == (Teacher {
                id: e.id,
                user: user_of(
                    e.first_name,
                    e.last_name,
                    e.date_of_birth,
                    e.phone_number,
                    e.image_url,
                ),
                homeroom_class_id: e.homeroom_class_id,
            }),
    {
        Teacher {
            id: e.id,
            user: User {
                first_name: e.first_name,
                last_name: e.last_name,
                date_of_birth: e.date_of_birth,
                phone_number: e.phone_number,
                image_url: e.image_url,
            },
            homeroom_class_id: e.homeroom_class_id,
        }
    }
}

impl Student {
    /// The student a row of the students table describes.
    pub fn from_entity(e: StudentEntity) -> (s: Student)
        ensures
            s == (Student {
                id: e.id,
                user: user_of(
                    e.first_name,
                    e.last_name,
                    e.date_of_birth,
                    e.phone_number,
                    e.image_url,
                ),
                class_id: e.class_id,
            }),
    {
        Student {
            id: e.id,
            user: User {
                first_name: e.first_name,
                last_name: e.last_name,
                date_of_birth: e.date_of_birth,
                phone_number: e.phone_number,
                image_url: e.image_url,
            },
            class_id: e.class_id,
        }
    }
}

/// Whether an edit of a user goes ahead: only when the user was found;
/// editing a missing user changes nothing and finds nothing.
pub fn user_edit_applies<T>(existing: &Option<T>) -> (b: bool)
    ensures
        b == existing is Some,
{
    existing.is_some()
}

} // verus!
