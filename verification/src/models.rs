use vstd::prelude::*;
use crate::clock::Timestamp;
use crate::role::Role;

verus! {

/// What a successful login answers with.
pub struct LoginResponse {
    pub uuid: u128,
    pub access_token: String,
    pub refresh_token: String,
    pub role: Role,
    pub image_url: String,
    pub first_name: String,
    pub last_name: String,
    pub class: String,
}

/// The body of a registration request.
pub struct RegisterRequest {
    pub first_name: String,
    pub last_name: String,
    pub email: String,
    pub password: String,
    pub date_of_birth: Timestamp,
    pub phone_number: String,
    pub class: String,
    pub role: Role,
}

/// The body of a login request.
pub struct LoginRequest {
    pub email: String,
    pub password: String,
}

/// The part of the image host's answer that is used: the address of the
/// stored image.
pub struct CloudinaryResponse {
    pub secure_url: String,
}

} // verus!
