use vstd::prelude::*;
use crate::api_response::{
    ApiResponse,
    Reply,
    STATUS_BAD_REQUEST,
    STATUS_INTERNAL_SERVER_ERROR,
    STATUS_NOT_FOUND,
    STATUS_OK,
};
use crate::entity::AuthUser;
use crate::profile::is_error_reply;
use crate::role::{role_from_name, Role};
use crate::store::DbError;

verus! {

/// What a successful avatar upload answers with: the address of the image.
pub struct AvatarData {
    pub url: String,
}

/// An upload for an account, waiting for the next field of the form.
pub struct AvatarUpload {
    pub account: AuthUser,
    pub role: Role,
}

/// An upload whose image is stored at `url`, waiting for the address to be
/// saved on the person's record.
pub struct AvatarSaving {
    pub upload: AvatarUpload,
    pub url: String,
}

/// What the upload needs next.
pub enum AvatarNext {
    /// Read the next field of the form, then call `AvatarUpload::on_field`.
    NextField(AvatarUpload),
    /// Send the file of the field just read, under this file name, to the
    /// image host, then call `AvatarUpload::on_uploaded`.
    Upload(AvatarUpload, String),
    /// Save the image address on the teacher record with this id, then call
    /// `AvatarSaving::on_saved`.
    SaveTeacherUrl(AvatarSaving, u128),
    /// Save the image address on the student record with this id, then call
    /// `AvatarSaving::on_saved`.
    SaveStudentUrl(AvatarSaving, u128),
    /// Recompute the face vector of the student with this id from the file,
    /// whatever its outcome, then send the reply.
    RefreshFaceVector(Reply<AvatarData>, u128),
    /// Send this reply.
    Done(Reply<AvatarData>),
}

/// `r` is HTTP 200 `Upload avatar thành công` with the image address.
pub open spec fn is_uploaded_reply(r: Reply<AvatarData>, url: Seq<char>) -> bool {
    &&& r.0 == STATUS_OK
    &&& r.1.status == 200
    &&& r.1.message@ == "Upload avatar thành công"@
    &&& r.1.data matches Some(d) && d.url@ == url
}

/// Starts an avatar upload on the account read for the token's e-mail.
pub fn avatar_start(found: Result<Option<AuthUser>, DbError>) -> (next: AvatarNext)
    ensures
        match found {
            Err(_) => next matches AvatarNext::Done(r) && is_error_reply(
                r,
                STATUS_INTERNAL_SERVER_ERROR,
                "Lỗi truy vấn database"@,
            ),
            Ok(None) => next matches AvatarNext::Done(r) && is_error_reply(
                r,
                STATUS_NOT_FOUND,
                "User không tồn tại"@,
            ),
            Ok(Some(a)) => next == AvatarNext::NextField(
                (AvatarUpload { account: a, role: role_from_name(a.role@) }),
            ),
        },
{
    match found {
        Err(_) => AvatarNext::Done(
            ApiResponse::error(STATUS_INTERNAL_SERVER_ERROR, "Lỗi truy vấn database"),
        ),
        Ok(None) => AvatarNext::Done(ApiResponse::error(STATUS_NOT_FOUND, "User không tồn tại")),
        Ok(Some(a)) => {
            let role = Role::from_name(a.role.as_str());
            AvatarNext::NextField(AvatarUpload { account: a, role })
        },
    }
}

fn uploaded_reply(url: &str) -> (r: Reply<AvatarData>)
    ensures
        is_uploaded_reply(r, url@),
{
    ApiResponse::ok("Upload avatar thành công", AvatarData { url: url.to_owned() })
}

impl AvatarUpload {
    /// Continues with the next form field: `None` when the form is over (or
    /// could not be read), else the field's file name if it has one. The
    /// first field with a file name is uploaded; fields without one are
    /// skipped; a form without any answers HTTP 400 `Thiếu file upload`.
    pub fn on_field(self, field: Option<Option<String>>) -> (next: AvatarNext)
        ensures
            match field {
                None => next matches AvatarNext::Done(r) && is_error_reply(
                    r,
                    STATUS_BAD_REQUEST,
                    "Thiếu file upload"@,
                ),
                Some(None) => next == AvatarNext::NextField(self),
                Some(Some(name)) => next == AvatarNext::Upload(self, name),
            },
    {
        match field {
            None => AvatarNext::Done(ApiResponse::error(STATUS_BAD_REQUEST, "Thiếu file upload")),
            Some(None) => AvatarNext::NextField(self),
            Some(Some(name)) => AvatarNext::Upload(self, name),
        }
    }

    /// Continues with the image host's answer: the address of the stored
    /// image, or an error text. The address is saved on the teacher or
    /// student record; an administrator has no record and is answered at once.
    pub fn on_uploaded(self, uploaded: Result<String, String>) -> (next: AvatarNext)
        ensures
            match uploaded {
                Err(_) => next matches AvatarNext::Done(r) && is_error_reply(
                    r,
                    STATUS_INTERNAL_SERVER_ERROR,
                    "Lỗi upload Cloudinary"@,
                ),
                Ok(url) => match self.role {
                    Role::Teacher => next == AvatarNext::SaveTeacherUrl(
                        (AvatarSaving { upload: self, url }),
                        self.account.user_id,
                    ),
                    Role::Student => next == AvatarNext::SaveStudentUrl(
                        (AvatarSaving { upload: self, url }),
                        self.account.user_id,
                    ),
                    Role::Admin => next matches AvatarNext::Done(r) && is_uploaded_reply(r, url@),
                },
            },
    {
        match uploaded {
            Err(_) => AvatarNext::Done(
                ApiResponse::error(STATUS_INTERNAL_SERVER_ERROR, "Lỗi upload Cloudinary"),
            ),
            Ok(url) => {
                let user_id = self.account.user_id;
                match self.role {
                    Role::Teacher => AvatarNext::SaveTeacherUrl(
                        AvatarSaving { upload: self, url },
                        user_id,
                    ),
                    Role::Student => AvatarNext::SaveStudentUrl(
                        AvatarSaving { upload: self, url },
                        user_id,
                    ),
                    Role::Admin => AvatarNext::Done(uploaded_reply(url.as_str())),
                }
            },
        }
    }
}

impl AvatarSaving {
    /// Continues after saving the image address: a failed save answers
    /// HTTP 500; a student's face vector is then recomputed; the reply
    /// carries the address.
    pub fn on_saved(self, saved: bool) -> (next: AvatarNext)
        ensures
            !saved ==> (next matches AvatarNext::Done(r) && is_error_reply(
                r,
                STATUS_INTERNAL_SERVER_ERROR,
                "Không lưu được URL ảnh"@,
            )),
            saved ==> match self.upload.role {
                Role::Student => next matches AvatarNext::RefreshFaceVector(r, id)
                    && is_uploaded_reply(r, self.url@) && id == self.upload.account.user_id,
                _ => next matches AvatarNext::Done(r) && is_uploaded_reply(r, self.url@),
            },
    {
        if !saved {
            return AvatarNext::Done(
                ApiResponse::error(STATUS_INTERNAL_SERVER_ERROR, "Không lưu được URL ảnh"),
            );
        }
        let reply = uploaded_reply(self.url.as_str());
        match self.upload.role {
            Role::Student => AvatarNext::RefreshFaceVector(reply, self.upload.account.user_id),
            _ => AvatarNext::Done(reply),
        }
    }
}

} // verus!
