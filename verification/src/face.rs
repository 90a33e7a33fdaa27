use vstd::prelude::*;
use crate::api_response::{ApiResponse, Reply, STATUS_INTERNAL_SERVER_ERROR, STATUS_OK};
use crate::store::DbError;
use crate::text::{or_default, same_text};

verus! {

/// The reply of the internal face-vector listing: HTTP 200 `Success` with
/// the vectors, or HTTP 500 when they could not be read.
pub fn face_vectors_reply<T>(found: Result<T, DbError>) -> (r: Reply<T>)
    ensures
        match found {
            Ok(v) => r.0 == STATUS_OK && r.1.status == 200 && r.1.message@ == "Success"@
                && r.1.data == Some(v),
            Err(_) => r.0 == STATUS_INTERNAL_SERVER_ERROR && r.1.status == 400 && r.1.message@
                == "Failed to retrieve face vectors"@ && r.1.data is None,
        },
{
    match found {
        Ok(v) => ApiResponse::ok("Success", v),
        Err(_) => ApiResponse::error(STATUS_INTERNAL_SERVER_ERROR, "Failed to retrieve face vectors"),
    }
}

/// What the embedding service's answer yields: its embedding when its
/// status is `success`, else the error text the caller reports.
pub fn embedding_outcome<T>(status: &str, embedding: T) -> (r: Result<T, String>)
    ensures
        status@ == "success"@ ==> r == Ok::<T, String>(embedding),
        status@ != "success"@ ==> (r matches Err(m) && m@
            == "Python API returned non-success status"@),
{
    if same_text(status, "success") {
        Ok(embedding)
    } else {
        Err("Python API returned non-success status".to_owned())
    }
}

/// The embedding endpoint of the service at `base`, the configured address,
/// or at `http://localhost:8000` when none is configured.
pub fn embedding_endpoint(base: Option<String>) -> (url: String)
    ensures
        url@ == (match base {
            Some(b) => b@,
            None => "http://localhost:8000"@,
        }) + "/api/ai/extract-embedding"@,
{
    let mut url = or_default(base, "http://localhost:8000");
    url.append("/api/ai/extract-embedding");
    url
}

} // verus!
