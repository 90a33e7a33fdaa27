use vstd::prelude::*;

verus! {

/// The three settings an upload to Cloudinary needs.
pub struct CloudinarySettings {
    pub cloud_name: String,
    pub api_key: String,
    pub api_secret: String,
}

/// The settings, or the message for the first one that is missing, checked
/// in the order cloud name, API key, API secret.
pub fn cloudinary_settings(
    cloud_name: Option<String>,
    api_key: Option<String>,
    api_secret: Option<String>,
) -> (r: Result<CloudinarySettings, String>)
    ensures
        match (cloud_name, api_key, api_secret) {
            (Some(c), Some(k), Some(s)) => r matches Ok(v) && v.cloud_name@ == c@ && v.api_key@
                == k@ && v.api_secret@ == s@,
            (None, _, _) => r matches Err(m) && m@ == "Missing CLOUDINARY_CLOUD_NAME"@,
            (Some(_), None, _) => r matches Err(m) && m@ == "Missing CLOUDINARY_API_KEY"@,
            (Some(_), Some(_), None) => r matches Err(m) && m@ == "Missing CLOUDINARY_API_SECRET"@,
        },
{
    let cloud_name = match cloud_name {
        Some(c) => c,
        None => return Err("Missing CLOUDINARY_CLOUD_NAME".to_owned()),
    };
    let api_key = match api_key {
        Some(k) => k,
        None => return Err("Missing CLOUDINARY_API_KEY".to_owned()),
    };
    let api_secret = match api_secret {
        Some(s) => s,
        None => return Err("Missing CLOUDINARY_API_SECRET".to_owned()),
    };
    Ok(CloudinarySettings { cloud_name, api_key, api_secret })
}

/// The image upload endpoint of a Cloudinary cloud.
pub fn cloudinary_upload_url(cloud_name: &str) -> (url: String)
    ensures
        url@ == "https://api.cloudinary.com/v1_1/"@ + cloud_name@ + "/image/upload"@,
{
    let mut url = "https://api.cloudinary.com/v1_1/".to_owned();
    url.append(cloud_name);
    url.append("/image/upload");
    url
}

} // verus!
