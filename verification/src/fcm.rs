//! Settings of the FCM (Firebase Cloud Messaging) router.
//!
//! The credentials setting is a JSON object of `FcmCredential`s; reading it
//! is left to the application, which deserializes it.
use vstd::prelude::*;

use std::path::PathBuf;

verus! {

#[verifier::external_type_specification]
#[verifier::external_body]
pub struct ExPathBuf(PathBuf);

/// Settings for `FcmRouter`.
#[derive(Clone, Debug)]
pub struct FcmSettings {
    /// Time to live of a notification, in seconds.
    pub ttl: usize,
    /// A JSON dict of `FcmCredential`s. This must be a `String` because
    /// environment variables cannot encode a `HashMap<String, FcmCredential>`.
    pub credentials: String,
    /// The max size of notification data in bytes.
    pub max_data: usize,
}

/// Credential information for each application.
#[derive(Debug)]
pub struct FcmCredential {
    pub project_id: String,
    pub auth_file: PathBuf,
}

impl Default for FcmSettings {
    /// A time to live of 60 seconds, no credentials (`{}`) and at most 4096
    /// bytes of data.
    fn default() -> (r: Self)
        ensures
            r.ttl == 60,
            r.credentials@ == "{}"@,
            r.max_data == 4096,
    {
        proof {
            reveal_strlit("{}");
        }
        FcmSettings { ttl: 60, credentials: "{}".to_owned(), max_data: 4096 }
    }
}

} // verus!
