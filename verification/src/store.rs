//! The shared state of the service: the API token and the data directory.

use std::path::PathBuf;
use vstd::prelude::*;
use vstd::string::StringExecFns;

verus! {

/// `std::path::PathBuf`, carried through as it is.
#[verifier::external_type_specification]
#[verifier::external_body]
pub struct ExPathBuf(PathBuf);

/// The API token that clients must present, and the directory that holds the
/// persisted artifacts.
#[derive(Debug)]
pub struct Store {
    api_token: String,
    pub upload_dir: PathBuf,
}

impl Store {
    /// The token that this store accepts.
    pub closed spec fn token(&self) -> Seq<char> {
        self.api_token@
    }

    /// The directory that this store keeps its artifacts in.
    pub closed spec fn directory(&self) -> PathBuf {
        self.upload_dir
    }

    /// The value of the authorization header that this store accepts: the
    /// bearer scheme, a space, and the token.
    pub open spec fn accepted_header(&self) -> Seq<char> {
        "Bearer "@ + self.token()
    }

    pub fn new(api_token: String, upload_dir: PathBuf) -> (store: Self)
        ensures
            store.token() == api_token@,
            store.directory() == upload_dir,
    {
        Self { api_token, upload_dir }
    }

    /// Whether `auth_header` is exactly the header that this store accepts.
    pub fn api_token_check(&self, auth_header: &str) -> (accepted: bool)
        ensures
            accepted == (auth_header@ == self.accepted_header()),
    {
        let expected = String::from_str("Bearer ").concat(self.api_token.as_str());
        *auth_header == *expected.as_str()
    }
}

} // verus!
