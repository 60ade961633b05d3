//! The target under test: where it is reached and with which credential.

use vstd::prelude::*;
use vstd::string::{StrSliceExecFns, StringExecFns};
use crate::scenario::{Credential, CredentialView};

verus! {

/// Where the target is looked for when nothing else is configured.
pub open spec fn default_url() -> Seq<char> {
    "http://localhost:8080"@
}

/// The credential that is used when nothing else is configured.
pub open spec fn default_key() -> Seq<char> {
    "testkey"@
}

/// How many characters of a credential are shown.
pub const SHOWN_KEY_CHARS: usize = 7;

/// A credential as it is shown: whole where it has at most seven
/// characters, else its first seven and three dots.
pub open spec fn shortened(key: Seq<char>) -> Seq<char> {
    if key.len() > 7 {
        key.subrange(0, 7) + "..."@
    } else {
        key
    }
}

/// The target of a run.
#[derive(Clone, Debug, PartialEq, Eq)]
pub struct Target {
    /// The address of the service, without the path of the API.
    pub base_url: String,
    /// The credential that the run is configured with.
    pub api_key: String,
}

/// A target with its texts as sequences of characters.
pub struct TargetView {
    pub base_url: Seq<char>,
    pub api_key: Seq<char>,
}

impl View for Target {
    type V = TargetView;

    open spec fn view(&self) -> TargetView {
        TargetView { base_url: self.base_url@, api_key: self.api_key@ }
    }
}

impl TargetView {
    /// The address under which the API is reached.
    pub open spec fn api_base(self) -> Seq<char> {
        self.base_url + "/v1"@
    }

    /// The credential that a scenario is sent with.
    pub open spec fn key_for(self, credential: CredentialView) -> Seq<char> {
        match credential {
            CredentialView::Configured => self.api_key,
            CredentialView::Key(k) => k,
        }
    }
}

impl Target {
    /// The target that the two settings select; a setting that is absent
    /// gives its default.
    pub fn resolve(url: Option<String>, key: Option<String>) -> (t: Target)
        ensures
            t@.base_url == match url {
                Some(u) => u@,
                None => default_url(),
            },
            t@.api_key == match key {
                Some(k) => k@,
                None => default_key(),
            },
    {
        let base_url = match url {
            Some(u) => u,
            None => String::from_str("http://localhost:8080"),
        };
        let api_key = match key {
            Some(k) => k,
            None => String::from_str("testkey"),
        };
        Target { base_url, api_key }
    }

    /// The address under which the API is reached.
    pub fn api_base(&self) -> (r: String)
        ensures
            r@ == self@.api_base(),
    {
        self.base_url.clone().concat("/v1")
    }

    /// The credential that a scenario is sent with.
    pub fn key_for(&self, credential: &Credential) -> (r: String)
        ensures
            r@ == self@.key_for(credential@),
    {
        match credential {
            Credential::Configured => self.api_key.clone(),
            Credential::Key(k) => k.clone(),
        }
    }

    /// The configured credential as it is shown.
    pub fn key_display(&self) -> (r: String)
        ensures
            r@ == shortened(self@.api_key),
    {
        let key = self.api_key.as_str();
        if key.unicode_len() > SHOWN_KEY_CHARS {
            String::from_str(key.substring_char(0, SHOWN_KEY_CHARS)).concat("...")
        } else {
            self.api_key.clone()
        }
    }
}

} // verus!
