//! Token provisioning: the one-time unauthenticated exchange of a
//! device-type label (and an optional requested username) for an API key.

use vstd::prelude::*;

use crate::connection::DeconzError;

verus! {

/// A requested username is 10 to 40 characters long; an absent one lets
/// the gateway pick.
pub open spec fn valid_username(username: Option<Seq<char>>) -> bool {
    match username {
        Some(name) => 10 <= name.len() <= 40,
        None => true,
    }
}

/// A device-type label is at most 40 characters long.
pub open spec fn valid_devicetype(devicetype: Seq<char>) -> bool {
    devicetype.len() <= 40
}

/// The view of an optional username.
pub open spec fn username_view(username: Option<String>) -> Option<Seq<char>> {
    match username {
        Some(name) => Some(name@),
        None => None,
    }
}

/// The body of a token-provisioning request. The fields are private so a
/// value of this type only exists once `new` has validated the length
/// invariants.
#[derive(Debug, Clone, PartialEq)]
pub struct TokenRequest {
    username: Option<String>,
    devicetype: String,
}

/// The gateway's answer to a token request: the username it assigned,
/// which becomes the API key.
#[derive(Debug, Clone, PartialEq)]
pub struct ApiToken {
    pub username: String,
}

/// A token response's success payload, as the gateway wraps it.
#[derive(Debug, Clone, PartialEq)]
pub struct TokenResponse {
    pub success: ApiToken,
}

impl TokenRequest {
    /// The requested username, as contracts see it.
    pub closed spec fn spec_username(&self) -> Option<String> {
        self.username
    }

    /// The device-type label, as contracts see it.
    pub closed spec fn spec_devicetype(&self) -> String {
        self.devicetype
    }

    /// Validates and builds a token request: the username, when given,
    /// must be 10 to 40 characters long, and the device-type label at
    /// most 40. A violation fails with `Validation` before any network
    /// call could be made.
    pub fn new(devicetype: String, username: Option<String>) -> (r: Result<
        TokenRequest,
        DeconzError,
    >)
        ensures
            match r {
                Ok(request) => valid_username(username_view(username)) && valid_devicetype(
                    devicetype@,
                ) && request.spec_username() == username && request.spec_devicetype()
                    == devicetype,
                Err(e) => (!valid_username(username_view(username)) || !valid_devicetype(
                    devicetype@,
                )) && e == DeconzError::Validation,
            },
    {
        match &username {
            Some(name) => {
                let len = name.as_str().unicode_len();
                if len < 10 || len > 40 {
                    return Err(DeconzError::Validation);
                }
            },
            None => {},
        }
        if devicetype.as_str().unicode_len() > 40 {
            Err(DeconzError::Validation)
        } else {
            Ok(TokenRequest { username, devicetype })
        }
    }

    /// The requested username, if one was given.
    pub fn username(&self) -> (r: &Option<String>)
        ensures
            *r == self.spec_username(),
    {
        &self.username
    }

    /// The device-type label.
    pub fn devicetype(&self) -> (r: &String)
        ensures
            *r == self.spec_devicetype(),
    {
        &self.devicetype
    }
}

} // verus!
