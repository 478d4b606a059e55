//! The errors that the routes answer with, their HTTP status codes and the
//! text of their bodies.

use vstd::prelude::*;

verus! {

/// An error that a route answers with.
#[derive(Debug, Clone, Copy, PartialEq, Eq)]
pub enum Error {
    InternalError,
    UserAlreadyExists,
    WrongCredentials,
    NotVerified,
    Unauthorized,
    ChargerAlreadyExists,
    UserDoesNotExist,
    WgKeysDoNotExist,
    AllKeysInUse,
    WgKeyAlreadyInUse,
    ChargerNotSeenYet,
    UserIsNotOwner,
    /// A charger's id or UID and password do not match.
    ChargerCredentialsWrong,
    /// The request carries no usable client address.
    NoValidIp,
    /// The request asks for nothing to be done.
    InvalidPayload,
    /// The charger (or grouping) named does not exist for the user.
    ChargerDoesNotExist,
    /// The session of a refresh token is unknown.
    SessionDoesNotExist,
    /// An id in the request is no UUID.
    InvalidUuid,
}

/// The HTTP status code each error is answered with.
pub open spec fn error_status(e: Error) -> u16 {
    match e {
        Error::InternalError => 500,
        Error::UserAlreadyExists => 409,
        Error::WrongCredentials => 400,
        Error::NotVerified => 401,
        Error::Unauthorized => 401,
        Error::ChargerAlreadyExists => 409,
        Error::UserDoesNotExist => 400,
        Error::WgKeysDoNotExist => 400,
        Error::AllKeysInUse => 404,
        Error::WgKeyAlreadyInUse => 409,
        Error::ChargerNotSeenYet => 404,
        Error::UserIsNotOwner => 401,
        Error::ChargerCredentialsWrong => 401,
        Error::NoValidIp => 400,
        Error::InvalidPayload => 400,
        Error::ChargerDoesNotExist => 400,
        Error::SessionDoesNotExist => 401,
        Error::InvalidUuid => 400,
    }
}

/// The plain-text body each error is answered with.
pub open spec fn error_text(e: Error) -> Seq<char> {
    match e {
        Error::InternalError => "An internal error occured. Please try again later"@,
        Error::UserAlreadyExists => "An account with this email already exists"@,
        Error::WrongCredentials => "Wrong username or password"@,
        Error::NotVerified => "Not verified"@,
        Error::Unauthorized => "Unauthorized"@,
        Error::ChargerAlreadyExists => "This charger already exists"@,
        Error::UserDoesNotExist => "User does not exist"@,
        Error::WgKeysDoNotExist => "Wg keys do not exist"@,
        Error::AllKeysInUse => "No unused Key left"@,
        Error::WgKeyAlreadyInUse => "Key already in use"@,
        Error::ChargerNotSeenYet => "Charger was not seen yet"@,
        Error::UserIsNotOwner => "Logged in user is not the owner of the charger"@,
        Error::ChargerCredentialsWrong => "Charger credentials are wrong"@,
        Error::NoValidIp => "No valid ip address"@,
        Error::InvalidPayload => "Invalid payload"@,
        Error::ChargerDoesNotExist => "Charger does not exist"@,
        Error::SessionDoesNotExist => "Session does not exist"@,
        Error::InvalidUuid => "Invalid UUID"@,
    }
}

impl Error {
    /// The HTTP status code of the error response.
    pub fn status_code(&self) -> (code: u16)
        ensures
            code == error_status(*self),
    {
        match self {
            Error::InternalError => 500,
            Error::UserAlreadyExists => 409,
            Error::WrongCredentials => 400,
            Error::NotVerified => 401,
            Error::Unauthorized => 401,
            Error::ChargerAlreadyExists => 409,
            Error::UserDoesNotExist => 400,
            Error::WgKeysDoNotExist => 400,
            Error::AllKeysInUse => 404,
            Error::WgKeyAlreadyInUse => 409,
            Error::ChargerNotSeenYet => 404,
            Error::UserIsNotOwner => 401,
            Error::ChargerCredentialsWrong => 401,
            Error::NoValidIp => 400,
            Error::InvalidPayload => 400,
            Error::ChargerDoesNotExist => 400,
            Error::SessionDoesNotExist => 401,
            Error::InvalidUuid => 400,
        }
    }

    /// The plain-text body of the error response.
    pub fn message(&self) -> (s: &'static str)
        ensures
            s@ == error_text(*self),
    {
        match self {
            Error::InternalError => "An internal error occured. Please try again later",
            Error::UserAlreadyExists => "An account with this email already exists",
            Error::WrongCredentials => "Wrong username or password",
            Error::NotVerified => "Not verified",
            Error::Unauthorized => "Unauthorized",
            Error::ChargerAlreadyExists => "This charger already exists",
            Error::UserDoesNotExist => "User does not exist",
            Error::WgKeysDoNotExist => "Wg keys do not exist",
            Error::AllKeysInUse => "No unused Key left",
            Error::WgKeyAlreadyInUse => "Key already in use",
            Error::ChargerNotSeenYet => "Charger was not seen yet",
            Error::UserIsNotOwner => "Logged in user is not the owner of the charger",
            Error::ChargerCredentialsWrong => "Charger credentials are wrong",
            Error::NoValidIp => "No valid ip address",
            Error::InvalidPayload => "Invalid payload",
            Error::ChargerDoesNotExist => "Charger does not exist",
            Error::SessionDoesNotExist => "Session does not exist",
            Error::InvalidUuid => "Invalid UUID",
        }
    }
}

/// The status code the login route answers an error with: an unverified
/// account is forbidden (403) and wrong credentials are unauthorized (401),
/// as the route documents; other errors keep their own code.
pub open spec fn login_error_status(e: Error) -> u16 {
    match e {
        Error::NotVerified => 403,
        Error::WrongCredentials => 401,
        _ => error_status(e),
    }
}

/// The status code of an error of the login route.
pub fn login_status_code(e: Error) -> (code: u16)
    ensures
        code == login_error_status(e),
{
    match e {
        Error::NotVerified => 403,
        Error::WrongCredentials => 401,
        _ => e.status_code(),
    }
}

} // verus!
