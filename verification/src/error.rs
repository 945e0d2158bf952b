use vstd::prelude::*;

verus! {

/// Every failure an operation can report. Each failure is returned to the
/// immediate caller as a typed value: nothing is retried and nothing is
/// swallowed. Failures that a transport or decoding layer raises with an
/// attached cause are represented here as bare tags; the surrounding
/// application keeps the cause.
#[derive(Debug, Clone, Copy, PartialEq, Eq, Structural)]
pub enum Error {
    /// The base URL could not be parsed.
    UrlError,
    /// A login response with status 200 carried no `set-cookie` header.
    NoSetCookie,
    /// The `set-cookie` header had no value before the first separator.
    NoSID,
    /// Login was rejected with status 403: the caller's IP is banned after
    /// too many failed attempts.
    Banned,
    /// The response carried a status code the operation does not accept.
    WrongStatusCode,
    /// A response body that should be text was not valid UTF-8.
    BytesToString,
    /// A hash-scoped operation answered 404: the torrent hash is unknown.
    NoTorrentHash,
    /// A response body that should be an integer did not parse as one.
    StringToInt,
    /// The transport failed before a status code was obtained.
    Nc,
    /// A response body that should be JSON did not decode.
    Json,
    /// The environment configuration could not be read.
    DotEnv,
    /// The remote answered with a result string other than success.
    BadResponse,
    /// The remote answered without the expected arguments.
    NoArguments,
    /// A session update named fields that cannot be changed.
    WrongSessionSetFields,
    /// An input/output failure outside the protocol itself.
    Io,
    /// The remote rejected the call for want of authentication.
    NotAuth,
    /// A torrent-add request carried both a file name and metadata.
    BothFileMeta,
    /// A torrent-add request carried neither a file name nor metadata.
    NoFileMeta,
    /// A torrent record carried fields this client does not know.
    UnknownTorrentFields,
}

/// The description of each failure.
pub open spec fn error_message(e: Error) -> Seq<char> {
    match e {
        Error::UrlError => "Error in parse URL"@,
        Error::NoSetCookie => "Response no contains set-cookie header"@,
        Error::NoSID => "Header set-cookie no contains SID"@,
        Error::Banned => "User's IP is banned for too many failed login attempts"@,
        Error::WrongStatusCode => "Wrong response status code"@,
        Error::BytesToString => "Error convert bytes to string"@,
        Error::NoTorrentHash => "Torrent hash was not found"@,
        Error::StringToInt => "Error convert string to i64"@,
        Error::Nc => "NC error"@,
        Error::Json => "json error"@,
        Error::DotEnv => "dotenv error"@,
        Error::BadResponse => "response not success"@,
        Error::NoArguments => "response no contain arguments"@,
        Error::WrongSessionSetFields => "unmutable fields in session-set"@,
        Error::Io => "io error"@,
        Error::NotAuth => "not auth"@,
        Error::BothFileMeta => "TorrentAdd args have both filename and metadata"@,
        Error::NoFileMeta => "TorrentAdd args no have filename or metadata"@,
        Error::UnknownTorrentFields => "Unknown torrent fields"@,
    }
}

impl Error {
    /// A human-readable description of the failure.
    pub fn message(&self) -> (r: &'static str)
        ensures
            r@ == error_message(*self),
    {
        match self {
            Error::UrlError => "Error in parse URL",
            Error::NoSetCookie => "Response no contains set-cookie header",
            Error::NoSID => "Header set-cookie no contains SID",
            Error::Banned => "User's IP is banned for too many failed login attempts",
            Error::WrongStatusCode => "Wrong response status code",
            Error::BytesToString => "Error convert bytes to string",
            Error::NoTorrentHash => "Torrent hash was not found",
            Error::StringToInt => "Error convert string to i64",
            Error::Nc => "NC error",
            Error::Json => "json error",
            Error::DotEnv => "dotenv error",
            Error::BadResponse => "response not success",
            Error::NoArguments => "response no contain arguments",
            Error::WrongSessionSetFields => "unmutable fields in session-set",
            Error::Io => "io error",
            Error::NotAuth => "not auth",
            Error::BothFileMeta => "TorrentAdd args have both filename and metadata",
            Error::NoFileMeta => "TorrentAdd args no have filename or metadata",
            Error::UnknownTorrentFields => "Unknown torrent fields",
        }
    }
}

} // verus!
