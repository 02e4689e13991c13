use vstd::prelude::*;

verus! {

/// A credential that a secure session cannot do without.
#[derive(Clone, Copy, Debug, PartialEq, Eq, Structural)]
pub enum Credential {
    Username,
    AuthPassword,
    PrivacyPassword,
}

/// The kind of an error that can occur.
#[derive(Clone, Debug, PartialEq, Eq)]
#[non_exhaustive]
pub enum ErrorKind {
    /// The command-line arguments could not be parsed.
    Cli(String),
    /// An I/O operation failed.
    Io(String),
    /// A host name could not be resolved.
    DnsResolution(String),
    /// An OID could not be encoded for the wire.
    OidConversion,
    /// A wire value is not of the expected kind.
    TypeMismatch(String),
    /// A value could not be parsed.
    Parse(String),
    /// A request failed at the transport or protocol level.
    SnmpRequest(String),
    /// The device answered with a non-zero error status.
    ErrorStatus(u32),
    /// The device returned no value for the requested OID.
    OidNotFound,
    /// The mapping directory is invalid or does not exist.
    InvalidDirectory,
    /// The mapping directory could not be read.
    DirectoryRead,
    /// An OID string holds a segment that is not a number.
    InvalidOidFormat,
    /// The requested protocol version or security combination is not supported.
    UnsupportedVersion,
    /// A secure session was asked for without a required credential.
    MissingCredential(Credential),
    /// No authoritative engine identifier could be discovered.
    EngineDiscovery,
    /// No driver or mapping exists for the device.
    UnsupportedPrinter(String),
}

/// An error that can occur in this library.
#[derive(Clone, Debug, PartialEq, Eq)]
pub struct AppError {
    pub kind: ErrorKind,
}

impl AppError {
    /// Creates a new error from an `ErrorKind`.
    pub fn new(kind: ErrorKind) -> (r: AppError)
        ensures
            r.kind == kind,
    {
        AppError { kind }
    }

    /// The kind of this error.
    pub fn kind(&self) -> (r: &ErrorKind)
        ensures
            *r == self.kind,
    {
        &self.kind
    }
}

} // verus!
