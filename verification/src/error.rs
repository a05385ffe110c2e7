//! The error taxonomy of a bundle-creation run. Any error aborts the whole
//! run: no partial bundle is ever returned.

use vstd::prelude::*;

verus! {

/// Why a bundle-creation run failed. Each variant carries the diagnostics
/// that were available at the point of failure.
#[derive(Debug, Clone)]
pub enum PkiError {
    /// The target directory could not be created.
    DirectoryCreation(String),
    /// The service network yields no first service address.
    AddressDerivation(String),
    /// A signing-request or profile document could not be written.
    CsrWrite(String),
    /// The signing engine could not be invoked at all.
    EngineSpawn(String),
    /// The signing engine ran but no output stream could be captured.
    EngineOutputCapture,
    /// The self-signing call for the certificate authority exited non-zero.
    CaBootstrap { stdout: String, stderr: String },
    /// A leaf issuance call exited non-zero. `role` is the output name of
    /// the identity whose issuance failed.
    Issuance { role: String, status: i32, stdout: String, stderr: String },
}

impl PkiError {
    /// A short label for the error kind, for diagnostics.
    pub fn kind(&self) -> (r: &'static str)
        ensures
            r@ == match self {
                PkiError::DirectoryCreation(_) => "directory creation failed"@,
                PkiError::AddressDerivation(_) => "address derivation failed"@,
                PkiError::CsrWrite(_) => "document write failed"@,
                PkiError::EngineSpawn(_) => "signing engine spawn failed"@,
                PkiError::EngineOutputCapture => "signing engine output capture failed"@,
                PkiError::CaBootstrap { .. } => "CA certificate generation failed"@,
                PkiError::Issuance { .. } => "certificate issuance failed"@,
            },
    {
        match self {
            PkiError::DirectoryCreation(_) => "directory creation failed",
            PkiError::AddressDerivation(_) => "address derivation failed",
            PkiError::CsrWrite(_) => "document write failed",
            PkiError::EngineSpawn(_) => "signing engine spawn failed",
            PkiError::EngineOutputCapture => "signing engine output capture failed",
            PkiError::CaBootstrap { .. } => "CA certificate generation failed",
            PkiError::Issuance { .. } => "certificate issuance failed",
        }
    }
}

} // verus!
