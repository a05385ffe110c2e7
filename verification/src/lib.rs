//! A verified core for bootstrapping a private certificate authority and the
//! seven Kubernetes control-plane identities signed by it.
//!
//! The library computes every input handed to the external signing engine —
//! subject identities, signing-request and profile documents, subject
//! alternative names, output paths, and the engine's argument lists — and
//! interprets the engine's outcome. Running the engine and touching the
//! filesystem are left to the surrounding application.

pub mod csr;
pub mod engine;
pub mod error;
pub mod net;
pub mod pair;
pub mod plan;
pub mod profile;
pub mod roles;
pub mod san;
pub mod text;

use vstd::prelude::*;
use vstd::string::*;

verus! {

/// The standard file name of a certificate: `<name>.pem` under `dir`.
pub open spec fn cert_path(dir: Seq<char>, name: Seq<char>) -> Seq<char> {
    dir + "/"@ + name + ".pem"@
}

/// The standard file name of a private key: `<name>-key.pem` under `dir`.
pub open spec fn key_path(dir: Seq<char>, name: Seq<char>) -> Seq<char> {
    dir + "/"@ + name + "-key.pem"@
}

/// A file placed directly under `dir`.
pub open spec fn path_in(dir: Seq<char>, file: Seq<char>) -> Seq<char> {
    dir + "/"@ + file
}

/// Joins a file name onto a directory with the path separator.
pub fn path_join(dir: &str, file: &str) -> (r: String)
    ensures
        r@ == path_in(dir@, file@),
{
    let mut r = dir.to_owned();
    r.append("/");
    r.append(file);
    r
}

} // verus!
