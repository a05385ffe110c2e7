//! The signing-engine boundary. The engine is an external process: this
//! module computes the exact argument list of each invocation and interprets
//! the outcome the caller observed, but never runs the engine itself. An
//! issuance yields a `Pair` exactly when the engine completed with a zero
//! exit status; every other outcome is the corresponding error, with the
//! captured diagnostics attached.

use vstd::prelude::*;
use vstd::string::*;
use crate::error::PkiError;
use crate::pair::Pair;
use crate::pair::pair_is;
use crate::roles::Role;
use crate::roles::spec_output_name;

verus! {

/// One invocation of the signing engine: either the self-signing call that
/// bootstraps the certificate authority, or a leaf signing call under the
/// authority's material, the shared profile, and the shared subject
/// alternative names.
#[derive(Debug, Clone)]
pub enum EngineCall {
    SelfSign { csr_path: String },
    Sign {
        ca_cert: String,
        ca_key: String,
        config_path: String,
        hostnames: String,
        csr_path: String,
    },
}

/// The exact argument list of an engine invocation.
pub open spec fn spec_args(c: EngineCall) -> Seq<Seq<char>> {
    match c {
        EngineCall::SelfSign { csr_path } => seq!["gencert"@, "-initca"@, csr_path@],
        EngineCall::Sign { ca_cert, ca_key, config_path, hostnames, csr_path } => seq![
            "gencert"@,
            "-ca="@ + ca_cert@,
            "-ca-key="@ + ca_key@,
            "-config="@ + config_path@,
            "-profile=kubernetes"@,
            "-hostname="@ + hostnames@,
            csr_path@,
        ],
    }
}

impl EngineCall {
    /// Renders the argument list to hand to the engine process.
    pub fn args(&self) -> (r: Vec<String>)
        ensures
            r@.map_values(|s: String| s@) == spec_args(*self),
    {
        let mut v: Vec<String> = Vec::new();
        match self {
            EngineCall::SelfSign { csr_path } => {
                v.push("gencert".to_owned());
                v.push("-initca".to_owned());
                v.push(csr_path.clone());
            },
            EngineCall::Sign { ca_cert, ca_key, config_path, hostnames, csr_path } => {
                v.push("gencert".to_owned());
                let mut ca = "-ca=".to_owned();
                ca.append(ca_cert.as_str());
                v.push(ca);
                let mut ca_key_arg = "-ca-key=".to_owned();
                ca_key_arg.append(ca_key.as_str());
                v.push(ca_key_arg);
                let mut config = "-config=".to_owned();
                config.append(config_path.as_str());
                v.push(config);
                v.push("-profile=kubernetes".to_owned());
                let mut hn = "-hostname=".to_owned();
                hn.append(hostnames.as_str());
                v.push(hn);
                v.push(csr_path.clone());
            },
        }
        proof {
            assert(v@.map_values(|s: String| s@) =~= spec_args(*self));
        }
        v
    }
}

/// What the caller observed of one engine invocation: the process could not
/// be spawned, its output stream could not be captured, or it completed with
/// an exit status and captured output.
#[derive(Debug, Clone)]
pub enum EngineOutcome {
    SpawnFailed(String),
    OutputUnavailable,
    Completed { status: i32, stdout: String, stderr: String },
}

/// Whether an outcome counts as success: the engine completed and exited
/// zero.
pub open spec fn engine_success(o: EngineOutcome) -> bool {
    o matches EngineOutcome::Completed { status, .. } && status == 0
}

/// Interprets the outcome of the self-signing call. Yields the authority's
/// `Pair` (named `ca` under `dir`) exactly on success; any failure aborts
/// the bootstrap with its diagnostics retained.
pub fn ca_result(dir: &str, outcome: EngineOutcome) -> (r: Result<Pair, PkiError>)
    ensures
        r is Ok <==> engine_success(outcome),
        r matches Ok(p) ==> pair_is(p, dir@, "ca"@),
        outcome matches EngineOutcome::SpawnFailed(msg) ==> (r matches Err(e) && e matches
            PkiError::EngineSpawn(m) && m@ == msg@),
        outcome matches EngineOutcome::OutputUnavailable ==> (r matches Err(e)
            && e is EngineOutputCapture),
        outcome matches EngineOutcome::Completed { status, stdout, stderr } ==> status != 0 ==> (
        r matches Err(e) && e matches PkiError::CaBootstrap { stdout: out, stderr: err } && out@
            == stdout@ && err@ == stderr@),
{
    match outcome {
        EngineOutcome::SpawnFailed(msg) => Err(PkiError::EngineSpawn(msg)),
        EngineOutcome::OutputUnavailable => Err(PkiError::EngineOutputCapture),
        EngineOutcome::Completed { status, stdout, stderr } => {
            if status == 0 {
                Ok(Pair::new(dir, "ca"))
            } else {
                Err(PkiError::CaBootstrap { stdout, stderr })
            }
        },
    }
}

/// Interprets the outcome of one leaf signing call. Yields the role's `Pair`
/// (its output name under `dir`) exactly on success; any failure aborts the
/// run, naming the role and retaining the exit status and diagnostics. No
/// pair exists for a failed role.
pub fn leaf_result(dir: &str, role: Role, hostname: &str, outcome: EngineOutcome) -> (r: Result<
    Pair,
    PkiError,
>)
    ensures
        r is Ok <==> engine_success(outcome),
        r matches Ok(p) ==> pair_is(p, dir@, spec_output_name(role, hostname@)),
        outcome matches EngineOutcome::SpawnFailed(msg) ==> (r matches Err(e) && e matches
            PkiError::EngineSpawn(m) && m@ == msg@),
        outcome matches EngineOutcome::OutputUnavailable ==> (r matches Err(e)
            && e is EngineOutputCapture),
        outcome matches EngineOutcome::Completed { status, stdout, stderr } ==> status != 0 ==> (
        r matches Err(e) && e matches PkiError::Issuance {
            role: failed,
            status: st,
            stdout: out,
            stderr: err,
        } && failed@ == spec_output_name(role, hostname@) && st == status && out@ == stdout@ && err@
            == stderr@),
{
    match outcome {
        EngineOutcome::SpawnFailed(msg) => Err(PkiError::EngineSpawn(msg)),
        EngineOutcome::OutputUnavailable => Err(PkiError::EngineOutputCapture),
        EngineOutcome::Completed { status, stdout, stderr } => {
            if status == 0 {
                let name = role.output_name(hostname);
                Ok(Pair::new(dir, name.as_str()))
            } else {
                Err(
                    PkiError::Issuance {
                        role: role.output_name(hostname),
                        status,
                        stdout,
                        stderr,
                    },
                )
            }
        },
    }
}

} // verus!
