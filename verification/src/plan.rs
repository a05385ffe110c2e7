//! Planning a bundle-creation run. The certificate authority is created
//! first; only then is the shared issuance context built, and each of the
//! seven roles is issued under it. Every path, document, and engine argument
//! of the run is computed here, so a run is a pure function of the node
//! address, the node hostname, the service network, and the target
//! directory.

use vstd::prelude::*;
use crate::csr::CsrDocument;
use crate::csr::csr_json;
use crate::csr::lemma_round_trip;
use crate::csr::quote_free;
use crate::csr::spec_parse_fields;
use crate::engine::EngineCall;
use crate::net::ServiceNetwork;
use crate::net::spec_first_service_ip;
use crate::pair::Pair;
use crate::path_in;
use crate::path_join;
use crate::profile::config_text;
use crate::roles::Role;
use crate::roles::spec_common_name;
use crate::roles::spec_csr_file;
use crate::roles::spec_organization;
use crate::roles::spec_output_name;
use crate::san::san_text;

verus! {

/// The shared, read-only context of every leaf issuance: the authority's
/// pair, the path of the written profile document, the target directory, and
/// the comma-joined subject alternative names. Built once, after the
/// authority exists.
#[derive(Debug, Clone)]
pub struct PkiConfig {
    pub ca: Pair,
    pub ca_config: String,
    pub dir: String,
    pub hostnames: String,
}

/// Everything the caller must do to bootstrap the certificate authority:
/// write `csr_document` at `csr_path`, then run the engine's self-signing
/// call with `call`'s arguments, materializing files under `output_base`.
#[derive(Debug, Clone)]
pub struct CaStep {
    pub csr_path: String,
    pub csr_document: String,
    pub output_base: String,
    pub call: EngineCall,
}

/// Everything the caller must do to issue one role: write `csr_document` at
/// `csr_path`, then run the engine's signing call with `call`'s arguments,
/// materializing files under `output_base`.
#[derive(Debug, Clone)]
pub struct IssuanceStep {
    pub role: Role,
    pub output_name: String,
    pub csr_path: String,
    pub csr_document: String,
    pub output_base: String,
    pub call: EngineCall,
}

/// Plans the self-signing bootstrap of the certificate authority under
/// `dir`: a request with common name and organization both `Kubernetes`,
/// written beside the authority's output files.
pub fn ca_step(dir: &str) -> (r: CaStep)
    ensures
        r.csr_path@ == path_in(dir@, "ca-csr.json"@),
        r.csr_document@ == csr_json("Kubernetes"@, "Kubernetes"@),
        r.output_base@ == path_in(dir@, "ca"@),
        r.call matches EngineCall::SelfSign { csr_path } && csr_path@ == path_in(
            dir@,
            "ca-csr.json"@,
        ),
{
    proof {
        reveal_strlit("Kubernetes");
    }
    let csr_path = path_join(dir, "ca-csr.json");
    let doc = CsrDocument::new("Kubernetes", "Kubernetes");
    CaStep {
        csr_path: csr_path.clone(),
        csr_document: doc.to_json(),
        output_base: path_join(dir, "ca"),
        call: EngineCall::SelfSign { csr_path },
    }
}

/// The path of the shared profile document under `dir`.
pub fn ca_config_path(dir: &str) -> (r: String)
    ensures
        r@ == path_in(dir@, "ca-config.json"@),
{
    path_join(dir, "ca-config.json")
}

/// Plans the issuance of one role under the shared context: the role's
/// request document per the identity table, written at the role's request
/// path, and a signing call that carries the authority's material, the
/// shared profile, and the shared subject alternative names.
pub fn leaf_step(cfg: &PkiConfig, role: Role, hostname: &str) -> (r: IssuanceStep)
    ensures
        r.role == role,
        r.output_name@ == spec_output_name(role, hostname@),
        r.csr_path@ == path_in(cfg.dir@, spec_csr_file(role)),
        r.csr_document@ == csr_json(spec_common_name(role, hostname@), spec_organization(role)),
        r.output_base@ == path_in(cfg.dir@, spec_output_name(role, hostname@)),
        r.call matches EngineCall::Sign { ca_cert, ca_key, config_path, hostnames, csr_path }
            && ca_cert@ == cfg.ca.cert@ && ca_key@ == cfg.ca.key@ && config_path@ == cfg.ca_config@
            && hostnames@ == cfg.hostnames@ && csr_path@ == path_in(cfg.dir@, spec_csr_file(role)),
{
    let cn = role.common_name(hostname);
    let organization = role.organization();
    let doc = CsrDocument::new(cn.as_str(), organization.as_str());
    let csr_file = role.csr_file();
    let csr_path = path_join(cfg.dir.as_str(), csr_file.as_str());
    let output_name = role.output_name(hostname);
    let output_base = path_join(cfg.dir.as_str(), output_name.as_str());
    IssuanceStep {
        role,
        output_name,
        csr_path: csr_path.clone(),
        csr_document: doc.to_json(),
        output_base,
        call: EngineCall::Sign {
            ca_cert: cfg.ca.cert().clone(),
            ca_key: cfg.ca.key().clone(),
            config_path: cfg.ca_config.clone(),
            hostnames: cfg.hostnames.clone(),
            csr_path,
        },
    }
}

/// For every one of the seven roles, the issued request document carries
/// exactly the identity table's common name and organization: parsing the
/// document a run writes for a role recovers them unchanged. Holds for any
/// hostname free of double quotes.
pub proof fn lemma_issued_identity_matches_table(role: Role, hostname: Seq<char>)
    requires
        quote_free(hostname),
    ensures
        spec_parse_fields(csr_json(spec_common_name(role, hostname), spec_organization(role)))
            == Some((spec_common_name(role, hostname), spec_organization(role))),
{
    reveal_strlit("admin");
    reveal_strlit("kubernetes");
    reveal_strlit("system:kube-controller-manager");
    reveal_strlit("system:node:");
    reveal_strlit("system:kube-proxy");
    reveal_strlit("system:kube-scheduler");
    reveal_strlit("service-accounts");
    reveal_strlit("system:masters");
    reveal_strlit("system:nodes");
    reveal_strlit("system:node-proxier");
    reveal_strlit("Kubernetes");
    let cn = spec_common_name(role, hostname);
    let o = spec_organization(role);
    assert(cn.len() > 0);
    assert(quote_free(cn));
    assert(o.len() > 0);
    assert(quote_free(o));
    lemma_round_trip(cn, o);
}

/// Determinism of a run's engine-facing inputs: every document and address a
/// run derives is a function of the node address, the node hostname, and the
/// service network alone, and the profile document is one fixed text. Two
/// independent runs over equal inputs therefore produce byte-identical
/// request and profile documents.
pub proof fn lemma_run_documents_deterministic(
    role: Role,
    ip1: Seq<char>,
    ip2: Seq<char>,
    hostname1: Seq<char>,
    hostname2: Seq<char>,
    net1: ServiceNetwork,
    net2: ServiceNetwork,
)
    requires
        ip1 == ip2,
        hostname1 == hostname2,
        net1 == net2,
    ensures
        csr_json(spec_common_name(role, hostname1), spec_organization(role)) == csr_json(
            spec_common_name(role, hostname2),
            spec_organization(role),
        ),
        spec_first_service_ip(net1) == spec_first_service_ip(net2),
        spec_first_service_ip(net1) matches Some(svc) ==> san_text(ip1, svc, hostname1) == san_text(
            ip2,
            svc,
            hostname2,
        ),
        config_text() == config_text(),
{
}

} // verus!
