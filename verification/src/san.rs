//! Resolution of the subject alternative names that every server-facing
//! certificate of the cluster carries: the node address, the first service
//! address, loopback, the node hostname, and the fixed internal DNS names of
//! the API service, in exactly this order. The order is part of the
//! contract: re-runs must reproduce the list bit for bit.

use vstd::prelude::*;
use vstd::string::*;
use crate::error::PkiError;
use crate::net::ServiceNetwork;
use crate::net::first_service_ip;
use crate::net::spec_first_service_ip;
use crate::text::format_ipv4;
use crate::text::ipv4_text;

verus! {

/// The nine subject alternative names, in their fixed order, given the node
/// address text, the resolved first service address, and the node hostname.
pub open spec fn san_list(ip: Seq<char>, svc: u32, hostname: Seq<char>) -> Seq<Seq<char>> {
    seq![
        ip,
        ipv4_text(svc),
        "127.0.0.1"@,
        hostname,
        "kubernetes"@,
        "kubernetes.default"@,
        "kubernetes.default.svc"@,
        "kubernetes.default.svc.cluster"@,
        "kubernetes.svc.cluster.local"@,
    ]
}

/// The comma-joined form of the subject alternative names, as the signing
/// engine takes them.
pub open spec fn san_text(ip: Seq<char>, svc: u32, hostname: Seq<char>) -> Seq<char> {
    ip + ","@ + ipv4_text(svc) + ",127.0.0.1,"@ + hostname
        + ",kubernetes,kubernetes.default,kubernetes.default.svc,kubernetes.default.svc.cluster,kubernetes.svc.cluster.local"@
}

/// Resolves the ordered list of subject alternative names for a node.
/// Succeeds exactly when the service network yields a first service address.
pub fn resolve_sans(ip: &str, hostname: &str, net: &ServiceNetwork) -> (r: Result<
    Vec<String>,
    PkiError,
>)
    requires
        net.wf(),
    ensures
        match r {
            Ok(v) => {
                &&& spec_first_service_ip(*net) is Some
                &&& v@.map_values(|s: String| s@) == san_list(
                    ip@,
                    spec_first_service_ip(*net)->Some_0,
                    hostname@,
                )
            },
            Err(e) => spec_first_service_ip(*net) is None && e matches PkiError::AddressDerivation(
                _,
            ),
        },
{
    let svc = first_service_ip(net)?;
    let mut v: Vec<String> = Vec::new();
    v.push(ip.to_owned());
    v.push(format_ipv4(svc));
    v.push("127.0.0.1".to_owned());
    v.push(hostname.to_owned());
    v.push("kubernetes".to_owned());
    v.push("kubernetes.default".to_owned());
    v.push("kubernetes.default.svc".to_owned());
    v.push("kubernetes.default.svc.cluster".to_owned());
    v.push("kubernetes.svc.cluster.local".to_owned());
    proof {
        assert(v@.map_values(|s: String| s@) =~= san_list(ip@, svc, hostname@));
    }
    Ok(v)
}

/// Resolves the comma-joined subject alternative name string for a node.
/// Succeeds exactly when the service network yields a first service address.
pub fn san_string(ip: &str, hostname: &str, net: &ServiceNetwork) -> (r: Result<String, PkiError>)
    requires
        net.wf(),
    ensures
        match r {
            Ok(s) => {
                &&& spec_first_service_ip(*net) is Some
                &&& s@ == san_text(ip@, spec_first_service_ip(*net)->Some_0, hostname@)
            },
            Err(e) => spec_first_service_ip(*net) is None && e matches PkiError::AddressDerivation(
                _,
            ),
        },
{
    let svc = first_service_ip(net)?;
    let mut s = ip.to_owned();
    s.append(",");
    let svc_text = format_ipv4(svc);
    s.append(svc_text.as_str());
    s.append(",127.0.0.1,");
    s.append(hostname);
    s.append(
        ",kubernetes,kubernetes.default,kubernetes.default.svc,kubernetes.default.svc.cluster,kubernetes.svc.cluster.local",
    );
    proof {
        assert(s@ =~= san_text(ip@, svc, hostname@));
    }
    Ok(s)
}

/// The joined subject alternative name string is the comma join of the
/// resolved list: the two views agree element for element, in order.
pub proof fn lemma_san_text_joins_list(ip: Seq<char>, svc: u32, hostname: Seq<char>)
    ensures
        san_text(ip, svc, hostname) == san_list(ip, svc, hostname)[0] + ","@ + san_list(
            ip,
            svc,
            hostname,
        )[1] + ","@ + san_list(ip, svc, hostname)[2] + ","@ + san_list(ip, svc, hostname)[3] + ","@
            + san_list(ip, svc, hostname)[4] + ","@ + san_list(ip, svc, hostname)[5] + ","@
            + san_list(ip, svc, hostname)[6] + ","@ + san_list(ip, svc, hostname)[7] + ","@
            + san_list(ip, svc, hostname)[8],
{
    reveal_strlit(",");
    reveal_strlit(",127.0.0.1,");
    reveal_strlit("127.0.0.1");
    reveal_strlit(
        ",kubernetes,kubernetes.default,kubernetes.default.svc,kubernetes.default.svc.cluster,kubernetes.svc.cluster.local",
    );
    reveal_strlit("kubernetes");
    reveal_strlit("kubernetes.default");
    reveal_strlit("kubernetes.default.svc");
    reveal_strlit("kubernetes.default.svc.cluster");
    reveal_strlit("kubernetes.svc.cluster.local");
    assert(san_text(ip, svc, hostname) =~= san_list(ip, svc, hostname)[0] + ","@ + san_list(
        ip,
        svc,
        hostname,
    )[1] + ","@ + san_list(ip, svc, hostname)[2] + ","@ + san_list(ip, svc, hostname)[3] + ","@
        + san_list(ip, svc, hostname)[4] + ","@ + san_list(ip, svc, hostname)[5] + ","@ + san_list(
        ip,
        svc,
        hostname,
    )[6] + ","@ + san_list(ip, svc, hostname)[7] + ","@ + san_list(ip, svc, hostname)[8]);
}

} // verus!
