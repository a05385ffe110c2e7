//! The seven control-plane roles and their identity table: for each role the
//! output file name, the certificate common name, the organization, and the
//! name of the intermediate signing-request file. These identities seed the
//! cluster's role-based access control, so every entry is pinned exactly.

use vstd::prelude::*;
use vstd::string::*;

verus! {

/// One of the seven identities issued under the certificate authority.
#[derive(Debug, Clone, Copy, PartialEq, Eq, Structural)]
pub enum Role {
    Admin,
    ApiServer,
    ControllerManager,
    Kubelet,
    Proxy,
    Scheduler,
    ServiceAccount,
}

/// The base name of the role's certificate and key files. The kubelet's
/// files are named after the node itself.
pub open spec fn spec_output_name(r: Role, hostname: Seq<char>) -> Seq<char> {
    match r {
        Role::Admin => "admin"@,
        Role::ApiServer => "kubernetes"@,
        Role::ControllerManager => "kube-controller-manager"@,
        Role::Kubelet => hostname,
        Role::Proxy => "kube-proxy"@,
        Role::Scheduler => "kube-scheduler"@,
        Role::ServiceAccount => "service-account"@,
    }
}

/// The certificate common name of the role. The kubelet's embeds the node
/// hostname literally.
pub open spec fn spec_common_name(r: Role, hostname: Seq<char>) -> Seq<char> {
    match r {
        Role::Admin => "admin"@,
        Role::ApiServer => "kubernetes"@,
        Role::ControllerManager => "system:kube-controller-manager"@,
        Role::Kubelet => "system:node:"@ + hostname,
        Role::Proxy => "system:kube-proxy"@,
        Role::Scheduler => "system:kube-scheduler"@,
        Role::ServiceAccount => "service-accounts"@,
    }
}

/// The certificate organization of the role.
pub open spec fn spec_organization(r: Role) -> Seq<char> {
    match r {
        Role::Admin => "system:masters"@,
        Role::ApiServer => "kubernetes"@,
        Role::ControllerManager => "system:kube-controller-manager"@,
        Role::Kubelet => "system:nodes"@,
        Role::Proxy => "system:node-proxier"@,
        Role::Scheduler => "system:kube-scheduler"@,
        Role::ServiceAccount => "Kubernetes"@,
    }
}

/// The file name of the role's intermediate signing-request document. The
/// proxy reuses the admin's file name; by the time the proxy is issued the
/// admin certificate is already signed, so the overwrite is harmless.
pub open spec fn spec_csr_file(r: Role) -> Seq<char> {
    match r {
        Role::Admin => "admin-csr.json"@,
        Role::ApiServer => "kubernetes-csr.json"@,
        Role::ControllerManager => "kube-controller-manager-csr.json"@,
        Role::Kubelet => "node-csr.json"@,
        Role::Proxy => "admin-csr.json"@,
        Role::Scheduler => "kube-scheduler-csr.json"@,
        Role::ServiceAccount => "service-account-csr.json"@,
    }
}

impl Role {
    /// The base name of the role's certificate and key files.
    pub fn output_name(&self, hostname: &str) -> (r: String)
        ensures
            r@ == spec_output_name(*self, hostname@),
    {
        match self {
            Role::Admin => "admin".to_owned(),
            Role::ApiServer => "kubernetes".to_owned(),
            Role::ControllerManager => "kube-controller-manager".to_owned(),
            Role::Kubelet => hostname.to_owned(),
            Role::Proxy => "kube-proxy".to_owned(),
            Role::Scheduler => "kube-scheduler".to_owned(),
            Role::ServiceAccount => "service-account".to_owned(),
        }
    }

    /// The certificate common name of the role.
    pub fn common_name(&self, hostname: &str) -> (r: String)
        ensures
            r@ == spec_common_name(*self, hostname@),
            r@.len() > 0,
    {
        proof {
            reveal_strlit("admin");
            reveal_strlit("kubernetes");
            reveal_strlit("system:kube-controller-manager");
            reveal_strlit("system:node:");
            reveal_strlit("system:kube-proxy");
            reveal_strlit("system:kube-scheduler");
            reveal_strlit("service-accounts");
        }
        match self {
            Role::Admin => "admin".to_owned(),
            Role::ApiServer => "kubernetes".to_owned(),
            Role::ControllerManager => "system:kube-controller-manager".to_owned(),
            Role::Kubelet => {
                let mut s = "system:node:".to_owned();
                s.append(hostname);
                s
            },
            Role::Proxy => "system:kube-proxy".to_owned(),
            Role::Scheduler => "system:kube-scheduler".to_owned(),
            Role::ServiceAccount => "service-accounts".to_owned(),
        }
    }

    /// The certificate organization of the role.
    pub fn organization(&self) -> (r: String)
        ensures
            r@ == spec_organization(*self),
            r@.len() > 0,
    {
        proof {
            reveal_strlit("system:masters");
            reveal_strlit("kubernetes");
            reveal_strlit("system:kube-controller-manager");
            reveal_strlit("system:nodes");
            reveal_strlit("system:node-proxier");
            reveal_strlit("system:kube-scheduler");
            reveal_strlit("Kubernetes");
        }
        match self {
            Role::Admin => "system:masters".to_owned(),
            Role::ApiServer => "kubernetes".to_owned(),
            Role::ControllerManager => "system:kube-controller-manager".to_owned(),
            Role::Kubelet => "system:nodes".to_owned(),
            Role::Proxy => "system:node-proxier".to_owned(),
            Role::Scheduler => "system:kube-scheduler".to_owned(),
            Role::ServiceAccount => "Kubernetes".to_owned(),
        }
    }

    /// The file name of the role's intermediate signing-request document.
    pub fn csr_file(&self) -> (r: String)
        ensures
            r@ == spec_csr_file(*self),
    {
        match self {
            Role::Admin => "admin-csr.json".to_owned(),
            Role::ApiServer => "kubernetes-csr.json".to_owned(),
            Role::ControllerManager => "kube-controller-manager-csr.json".to_owned(),
            Role::Kubelet => "node-csr.json".to_owned(),
            Role::Proxy => "admin-csr.json".to_owned(),
            Role::Scheduler => "kube-scheduler-csr.json".to_owned(),
            Role::ServiceAccount => "service-account-csr.json".to_owned(),
        }
    }
}

/// The seven roles in the order a run issues them.
pub fn leaf_roles() -> (r: Vec<Role>)
    ensures
        r@ == seq![
            Role::Admin,
            Role::ApiServer,
            Role::ControllerManager,
            Role::Kubelet,
            Role::Proxy,
            Role::Scheduler,
            Role::ServiceAccount,
        ],
{
    let mut v: Vec<Role> = Vec::new();
    v.push(Role::Admin);
    v.push(Role::ApiServer);
    v.push(Role::ControllerManager);
    v.push(Role::Kubelet);
    v.push(Role::Proxy);
    v.push(Role::Scheduler);
    v.push(Role::ServiceAccount);
    proof {
        assert(v@ =~= seq![
            Role::Admin,
            Role::ApiServer,
            Role::ControllerManager,
            Role::Kubelet,
            Role::Proxy,
            Role::Scheduler,
            Role::ServiceAccount,
        ]);
    }
    v
}

} // verus!
