//! `Pair` is the filesystem identity of one certificate/key set, and `Pki`
//! is the bundle of the certificate authority plus the seven control-plane
//! identities. Neither holds cryptographic material, only path references.

use vstd::prelude::*;
use vstd::string::*;
use crate::cert_path;
use crate::key_path;

verus! {

/// The two file paths of one issued certificate: `<dir>/<name>.pem` and
/// `<dir>/<name>-key.pem`. Immutable once constructed.
#[derive(Debug, Clone)]
pub struct Pair {
    pub cert: String,
    pub key: String,
}

impl Pair {
    /// Derives the certificate and key paths for `name` under `dir`.
    pub fn new(dir: &str, name: &str) -> (r: Pair)
        ensures
            r.cert@ == cert_path(dir@, name@),
            r.key@ == key_path(dir@, name@),
    {
        let mut cert = dir.to_owned();
        cert.append("/");
        cert.append(name);
        cert.append(".pem");
        let mut key = dir.to_owned();
        key.append("/");
        key.append(name);
        key.append("-key.pem");
        Pair { cert, key }
    }

    /// The path of the certificate file.
    pub fn cert(&self) -> (r: &String)
        ensures
            r@ == self.cert@,
    {
        &self.cert
    }

    /// The path of the private key file.
    pub fn key(&self) -> (r: &String)
        ensures
            r@ == self.key@,
    {
        &self.key
    }
}

/// Whether `p` holds exactly the standard paths of `name` under `dir`.
pub open spec fn pair_is(p: Pair, dir: Seq<char>, name: Seq<char>) -> bool {
    &&& p.cert@ == cert_path(dir, name)
    &&& p.key@ == key_path(dir, name)
}

/// The output of one bundle-creation run: the certificate authority pair and
/// the pairs of all seven control-plane roles. Constructible only fully
/// populated, and never mutated afterwards.
#[derive(Debug, Clone)]
pub struct Pki {
    pub admin: Pair,
    pub apiserver: Pair,
    pub ca: Pair,
    pub controller_manager: Pair,
    pub kubelet: Pair,
    pub proxy: Pair,
    pub scheduler: Pair,
    pub service_account: Pair,
}

impl Pki {
    /// Assembles the bundle from the eight issued pairs. There is no other
    /// way to obtain a `Pki`, so a bundle always carries every identity.
    pub fn assemble(
        ca: Pair,
        admin: Pair,
        apiserver: Pair,
        controller_manager: Pair,
        kubelet: Pair,
        proxy: Pair,
        scheduler: Pair,
        service_account: Pair,
    ) -> (r: Pki)
        ensures
            r.ca == ca,
            r.admin == admin,
            r.apiserver == apiserver,
            r.controller_manager == controller_manager,
            r.kubelet == kubelet,
            r.proxy == proxy,
            r.scheduler == scheduler,
            r.service_account == service_account,
    {
        Pki { admin, apiserver, ca, controller_manager, kubelet, proxy, scheduler, service_account }
    }
}

} // verus!
