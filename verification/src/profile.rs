//! The signing-profile configuration shared by every leaf issuance: a one
//! year validity and the four allowed usages, under the single profile name
//! `kubernetes`. One instance covers a whole run, so every leaf certificate
//! is issued under the same profile.

use vstd::prelude::*;
use vstd::string::*;

verus! {

/// The signing-profile descriptor. Every field is fixed; `wf` pins each one,
/// and the only constructor establishes it.
#[derive(Debug, Clone)]
pub struct CaConfig {
    pub default_expiry: String,
    pub profile_name: String,
    pub profile_usages: Vec<String>,
    pub profile_expiry: String,
}

/// The profile document text the signing engine consumes, fixed for every
/// run.
pub open spec fn config_text() -> Seq<char> {
    "{\n  \"signing\": {\n    \"default\": {\n      \"expiry\": \"8760h\"\n    },\n    \"profiles\": {\n      \"kubernetes\": {\n        \"expiry\": \"8760h\",\n        \"usages\": [\n          \"signing\",\n          \"key encipherment\",\n          \"server auth\",\n          \"client auth\"\n        ]\n      }\n    }\n  }\n}"@
}

impl CaConfig {
    /// The fixed content of the profile: a one-year expiry, the profile name
    /// `kubernetes`, and the four usages, in order.
    pub open spec fn wf(self) -> bool {
        &&& self.default_expiry@ == "8760h"@
        &&& self.profile_name@ == "kubernetes"@
        &&& self.profile_expiry@ == "8760h"@
        &&& self.profile_usages@.map_values(|s: String| s@) == seq![
            "signing"@,
            "key encipherment"@,
            "server auth"@,
            "client auth"@,
        ]
    }

    /// Builds the one signing profile of a run.
    pub fn new() -> (r: CaConfig)
        ensures
            r.wf(),
    {
        let mut usages: Vec<String> = Vec::new();
        usages.push("signing".to_owned());
        usages.push("key encipherment".to_owned());
        usages.push("server auth".to_owned());
        usages.push("client auth".to_owned());
        let r = CaConfig {
            default_expiry: "8760h".to_owned(),
            profile_name: "kubernetes".to_owned(),
            profile_usages: usages,
            profile_expiry: "8760h".to_owned(),
        };
        proof {
            assert(r.profile_usages@.map_values(|s: String| s@) =~= seq![
                "signing"@,
                "key encipherment"@,
                "server auth"@,
                "client auth"@,
            ]);
        }
        r
    }

    /// Renders the profile document text.
    pub fn document(&self) -> (r: String)
        requires
            self.wf(),
        ensures
            r@ == config_text(),
    {
        "{\n  \"signing\": {\n    \"default\": {\n      \"expiry\": \"8760h\"\n    },\n    \"profiles\": {\n      \"kubernetes\": {\n        \"expiry\": \"8760h\",\n        \"usages\": [\n          \"signing\",\n          \"key encipherment\",\n          \"server auth\",\n          \"client auth\"\n        ]\n      }\n    }\n  }\n}".to_owned()
    }
}

} // verus!
