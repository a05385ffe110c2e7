use kubepki::csr::{parse, CsrDocument};
use kubepki::engine::{ca_result, leaf_result, EngineCall, EngineOutcome};
use kubepki::error::PkiError;
use kubepki::net::{first_service_ip, Ipv4Net, ServiceNetwork};
use kubepki::pair::{Pair, Pki};
use kubepki::plan::{ca_config_path, ca_step, leaf_step, PkiConfig};
use kubepki::profile::CaConfig;
use kubepki::roles::{leaf_roles, Role};
use kubepki::san::{resolve_sans, san_string};
use kubepki::text::format_ipv4;

fn cidr(a: u8, b: u8, c: u8, d: u8, prefix: u8) -> ServiceNetwork {
    let addr = ((a as u32) << 24) | ((b as u32) << 16) | ((c as u32) << 8) | (d as u32);
    ServiceNetwork::V4(Ipv4Net { addr, prefix })
}

fn shared_config(dir: &str, hostnames: &str) -> PkiConfig {
    PkiConfig {
        ca: Pair::new(dir, "ca"),
        ca_config: ca_config_path(dir),
        dir: dir.to_string(),
        hostnames: hostnames.to_string(),
    }
}

#[test]
fn first_service_address_of_a_slash_24() {
    let r = first_service_ip(&cidr(10, 32, 0, 0, 24)).unwrap();
    assert_eq!(r, 0x0A20_0001);
    assert_eq!(format_ipv4(r), "10.32.0.1");
}

#[test]
fn first_service_address_masks_host_bits() {
    // 10.32.0.77/24 has the same network base as 10.32.0.0/24.
    let r = first_service_ip(&cidr(10, 32, 0, 77, 24)).unwrap();
    assert_eq!(format_ipv4(r), "10.32.0.1");
}

#[test]
fn slash_32_network_has_no_service_address() {
    let e = first_service_ip(&cidr(10, 32, 0, 0, 32)).unwrap_err();
    assert!(matches!(e, PkiError::AddressDerivation(_)));
}

#[test]
fn non_ipv4_network_falls_back_to_loopback() {
    let r = first_service_ip(&ServiceNetwork::Other).unwrap();
    assert_eq!(format_ipv4(r), "127.0.0.1");
}

#[test]
fn model_matches_ipnetwork_nth() {
    let n: ipnetwork::Ipv4Network = "10.32.0.0/24".parse().unwrap();
    let model = ServiceNetwork::V4(Ipv4Net { addr: u32::from(n.ip()), prefix: n.prefix() });
    let ours = first_service_ip(&model).unwrap();
    assert_eq!(ours, u32::from(n.nth(1).unwrap()));

    let single: ipnetwork::Ipv4Network = "10.32.0.0/32".parse().unwrap();
    assert!(single.nth(1).is_none());
    let model = ServiceNetwork::V4(Ipv4Net { addr: u32::from(single.ip()), prefix: single.prefix() });
    assert!(first_service_ip(&model).is_err());
}

#[test]
fn san_list_is_exact_in_content_and_order() {
    let net = cidr(10, 32, 0, 0, 16);
    let joined = san_string("1.2.3.4", "node1", &net).unwrap();
    assert_eq!(
        joined,
        "1.2.3.4,10.32.0.1,127.0.0.1,node1,kubernetes,kubernetes.default,kubernetes.default.svc,kubernetes.default.svc.cluster,kubernetes.svc.cluster.local"
    );
    let list = resolve_sans("1.2.3.4", "node1", &net).unwrap();
    assert_eq!(
        list,
        vec![
            "1.2.3.4",
            "10.32.0.1",
            "127.0.0.1",
            "node1",
            "kubernetes",
            "kubernetes.default",
            "kubernetes.default.svc",
            "kubernetes.default.svc.cluster",
            "kubernetes.svc.cluster.local",
        ]
    );
    assert_eq!(joined, list.join(","));
}

#[test]
fn san_resolution_fails_on_slash_32() {
    let e = san_string("1.2.3.4", "node1", &cidr(10, 32, 0, 0, 32)).unwrap_err();
    assert!(matches!(e, PkiError::AddressDerivation(_)));
}

#[test]
fn role_identities_match_the_table() {
    let host = "node1";
    let table: Vec<(Role, &str, &str, &str)> = vec![
        (Role::Admin, "admin", "admin", "system:masters"),
        (Role::ApiServer, "kubernetes", "kubernetes", "kubernetes"),
        (
            Role::ControllerManager,
            "kube-controller-manager",
            "system:kube-controller-manager",
            "system:kube-controller-manager",
        ),
        (Role::Kubelet, "node1", "system:node:node1", "system:nodes"),
        (Role::Proxy, "kube-proxy", "system:kube-proxy", "system:node-proxier"),
        (Role::Scheduler, "kube-scheduler", "system:kube-scheduler", "system:kube-scheduler"),
        (Role::ServiceAccount, "service-account", "service-accounts", "Kubernetes"),
    ];
    assert_eq!(leaf_roles().len(), 7);
    for (role, output, cn, organization) in table {
        assert_eq!(role.output_name(host), output);
        assert_eq!(role.common_name(host), cn);
        assert_eq!(role.organization(), organization);
    }
}

#[test]
fn issued_documents_carry_the_table_identities() {
    let cfg = shared_config("/pki", "1.2.3.4,10.32.0.1");
    for role in leaf_roles() {
        let step = leaf_step(&cfg, role, "node1");
        let doc = parse(&step.csr_document).unwrap();
        assert_eq!(doc.common_name, role.common_name("node1"));
        assert_eq!(doc.organization, role.organization());
    }
}

#[test]
fn csr_document_renders_the_fixed_shape() {
    let doc = CsrDocument::new("admin", "system:masters");
    let text = doc.to_json();
    let expected = "{\n  \"CN\": \"admin\",\n  \"key\": {\n    \"algo\": \"rsa\",\n    \"size\": 2048\n  },\n  \"names\": [\n    {\n      \"C\": \"US\",\n      \"L\": \"Portland\",\n      \"O\": \"system:masters\",\n      \"OU\": \"Kubernetes\",\n      \"ST\": \"Oregon\"\n    }\n  ]\n}";
    assert_eq!(text, expected);
}

#[test]
fn csr_document_is_valid_json_with_the_fixed_policy() {
    let doc = CsrDocument::new("system:node:node1", "system:nodes");
    let v: serde_json::Value = serde_json::from_str(&doc.to_json()).unwrap();
    assert_eq!(v["CN"], "system:node:node1");
    assert_eq!(v["key"]["algo"], "rsa");
    assert_eq!(v["key"]["size"], 2048);
    assert_eq!(v["names"][0]["C"], "US");
    assert_eq!(v["names"][0]["L"], "Portland");
    assert_eq!(v["names"][0]["O"], "system:nodes");
    assert_eq!(v["names"][0]["OU"], "Kubernetes");
    assert_eq!(v["names"][0]["ST"], "Oregon");
}

#[test]
fn csr_document_round_trips() {
    let doc = CsrDocument::new("system:node:node1", "system:nodes");
    let back = parse(&doc.to_json()).unwrap();
    assert_eq!(back.common_name, "system:node:node1");
    assert_eq!(back.organization, "system:nodes");
    assert_eq!(back.key_algorithm(), doc.key_algorithm());
    assert_eq!(back.key_size(), doc.key_size());
}

#[test]
fn parse_rejects_other_shapes() {
    assert!(parse("{}").is_none());
    assert!(parse("").is_none());
    assert!(parse("{\n  \"CN\": \"\",\n  \"key\": {\n    \"algo\": \"rsa\"\n  }\n}").is_none());
    let doc = CsrDocument::new("admin", "system:masters").to_json();
    assert!(parse(&doc[..doc.len() - 1]).is_none());
}

#[test]
fn profile_document_is_fixed() {
    let config = CaConfig::new();
    let expected = "{\n  \"signing\": {\n    \"default\": {\n      \"expiry\": \"8760h\"\n    },\n    \"profiles\": {\n      \"kubernetes\": {\n        \"expiry\": \"8760h\",\n        \"usages\": [\n          \"signing\",\n          \"key encipherment\",\n          \"server auth\",\n          \"client auth\"\n        ]\n      }\n    }\n  }\n}";
    assert_eq!(config.document(), expected);
    let v: serde_json::Value = serde_json::from_str(&config.document()).unwrap();
    assert_eq!(v["signing"]["default"]["expiry"], "8760h");
    assert_eq!(v["signing"]["profiles"]["kubernetes"]["expiry"], "8760h");
    assert_eq!(
        v["signing"]["profiles"]["kubernetes"]["usages"][1],
        "key encipherment"
    );
}

#[test]
fn pair_paths_are_derived_from_directory_and_name() {
    let pair = Pair::new("/pki", "admin");
    assert_eq!(pair.cert(), "/pki/admin.pem");
    assert_eq!(pair.key(), "/pki/admin-key.pem");
}

#[test]
fn ca_step_plans_the_self_signing_call() {
    let step = ca_step("/pki");
    assert_eq!(step.csr_path, "/pki/ca-csr.json");
    assert_eq!(step.output_base, "/pki/ca");
    let doc = parse(&step.csr_document).unwrap();
    assert_eq!(doc.common_name, "Kubernetes");
    assert_eq!(doc.organization, "Kubernetes");
    assert_eq!(step.call.args(), vec!["gencert", "-initca", "/pki/ca-csr.json"]);
}

#[test]
fn leaf_step_plans_the_signing_call() {
    let cfg = shared_config("/pki", "1.2.3.4,10.32.0.1,127.0.0.1,node1");
    let step = leaf_step(&cfg, Role::Scheduler, "node1");
    assert_eq!(step.output_name, "kube-scheduler");
    assert_eq!(step.csr_path, "/pki/kube-scheduler-csr.json");
    assert_eq!(step.output_base, "/pki/kube-scheduler");
    assert_eq!(
        step.call.args(),
        vec![
            "gencert",
            "-ca=/pki/ca.pem",
            "-ca-key=/pki/ca-key.pem",
            "-config=/pki/ca-config.json",
            "-profile=kubernetes",
            "-hostname=1.2.3.4,10.32.0.1,127.0.0.1,node1",
            "/pki/kube-scheduler-csr.json",
        ]
    );
}

#[test]
fn proxy_reuses_the_admin_request_file() {
    let cfg = shared_config("/pki", "1.2.3.4");
    assert_eq!(leaf_step(&cfg, Role::Proxy, "node1").csr_path, "/pki/admin-csr.json");
    assert_eq!(leaf_step(&cfg, Role::Admin, "node1").csr_path, "/pki/admin-csr.json");
}

#[test]
fn successful_outcomes_materialize_pairs() {
    let done = EngineOutcome::Completed { status: 0, stdout: String::new(), stderr: String::new() };
    let ca = ca_result("/pki", done.clone()).unwrap();
    assert_eq!(ca.cert(), "/pki/ca.pem");
    assert_eq!(ca.key(), "/pki/ca-key.pem");
    let leaf = leaf_result("/pki", Role::Kubelet, "node1", done).unwrap();
    assert_eq!(leaf.cert(), "/pki/node1.pem");
    assert_eq!(leaf.key(), "/pki/node1-key.pem");
}

#[test]
fn nonzero_exit_fails_the_issuance_and_yields_no_pair() {
    let failed = EngineOutcome::Completed {
        status: 1,
        stdout: "partial".to_string(),
        stderr: "bad csr".to_string(),
    };
    let e = leaf_result("/pki", Role::Proxy, "node1", failed).unwrap_err();
    match e {
        PkiError::Issuance { role, status, stdout, stderr } => {
            assert_eq!(role, "kube-proxy");
            assert_eq!(status, 1);
            assert_eq!(stdout, "partial");
            assert_eq!(stderr, "bad csr");
        }
        other => panic!("unexpected error: {:?}", other),
    }
    let failed = EngineOutcome::Completed {
        status: 2,
        stdout: String::new(),
        stderr: "no ca".to_string(),
    };
    let e = ca_result("/pki", failed).unwrap_err();
    assert!(matches!(e, PkiError::CaBootstrap { .. }));
}

#[test]
fn spawn_and_capture_failures_are_distinguished() {
    let e = ca_result("/pki", EngineOutcome::SpawnFailed("not found".to_string())).unwrap_err();
    match e {
        PkiError::EngineSpawn(msg) => assert_eq!(msg, "not found"),
        other => panic!("unexpected error: {:?}", other),
    }
    let e = leaf_result("/pki", Role::Admin, "node1", EngineOutcome::OutputUnavailable)
        .unwrap_err();
    assert!(matches!(e, PkiError::EngineOutputCapture));
    assert_eq!(e.kind(), "signing engine output capture failed");
}

#[test]
fn two_runs_produce_identical_documents() {
    let net = cidr(10, 32, 0, 0, 16);
    let run = |dir: &str| -> (String, Vec<String>, String) {
        let hostnames = san_string("1.2.3.4", "node1", &net).unwrap();
        let cfg = shared_config(dir, &hostnames);
        let docs = leaf_roles()
            .into_iter()
            .map(|role| leaf_step(&cfg, role, "node1").csr_document)
            .collect();
        (ca_step(dir).csr_document, docs, CaConfig::new().document())
    };
    let first = run("/pki");
    let second = run("/pki");
    assert_eq!(first.0, second.0);
    assert_eq!(first.1, second.1);
    assert_eq!(first.2, second.2);
}

#[test]
fn bundle_holds_all_eight_pairs() {
    let dir = "/pki";
    let p = |name: &str| Pair::new(dir, name);
    let bundle = Pki::assemble(
        p("ca"),
        p("admin"),
        p("kubernetes"),
        p("kube-controller-manager"),
        p("node1"),
        p("kube-proxy"),
        p("kube-scheduler"),
        p("service-account"),
    );
    assert_eq!(bundle.ca.cert, "/pki/ca.pem");
    assert_eq!(bundle.admin.cert, "/pki/admin.pem");
    assert_eq!(bundle.apiserver.cert, "/pki/kubernetes.pem");
    assert_eq!(bundle.controller_manager.key, "/pki/kube-controller-manager-key.pem");
    assert_eq!(bundle.kubelet.cert, "/pki/node1.pem");
    assert_eq!(bundle.proxy.cert, "/pki/kube-proxy.pem");
    assert_eq!(bundle.scheduler.key, "/pki/kube-scheduler-key.pem");
    assert_eq!(bundle.service_account.cert, "/pki/service-account.pem");
}

#[test]
fn error_kinds_are_labelled() {
    assert_eq!(
        PkiError::DirectoryCreation("denied".to_string()).kind(),
        "directory creation failed"
    );
    assert_eq!(PkiError::CsrWrite("disk full".to_string()).kind(), "document write failed");
    assert_eq!(
        PkiError::AddressDerivation("no second address".to_string()).kind(),
        "address derivation failed"
    );
}
