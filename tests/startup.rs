use trow::config::{ConfigError, NetAddr, TrowBuilder};
use trow::http::api_version_header;
use trow::launch::{Action, Event, Phase, StartError};
use trow::policy::AdmissionPolicy;
use trow::text::banner;

fn s(x: &str) -> String {
    x.to_string()
}

fn strings(xs: &[&str]) -> Vec<String> {
    xs.iter().map(|x| x.to_string()).collect()
}

fn addr(host: &str, port: u16) -> NetAddr {
    NetAddr { host: s(host), port }
}

fn sample_builder(dry_run: bool) -> TrowBuilder {
    TrowBuilder::new(
        s("/data"),
        addr("0.0.0.0", 8443),
        addr("127.0.0.1", 51000),
        vec![],
        vec![],
        vec![],
        vec![],
        vec![],
        dry_run,
    )
}

fn happy_events() -> Vec<Event> {
    vec![
        Event::Begin,
        Event::LoggerReady,
        Event::HttpReady,
        Event::BannerShown,
        Event::BackendSpawned,
        Event::ChannelOpened,
        Event::SignalHookInstalled,
    ]
}

#[test]
fn builder_keeps_every_setting() {
    let b = TrowBuilder::new(
        s("/var/lib/trow"),
        addr("example.org", 443),
        addr("localhost", 51000),
        strings(&["trow.local", "trow"]),
        strings(&["docker.io/library/"]),
        strings(&["quay.io/coreos/etcd:v3"]),
        strings(&["localhost:8443/secret/"]),
        strings(&["localhost:8443/bad:1"]),
        false,
    );
    let c = b.config();
    assert_eq!(c.data_dir(), "/var/lib/trow");
    assert_eq!(c.addr().host, "example.org");
    assert_eq!(c.addr().port, 443);
    assert_eq!(c.backend_addr().host, "localhost");
    assert_eq!(c.backend_addr().port, 51000);
    assert_eq!(c.host_names(), &strings(&["trow.local", "trow"]));
    assert_eq!(c.policy().allow_prefixes(), &strings(&["docker.io/library/"]));
    assert_eq!(c.policy().allow_images(), &strings(&["quay.io/coreos/etcd:v3"]));
    assert_eq!(c.policy().deny_prefixes(), &strings(&["localhost:8443/secret/"]));
    assert_eq!(c.policy().deny_images(), &strings(&["localhost:8443/bad:1"]));
    assert!(!c.dry_run());
    assert!(c.tls().is_none());
}

#[test]
fn tls_last_write_wins() {
    let mut b = sample_builder(false);
    b.with_tls(s("a.crt"), s("a.key")).with_tls(s("b.crt"), s("b.key"));
    let tls = b.config().tls().as_ref().unwrap();
    assert_eq!(tls.cert_file, "b.crt");
    assert_eq!(tls.key_file, "b.key");
}

#[test]
fn tls_presence_decides_transport() {
    let plain = sample_builder(false);
    let h = plain.config().http_config();
    assert!(!h.tls_enabled());
    assert_eq!(h.address, "0.0.0.0");
    assert_eq!(h.port, 8443);

    let mut secure = sample_builder(false);
    secure.with_tls(s("/certs/domain.crt"), s("/certs/domain.key"));
    let h = secure.config().http_config();
    assert!(h.tls_enabled());
    let tls = h.tls.unwrap();
    assert_eq!(tls.cert_file, "/certs/domain.crt");
    assert_eq!(tls.key_file, "/certs/domain.key");
}

#[test]
fn remote_images_need_an_allow_entry() {
    let p = AdmissionPolicy::new(
        strings(&["docker.io/library/"]),
        strings(&["quay.io/coreos/etcd:v3"]),
        vec![],
        vec![],
    );
    assert!(p.admits("docker.io/library/nginx:1.15", false));
    assert!(p.admits("quay.io/coreos/etcd:v3", false));
    assert!(!p.admits("quay.io/coreos/etcd:v4", false));
    assert!(!p.admits("docker.io/other/nginx", false));
    assert!(!p.admits("docker.io/", false));
}

#[test]
fn local_images_allowed_unless_denied() {
    let p = AdmissionPolicy::new(
        vec![],
        vec![],
        strings(&["localhost:8443/secret/"]),
        strings(&["localhost:8443/bad:1"]),
    );
    assert!(p.admits("localhost:8443/good:1", true));
    assert!(!p.admits("localhost:8443/secret/x:1", true));
    assert!(!p.admits("localhost:8443/bad:1", true));
    assert!(p.admits("localhost:8443/bad:2", true));
}

#[test]
fn empty_policy_denies_remote_and_allows_local() {
    let p = AdmissionPolicy::new(vec![], vec![], vec![], vec![]);
    assert!(!p.admits("docker.io/library/nginx", false));
    assert!(p.admits("docker.io/library/nginx", true));
    assert!(!p.admits("", false));
}

#[test]
fn list_order_does_not_change_decisions() {
    let a = AdmissionPolicy::new(
        strings(&["docker.io/", "gcr.io/", "docker.io/"]),
        strings(&["x:1", "y:2"]),
        strings(&["l/a/", "l/b/"]),
        strings(&["l/c:1", "l/d:1"]),
    );
    let b = AdmissionPolicy::new(
        strings(&["gcr.io/", "docker.io/", "docker.io/"]),
        strings(&["y:2", "x:1"]),
        strings(&["l/b/", "l/a/"]),
        strings(&["l/d:1", "l/c:1"]),
    );
    let images = ["docker.io/a", "gcr.io/b", "quay.io/c", "x:1", "y:2", "z:3", "l/a/1", "l/b/2", "l/c:1", "l/d:1", "l/e:1"];
    for image in images.iter() {
        for local in [false, true] {
            assert_eq!(a.admits(image, local), b.admits(image, local));
        }
    }
}

#[test]
fn banner_lists_address_names_and_policy() {
    let b = TrowBuilder::new(
        s("/data"),
        addr("0.0.0.0", 8443),
        addr("127.0.0.1", 51000),
        strings(&["trow.local"]),
        strings(&["docker.io/"]),
        vec![],
        strings(&["l/\"q\"/"]),
        strings(&["l/c:1", "l/d:1"]),
        false,
    );
    let lines = banner(b.config());
    assert_eq!(
        lines,
        strings(&[
            "Starting trow on 0.0.0.0:8443",
            "These host names will considered local for any Kubernetes validation callbacks: [\"trow.local\"]",
            "Validation callback configuration:",
            "  By default all remote images are denied,",
            "  and all local images present in the repository are allowed",
            "  Prefixes explicitly allowed: [\"docker.io/\"]",
            "  Image names explicitly allowed: []",
            "  Local prefixes explicitly denied: [\"l/\\\"q\\\"/\"]",
            "  Local images explicitly denied: [\"l/c:1\", \"l/d:1\"]",
        ])
    );
}

#[test]
fn banner_port_numerals() {
    let low = TrowBuilder::new(s("/d"), addr("h", 0), addr("b", 1), vec![], vec![], vec![], vec![], vec![], true);
    assert_eq!(banner(low.config())[0], "Starting trow on h:0");
    let high = TrowBuilder::new(s("/d"), addr("h", 65535), addr("b", 1), vec![], vec![], vec![], vec![], vec![], true);
    assert_eq!(banner(high.config())[0], "Starting trow on h:65535");
}

#[test]
fn full_launch_spawns_backend_once_then_serves() {
    let mut l = sample_builder(false).launcher();
    assert_eq!(l.phase(), Phase::Configured);
    let mut spawned = Vec::new();
    let mut actions = Vec::new();
    for e in happy_events() {
        let a = l.step(e);
        if let Action::SpawnBackend { data_dir, host, port } = &a {
            spawned.push((data_dir.clone(), host.clone(), *port));
        }
        actions.push(a);
    }
    assert_eq!(spawned, vec![(s("/data"), s("127.0.0.1"), 51000)]);
    assert!(matches!(actions[0], Action::InitLogger));
    match &actions[1] {
        Action::FinalizeHttp(h) => {
            assert_eq!(h.address, "0.0.0.0");
            assert_eq!(h.port, 8443);
            assert!(!h.tls_enabled());
        }
        _ => panic!("expected the HTTP settings"),
    }
    match &actions[2] {
        Action::ShowBanner(lines) => assert_eq!(lines[0], "Starting trow on 0.0.0.0:8443"),
        _ => panic!("expected the banner"),
    }
    match &actions[4] {
        Action::ConnectChannel { host, port } => {
            assert_eq!(host, "127.0.0.1");
            assert_eq!(*port, 51000);
        }
        _ => panic!("expected the channel"),
    }
    assert!(matches!(actions[5], Action::InstallSignalHook));
    assert!(matches!(actions[6], Action::Serve));
    assert_eq!(l.phase(), Phase::Serving);
}

#[test]
fn dry_run_exits_without_spawning() {
    let mut l = sample_builder(true).launcher();
    let mut actions = Vec::new();
    for e in happy_events() {
        actions.push(l.step(e));
    }
    assert!(matches!(actions[3], Action::DryRunExit));
    assert_eq!(l.phase(), Phase::Exited);
    for a in &actions {
        assert!(!matches!(
            a,
            Action::SpawnBackend { .. } | Action::ConnectChannel { .. } | Action::InstallSignalHook | Action::Serve
        ));
    }
    for a in &actions[4..] {
        assert!(matches!(a, Action::Ignore));
    }
}

#[test]
fn termination_signal_while_serving_exits() {
    let mut l = sample_builder(false).launcher();
    for e in happy_events() {
        l.step(e);
    }
    assert!(matches!(l.step(Event::TerminationSignal), Action::Exit));
    assert_eq!(l.phase(), Phase::Exited);
    assert!(matches!(l.step(Event::ServeEnded), Action::Ignore));
}

#[test]
fn termination_signal_during_startup_exits() {
    let mut l = sample_builder(false).launcher();
    l.step(Event::Begin);
    l.step(Event::LoggerReady);
    assert!(matches!(l.step(Event::TerminationSignal), Action::Exit));
    assert_eq!(l.phase(), Phase::Exited);
}

#[test]
fn startup_failures_abort() {
    let mut l = sample_builder(false).launcher();
    l.step(Event::Begin);
    assert!(matches!(l.step(Event::LoggerFailed), Action::Fail(StartError::Logger)));
    assert_eq!(l.phase(), Phase::Exited);

    let mut l = sample_builder(false).launcher();
    l.step(Event::Begin);
    l.step(Event::LoggerReady);
    assert!(matches!(l.step(Event::HttpRejected), Action::Fail(StartError::Config(_))));
    assert_eq!(l.phase(), Phase::Exited);

    let mut l = sample_builder(false).launcher();
    for e in &happy_events()[..4] {
        l.step(*e);
    }
    assert!(matches!(l.step(Event::SpawnFailed), Action::Fail(StartError::Spawn)));
    assert_eq!(l.phase(), Phase::Exited);
}

#[test]
fn failed_signal_hook_still_serves() {
    let mut l = sample_builder(false).launcher();
    for e in &happy_events()[..6] {
        l.step(*e);
    }
    assert!(matches!(l.step(Event::SignalHookFailed), Action::Serve));
    assert_eq!(l.phase(), Phase::Serving);
}

#[test]
fn backend_exit_is_reported_and_serving_goes_on() {
    let mut l = sample_builder(false).launcher();
    for e in happy_events() {
        l.step(e);
    }
    assert!(matches!(l.step(Event::BackendExited), Action::ReportBackendExit));
    assert_eq!(l.phase(), Phase::Serving);
    assert!(matches!(l.step(Event::ChannelOpened), Action::Ignore));
    assert_eq!(l.phase(), Phase::Serving);
    assert!(matches!(l.step(Event::ServeEnded), Action::Exit));
    assert_eq!(l.phase(), Phase::Exited);
}

#[test]
fn out_of_order_events_are_ignored() {
    let mut l = sample_builder(false).launcher();
    assert!(matches!(l.step(Event::HttpReady), Action::Ignore));
    assert_eq!(l.phase(), Phase::Configured);
    assert!(matches!(l.step(Event::BackendExited), Action::Ignore));
    assert_eq!(l.phase(), Phase::Configured);
}

#[test]
fn version_header_and_error_text() {
    let (name, value) = api_version_header();
    assert_eq!(name, "Docker-Distribution-API-Version");
    assert_eq!(value, "registry/2.0");
    assert_eq!(ConfigError {}.message(), "invalid configuration");
}

#[test]
fn frozen_config_matches_builder() {
    let mut b = sample_builder(true);
    b.with_tls(s("c"), s("k"));
    let c = b.build();
    assert!(c.dry_run());
    assert_eq!(c.tls().as_ref().unwrap().cert_file, "c");
    let copy = c.addr().copy();
    assert_eq!(copy.host, "0.0.0.0");
    assert_eq!(copy.port, 8443);
}
