use control_interface::broker;
use control_interface::Client;

#[test]
fn namespaced_subjects_carry_the_prefix() {
    let ns = Some("default".to_string());
    assert_eq!(broker::prefix(&ns), "default.wasmcloud");
    assert_eq!(broker::queries::hosts(&ns), "default.wasmcloud.ping.hosts");
    assert_eq!(
        broker::queries::host_inventory(&ns, "NHOST1"),
        "default.wasmcloud.get.NHOST1.inv"
    );
    assert_eq!(broker::queries::claims(&ns), "default.wasmcloud.get.claims");
    assert_eq!(broker::actor_auction_subject(&ns), "default.wasmcloud.auction.actor");
    assert_eq!(
        broker::provider_auction_subject(&ns),
        "default.wasmcloud.auction.provider"
    );
    assert_eq!(
        broker::commands::start_actor(&ns, "NHOST1"),
        "default.wasmcloud.cmd.NHOST1.la"
    );
    assert_eq!(
        broker::commands::stop_actor(&ns, "NHOST1"),
        "default.wasmcloud.cmd.NHOST1.sa"
    );
    assert_eq!(
        broker::commands::start_provider(&ns, "NHOST1"),
        "default.wasmcloud.cmd.NHOST1.lp"
    );
    assert_eq!(
        broker::commands::stop_provider(&ns, "NHOST1"),
        "default.wasmcloud.cmd.NHOST1.sp"
    );
    assert_eq!(
        broker::commands::update_actor(&ns, "NHOST1"),
        "default.wasmcloud.cmd.NHOST1.upd"
    );
    assert_eq!(
        broker::rpc::call_actor(&ns, "MACTOR"),
        "default.wasmcloud.rpc.MACTOR"
    );
    assert_eq!(broker::rpc::advertise_links(&ns), "default.wasmcloud.rpc.links");
}

#[test]
fn unnamespaced_subjects_use_the_bare_lattice_segment() {
    let ns: Option<String> = None;
    assert_eq!(broker::prefix(&ns), "wasmcloud");
    assert_eq!(broker::queries::hosts(&ns), "wasmcloud.ping.hosts");
    assert_eq!(broker::commands::start_actor(&ns, "NHOST1"), "wasmcloud.cmd.NHOST1.la");
}

#[test]
fn subject_building_is_deterministic() {
    let ns = Some("lattice9".to_string());
    let first = broker::commands::start_actor(&ns, "NHOSTX");
    let second = broker::commands::start_actor(&ns, "NHOSTX");
    assert_eq!(first, second);
    assert!(first.starts_with("lattice9."));
}

#[test]
fn client_start_actor_uses_the_namespaced_command_subject() {
    let client = Client::new(Some("default".to_string()), 1000);
    let (subject, _bytes) = client.start_actor("NHOST1", "wasmcloud.azurecr.io/actor:v1");
    assert_eq!(subject, "default.wasmcloud.cmd.NHOST1.la");
}
