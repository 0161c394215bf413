use std::sync::Arc;
use zingo_bridge::chain::ChainKind;
use zingo_bridge::config::{ConfigFailure, ConfigRequest};
use zingo_bridge::diagnostics::{
    existence_answer, export, export_transaction_summaries, export_value_transfers, height_reply,
    probe_server_height, probe_step, wallet_exists, ExistenceStep, ExportKind, ExportStep,
    ProbeStep,
};
use zingo_bridge::lifecycle::{init_new, InitAction};
use zingo_bridge::registry::Registry;

#[test]
fn wallet_exists_inspects_the_configuration() {
    let step = wallet_exists("https://node.example:9067", "main");
    assert_eq!(
        step,
        ExistenceStep::Inspect(ConfigRequest {
            server: "https://node.example:9067".to_string(),
            data_dir: None,
            chain: ChainKind::Mainnet,
            monitor: true,
        })
    );
}

#[test]
fn wallet_exists_is_false_for_an_unknown_hint() {
    assert_eq!(wallet_exists("https://node.example:9067", "mainnet"), ExistenceStep::Answer(false));
    assert_eq!(wallet_exists("https://node.example:9067", ""), ExistenceStep::Answer(false));
}

#[test]
fn wallet_exists_inspects_what_init_configures() {
    for hint in ["main", "test", "regtest"] {
        let inspected = match wallet_exists("node.example", hint) {
            ExistenceStep::Inspect(request) => request,
            ExistenceStep::Answer(_) => panic!("a known hint is inspected"),
        };
        assert_eq!(init_new::<u32>("node.example", hint).action, InitAction::LoadConfig(inspected));
    }
}

#[test]
fn existence_answer_passes_the_finding_on() {
    assert!(existence_answer(Ok(true)));
    assert!(!existence_answer(Ok(false)));
}

#[test]
fn existence_answer_is_false_when_the_configuration_fails() {
    assert!(!existence_answer(Err(ConfigFailure::LoadFailed { reason: "io".to_string() })));
    assert!(!existence_answer(Err(ConfigFailure::MalformedLocator { reason: "bad".to_string() })));
}

#[test]
fn probe_accepts_a_full_uri() {
    assert_eq!(
        probe_server_height("https://node.example:9067"),
        ProbeStep::Query { locator: "https://node.example:9067/".to_string() }
    );
    assert_eq!(
        probe_server_height("http://127.0.0.1:9067/path?x=1"),
        ProbeStep::Query { locator: "http://127.0.0.1:9067/path?x=1".to_string() }
    );
}

#[test]
fn probe_accepts_a_bare_authority() {
    assert_eq!(
        probe_server_height("node.example:9067"),
        ProbeStep::Query { locator: "node.example:9067".to_string() }
    );
}

#[test]
fn probe_rejects_an_empty_address() {
    assert_eq!(
        probe_server_height(""),
        ProbeStep::Reply("Error: Invalid server address: empty string".to_string())
    );
}

#[test]
fn probe_rejects_a_malformed_address() {
    assert_eq!(
        probe_server_height("http://node example"),
        ProbeStep::Reply("Error: Invalid server address: invalid uri character".to_string())
    );
    assert_eq!(
        probe_server_height("https://"),
        ProbeStep::Reply("Error: Invalid server address: empty string".to_string())
    );
    for address in ["htt:p//host", "node.example/", "node.example?key=val", "?key=val", "\0"] {
        match probe_server_height(address) {
            ProbeStep::Reply(text) => {
                assert!(text.starts_with("Error: Invalid server address: "), "{}", text);
                assert!(text.len() > "Error: Invalid server address: ".len());
            }
            ProbeStep::Query { locator } => panic!("{} was read as {}", address, locator),
        }
    }
}

#[test]
fn probe_rejects_an_overlong_address() {
    let address = format!("http://node.example/{}", "a".repeat(70_000));
    assert_eq!(
        probe_server_height(&address),
        ProbeStep::Reply("Error: Invalid server address: uri too long".to_string())
    );
}

#[test]
fn probe_step_decides_from_the_parsed_address() {
    assert_eq!(
        probe_step(Ok("http://a/".to_string())),
        ProbeStep::Query { locator: "http://a/".to_string() }
    );
    assert_eq!(
        probe_step(Err("invalid port".to_string())),
        ProbeStep::Reply("Error: Invalid server address: invalid port".to_string())
    );
}

#[test]
fn height_reply_is_the_height_as_text() {
    assert_eq!(height_reply(Ok(2_345_678)), "2345678");
    assert_eq!(height_reply(Ok(0)), "0");
}

#[test]
fn height_reply_is_an_error_text_on_failure() {
    assert_eq!(height_reply(Err("transport error".to_string())), "Error: transport error");
}

#[test]
fn export_without_client_is_rejected() {
    let registry: Registry<u32> = Registry::new();
    let rejected = ExportStep::Reply("Error: Light Client is not initialized".to_string());
    assert_eq!(export_transaction_summaries(&registry), rejected);
    assert_eq!(export_value_transfers(&registry), rejected);
}

#[test]
fn export_queries_the_installed_client() {
    let mut registry = Registry::new();
    let handle = Arc::new(3u32);
    registry.install(handle.clone());
    match export_transaction_summaries(&registry) {
        ExportStep::Query { handle: queried, kind } => {
            assert!(Arc::ptr_eq(&queried, &handle));
            assert_eq!(kind, ExportKind::TransactionSummaries);
        }
        ExportStep::Reply(text) => panic!("unexpected reply {}", text),
    }
    match export_value_transfers(&registry) {
        ExportStep::Query { handle: queried, kind } => {
            assert!(Arc::ptr_eq(&queried, &handle));
            assert_eq!(kind, ExportKind::ValueTransfers);
        }
        ExportStep::Reply(text) => panic!("unexpected reply {}", text),
    }
}

#[test]
fn export_takes_the_kind_as_a_parameter() {
    let mut registry = Registry::new();
    registry.install(Arc::new(3u32));
    assert_eq!(
        export(&registry, ExportKind::ValueTransfers),
        export_value_transfers(&registry)
    );
    assert_eq!(
        export(&registry, ExportKind::TransactionSummaries),
        export_transaction_summaries(&registry)
    );
    assert_ne!(
        export(&registry, ExportKind::TransactionSummaries),
        export_value_transfers(&registry)
    );
}

#[test]
fn export_does_not_touch_the_registry() {
    let mut registry = Registry::new();
    let handle = Arc::new(3u32);
    registry.install(handle.clone());
    let step = export_value_transfers(&registry);
    drop(step);
    assert!(Arc::ptr_eq(&registry.current().expect("installed"), &handle));
}
