use zingo_bridge::chain::{resolve_chain_hint, ChainKind, UnknownChainHint};
use zingo_bridge::config::{
    config_failure_reply, config_request, malformed_locator_reply, unknown_hint_reply,
    ConfigFailure, ConfigRequest,
};

#[test]
fn main_hint_resolves_to_mainnet() {
    assert_eq!(resolve_chain_hint("main"), Ok(ChainKind::Mainnet));
}

#[test]
fn test_hint_resolves_to_testnet() {
    assert_eq!(resolve_chain_hint("test"), Ok(ChainKind::Testnet));
}

#[test]
fn regtest_hint_resolves_to_regtest() {
    assert_eq!(resolve_chain_hint("regtest"), Ok(ChainKind::Regtest));
}

#[test]
fn other_hints_do_not_resolve() {
    let rejected = [
        "",
        "mainnet",
        "testnet",
        "Main",
        "MAIN",
        " main",
        "main ",
        "fakemain",
        "regtest2",
        "https://node.example:9067",
        "mаin",
    ];
    for hint in rejected {
        assert_eq!(resolve_chain_hint(hint), Err(UnknownChainHint));
    }
}

#[test]
fn config_request_carries_server_chain_and_flag() {
    let request = config_request("https://node.example:9067", None, "test", true);
    assert_eq!(
        request,
        Ok(ConfigRequest {
            server: "https://node.example:9067".to_string(),
            data_dir: None,
            chain: ChainKind::Testnet,
            monitor: true,
        })
    );
    let quiet = config_request("node.example", Some("/var/wallets".to_string()), "regtest", false);
    assert_eq!(
        quiet,
        Ok(ConfigRequest {
            server: "node.example".to_string(),
            data_dir: Some("/var/wallets".to_string()),
            chain: ChainKind::Regtest,
            monitor: false,
        })
    );
}

#[test]
fn config_request_fails_on_unknown_hint() {
    let request = config_request("https://node.example:9067", None, "mainnet", true);
    assert_eq!(request, Err("Error: Not a valid chain hint!".to_string()));
}

#[test]
fn unknown_hint_reply_text() {
    assert_eq!(unknown_hint_reply(), "Error: Not a valid chain hint!");
}

#[test]
fn malformed_locator_reply_text() {
    assert_eq!(
        malformed_locator_reply("invalid uri character"),
        "Error: Invalid server address: invalid uri character"
    );
}

#[test]
fn config_failure_replies_are_distinct() {
    let malformed = config_failure_reply(&ConfigFailure::MalformedLocator {
        reason: "invalid format".to_string(),
    });
    let load = config_failure_reply(&ConfigFailure::LoadFailed {
        reason: "invalid format".to_string(),
    });
    assert_eq!(malformed, "Error: Invalid server address: invalid format");
    assert_eq!(load, "Error: Config load: invalid format");
    assert_ne!(malformed, load);
}
