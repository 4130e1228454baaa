use backed_cli::address::Address;
use backed_cli::cli::{BoolValue, GlobalOptions, NetworkName, OperationalStatus};
use backed_cli::client::{select_private_key, signer_address};
use backed_cli::config::{deployment_path, find_repo_root, network_lines, parse_map_addr, DeploymentFile, RootSearch, RuntimeConfig};
use backed_cli::error::CliError;

fn addr(byte: u8) -> Address {
    Address { bytes: [byte; 20] }
}

fn entry(k: &str, v: &str) -> (String, String) {
    (k.to_string(), v.to_string())
}

fn deployment() -> DeploymentFile {
    DeploymentFile {
        network: "megaeth-testnet".to_string(),
        chain_id: 6342,
        rpc: "https://carrot.megaeth.com/rpc".to_string(),
        contracts: vec![
            entry("AgentRaiseFactory", "0x1111111111111111111111111111111111111111"),
            entry("ContractAllowlist", "0x2222222222222222222222222222222222222222"),
        ],
        external: vec![entry("USDM", "0x3333333333333333333333333333333333333333")],
    }
}

fn options() -> GlobalOptions {
    GlobalOptions {
        network: NetworkName::Testnet,
        rpc_url: None,
        factory: None,
        allowlist: None,
        private_key: None,
    }
}

#[test]
fn deployment_files_per_network() {
    assert_eq!(NetworkName::Testnet.deployment_file(), "megaeth-testnet.json");
    assert_eq!(NetworkName::Mainnet.deployment_file(), "megaeth-mainnet.json");
    assert_eq!(NetworkName::Testnet.debug_text(), format!("{:?}", NetworkName::Testnet));
}

#[test]
fn bool_values() {
    assert!(BoolValue::True.as_bool());
    assert!(!BoolValue::False.as_bool());
}

#[test]
fn status_codes_read_back_under_their_names() {
    let all = [
        (OperationalStatus::Raising, 0, "raising"),
        (OperationalStatus::Deploying, 1, "deploying"),
        (OperationalStatus::Operating, 2, "operating"),
        (OperationalStatus::Paused, 3, "paused"),
        (OperationalStatus::Closed, 4, "closed"),
    ];
    for (status, code, name) in all {
        assert_eq!(status.as_u8(), code);
        assert_eq!(backed_cli::formatters::format_status(status.as_u8()), name);
    }
}

#[test]
fn resolve_from_file() {
    let cfg = RuntimeConfig::resolve(&options(), &deployment(), "/repo").unwrap();
    assert_eq!(cfg.network, NetworkName::Testnet);
    assert_eq!(cfg.network_label, "megaeth-testnet");
    assert_eq!(cfg.chain_id, 6342);
    assert_eq!(cfg.rpc_url, "https://carrot.megaeth.com/rpc");
    assert_eq!(cfg.factory, addr(0x11));
    assert_eq!(cfg.allowlist, addr(0x22));
    assert_eq!(cfg.default_collateral, Some(addr(0x33)));
    assert_eq!(cfg.deployment_path, "/repo/backend/deployments/megaeth-testnet.json");
}

#[test]
fn options_override_the_file() {
    let mut opts = options();
    opts.rpc_url = Some("http://localhost:8545".to_string());
    opts.factory = Some(addr(0x44));
    opts.allowlist = Some(addr(0x55));
    let cfg = RuntimeConfig::resolve(&opts, &deployment(), "p").unwrap();
    assert_eq!(cfg.rpc_url, "http://localhost:8545");
    assert_eq!(cfg.factory, addr(0x44));
    assert_eq!(cfg.allowlist, addr(0x55));
}

#[test]
fn file_entries_are_checked_even_when_overridden() {
    let mut opts = options();
    opts.factory = Some(addr(0x44));
    let mut d = deployment();
    d.contracts.remove(0);
    let err = RuntimeConfig::resolve(&opts, &d, "p").unwrap_err();
    assert_eq!(err.message(), "missing key `AgentRaiseFactory` in deployment file");
}

#[test]
fn invalid_entries() {
    let mut d = deployment();
    d.contracts[1].1 = "nope".to_string();
    let err = RuntimeConfig::resolve(&options(), &d, "p").unwrap_err();
    assert_eq!(err.message(), "invalid address for key `ContractAllowlist`: nope");
    let mut d = deployment();
    d.external[0].1 = "0x33".to_string();
    let err = RuntimeConfig::resolve(&options(), &d, "p").unwrap_err();
    assert_eq!(err, CliError::InvalidDefaultCollateral);
    assert_eq!(err.message(), "invalid USDM address in deployment file");
    let mut d = deployment();
    d.external.clear();
    let cfg = RuntimeConfig::resolve(&options(), &d, "p").unwrap();
    assert_eq!(cfg.default_collateral, None);
}

#[test]
fn map_addresses() {
    let d = deployment();
    assert_eq!(parse_map_addr(&d.contracts, "ContractAllowlist"), Ok(addr(0x22)));
    assert_eq!(
        parse_map_addr(&d.contracts, "Missing"),
        Err(CliError::MissingKey { key: "Missing".to_string() })
    );
}

#[test]
fn network_report() {
    let cfg = RuntimeConfig::resolve(&options(), &deployment(), "/r").unwrap();
    assert_eq!(
        network_lines(&cfg),
        vec![
            "network: Testnet",
            "label: megaeth-testnet",
            "chain_id: 6342",
            "rpc: https://carrot.megaeth.com/rpc",
            "factory: 0x1111111111111111111111111111111111111111",
            "allowlist: 0x2222222222222222222222222222222222222222",
            "default_collateral: 0x3333333333333333333333333333333333333333",
            "deployment_file: /r/backend/deployments/megaeth-testnet.json",
        ]
    );
    let mut d = deployment();
    d.external.clear();
    let cfg = RuntimeConfig::resolve(&options(), &d, "f").unwrap();
    assert_eq!(network_lines(&cfg)[6], "default_collateral: <none>");
}

#[test]
fn repo_root_search_steps() {
    assert_eq!(find_repo_root("/a/b", true, Some("/a")), RootSearch::Found("/a/b".to_string()));
    assert_eq!(find_repo_root("/a/b", false, Some("/a")), RootSearch::Ascend("/a".to_string()));
    assert_eq!(find_repo_root("/", false, None), RootSearch::NotFound);
}

#[test]
fn private_key_sources() {
    assert_eq!(select_private_key(Some("0xa".into()), Some("0xb".into())), Ok("0xa".to_string()));
    assert_eq!(select_private_key(None, Some("0xb".into())), Ok("0xb".to_string()));
    let err = select_private_key(None, None).unwrap_err();
    assert_eq!(err.message(), "write command: set --private-key or BACKED_PRIVATE_KEY");
}

#[test]
fn addresses_parse_and_print() {
    let a = Address::parse("0x9f5A17BD53310D012544966b8e3cF7863fc8F05f").unwrap();
    assert_eq!(a.to_text(), "0x9f5a17bd53310d012544966b8e3cf7863fc8f05f");
    assert_eq!(Address::parse("9f5a17bd53310d012544966b8e3cf7863fc8f05f"), Some(a));
    assert_eq!(Address::parse("0x9f5a 17bd53310d012544966b8e3cf7863fc8f05f\n"), Some(a));
    assert_eq!(Address::parse("0x9f5a"), None);
    assert_eq!(Address::parse(" 0x9f5a17bd53310d012544966b8e3cf7863fc8f05f"), None);
    assert_eq!(Address::parse("0x9f5a17bd53310d012544966b8e3cf7863fc8f05f00"), None);
    assert_eq!(Address::parse("0xzz5a17bd53310d012544966b8e3cf7863fc8f05f"), None);
    assert_eq!(Address::parse(&a.to_text()), Some(a));
    assert_eq!(Address::parse(&addr(0).to_text()), Some(addr(0)));
}

#[test]
fn deployment_file_paths() {
    assert_eq!(
        deployment_path("/repo", NetworkName::Testnet),
        "/repo/backend/deployments/megaeth-testnet.json"
    );
    assert_eq!(
        deployment_path("/repo", NetworkName::Mainnet),
        "/repo/backend/deployments/megaeth-mainnet.json"
    );
    assert_eq!(deployment_path("/", NetworkName::Testnet), "/backend/deployments/megaeth-testnet.json");
    assert_eq!(deployment_path("", NetworkName::Mainnet), "backend/deployments/megaeth-mainnet.json");
}

#[test]
fn signer_addresses_from_keys() {
    let one = format!("{}1", "0".repeat(63));
    let (key, a) = signer_address(Some(one.clone()), None).unwrap();
    assert_eq!(key, one);
    assert_eq!(a.to_text(), "0x7e5f4552091a69125d5dfcb7b8c2659029395bdf");
    let (_, b) = signer_address(None, Some(format!("0x{one}"))).unwrap();
    assert_eq!(b, a);
    let err = signer_address(Some("zz".to_string()), Some(one)).unwrap_err();
    assert_eq!(err, CliError::InvalidPrivateKey);
    assert_eq!(err.message(), "invalid private key format");
    let zero = "0".repeat(64);
    assert_eq!(signer_address(Some(zero), None), Err(CliError::InvalidPrivateKey));
    assert_eq!(signer_address(None, None), Err(CliError::MissingPrivateKey));
}
