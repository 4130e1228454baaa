use backed_cli::address::{Address, TxHash};
use backed_cli::cli::{CreateArgs, SaleTarget, SetGlobalArgs};
use backed_cli::error::CliError;
use backed_cli::factory::{
    agent_projects_lines, collateral_detail_lines, collateral_disabled_lines, collateral_lines,
    collateral_query, commitment_lines, create_params, default_collateral_section, list_header_lines,
    set_collateral_check, default_collateral_lines, factory_summary_lines,
    global_config_lines, global_config_params, global_config_params_checked, legacy_factory_lines, project_lines, project_range,
    snapshot_lines, GlobalConfig, ProjectView, RaiseSnapshot,
};
use backed_cli::output::{receipt_lines, Receipt};
use backed_cli::sale::{
    check_commit, claimable_lines, sale_lookup, sale_status_lines, token_symbol_or_default,
    transfer_lines, user_amount_lines, SaleLookup, SaleStatus,
};
use backed_cli::uint::Uint256;
use backed_cli::units::parse_units_completes;

fn addr(byte: u8) -> Address {
    Address { bytes: [byte; 20] }
}

fn n(v: u64) -> Uint256 {
    Uint256::from_u64(v)
}

fn project() -> ProjectView {
    ProjectView {
        agent_id: n(7),
        name: "Backed Demo".to_string(),
        description: "Initial validation raise".to_string(),
        categories: "defi,infra".to_string(),
        agent: addr(1),
        treasury: addr(2),
        sale: addr(3),
        agent_executor: addr(4),
        collateral: addr(5),
        operational_status: 2,
        status_note: "Treasury live".to_string(),
        created_at: n(1_725_000_000),
        updated_at: n(1_725_000_100),
    }
}

fn a(byte: u8) -> String {
    format!("0x{}", format!("{byte:02x}").repeat(20))
}

#[test]
fn project_report() {
    let lines = project_lines(0, &project(), true);
    assert_eq!(
        lines,
        vec![
            "---".to_string(),
            "project_id: 0".to_string(),
            "name: Backed Demo".to_string(),
            "description: Initial validation raise".to_string(),
            "categories: defi,infra".to_string(),
            "agent_id: 7".to_string(),
            format!("agent: {}", a(1)),
            format!("treasury: {}", a(2)),
            format!("sale: {}", a(3)),
            format!("agent_executor: {}", a(4)),
            format!("collateral: {}", a(5)),
            "operational_status: 2 (operating)".to_string(),
            "status_note: Treasury live".to_string(),
            "approved: true".to_string(),
            "created_at: 1725000000".to_string(),
            "updated_at: 1725000100".to_string(),
        ]
    );
}

#[test]
fn project_report_without_optional_fields() {
    let mut p = project();
    p.categories.clear();
    p.status_note.clear();
    p.operational_status = 9;
    let lines = project_lines(3, &p, false);
    assert_eq!(lines.len(), 14);
    assert!(!lines.iter().any(|l| l.starts_with("categories") || l.starts_with("status_note")));
    assert_eq!(lines[10], "operational_status: 9 (unknown)");
    assert_eq!(lines[11], "approved: false");
}

fn config() -> GlobalConfig {
    GlobalConfig {
        min_raise: n(0),
        max_raise: n(0),
        platform_fee_bps: 100,
        platform_fee_recipient: addr(0x11),
        min_duration: n(3600),
        max_duration: n(86400 * 30),
        min_launch_delay: n(0),
        max_launch_delay: n(604800),
    }
}

#[test]
fn global_config_report() {
    let mut c = config();
    c.min_raise = n(1_500_000_000_000_000_000);
    let lines = global_config_lines(&c, false);
    assert_eq!(
        lines,
        vec![
            "Global config".to_string(),
            "  Min raise (18 decimals): 1.500000000000000000 [raw 1500000000000000000]".to_string(),
            "  Max raise (18 decimals): 0.000000000000000000 [raw 0]".to_string(),
            "  Platform fee: 100 (1.00%)".to_string(),
            format!("  Fee recipient: {}", a(0x11)),
            "  Minimum sale duration: 3600 sec (1h)".to_string(),
            "  Maximum sale duration: 2592000 sec (30d)".to_string(),
            "  Minimum launch delay: 0 sec (0s)".to_string(),
            "  Maximum launch delay: 604800 sec (7d)".to_string(),
        ]
    );
    let coloured = global_config_lines(&c, true);
    assert_eq!(coloured[0], "\x1b[1;36mGlobal config\x1b[0m");
    assert_eq!(coloured[3], "  \x1b[1;34mPlatform fee:\x1b[0m 100 (1.00%)");
}

#[test]
fn factory_info_reports() {
    assert_eq!(
        factory_summary_lines(&addr(0xaa), &n(12), false),
        vec![format!("Factory: {}", a(0xaa)), "Total projects: 12".to_string()]
    );
    assert_eq!(
        default_collateral_lines(&addr(5), "USDM", 6, &n(100_000_000), &n(2_500_000), false),
        vec![
            format!("Default collateral (from deployment): {} (USDM)", a(5)),
            "  Min raise in USDM: 100.000000 [raw 100000000]".to_string(),
            "  Max raise in USDM: 2.500000 [raw 2500000]".to_string(),
        ]
    );
    assert_eq!(
        collateral_disabled_lines(&addr(5), false),
        vec![
            format!("Warning: default collateral {} is NOT enabled in the factory.", a(5)),
            format!("  Enable it with: backed --private-key <ADMIN_PK> factory set-collateral {} true", a(5)),
        ]
    );
    let legacy = legacy_factory_lines(&addr(9), false);
    assert_eq!(legacy[0], "Warning: this factory does not expose allowedCollateral/setAllowedCollateral (legacy ABI).");
    assert_eq!(legacy[1], format!("  Current factory: {}", a(9)));
    assert_eq!(legacy.len(), 3);
}

#[test]
fn collateral_reports() {
    assert_eq!(
        collateral_lines(&addr(5), false),
        vec![format!("collateral: {}", a(5)), "allowed: false".to_string()]
    );
    assert_eq!(
        collateral_detail_lines("USDM", 18, &n(1_000_000_000_000_000_000), &n(0)),
        vec![
            "symbol: USDM".to_string(),
            "min_raise: 1.000000000000000000 (1000000000000000000)".to_string(),
            "max_raise: 0.000000000000000000 (0)".to_string(),
        ]
    );
    let err = CliError::CollateralQueryUnsupported { factory: addr(1) };
    assert_eq!(err.message(), format!("factory {} does not expose allowedCollateral(address). Likely legacy deployment.", a(1)));
    let err = CliError::SetCollateralUnsupported { factory: addr(1) };
    assert_eq!(err.message(), format!("factory {} does not support set-collateral (allowedCollateral missing). Use a latest AgentRaiseFactory address.", a(1)));
}

#[test]
fn list_window() {
    assert_eq!(project_range(0, 10, &n(5)), (0, 5));
    assert_eq!(project_range(7, 10, &n(5)), (5, 5));
    assert_eq!(project_range(2, u64::MAX, &n(10)), (2, 10));
    assert_eq!(project_range(2, 3, &n(10)), (2, 5));
    assert_eq!(project_range(0, 0, &n(0)), (0, 0));
}

#[test]
fn snapshot_and_commitment_reports() {
    let s = RaiseSnapshot {
        approved: true,
        total_committed: n(10),
        accepted_amount: n(8),
        finalized: false,
        failed: false,
        active: true,
        start_time: n(100),
        end_time: n(200),
        share_token: addr(6),
    };
    assert_eq!(
        snapshot_lines(4, &s),
        vec![
            "project_id: 4".to_string(),
            "approved: true".to_string(),
            "total_committed: 10".to_string(),
            "accepted_amount: 8".to_string(),
            "finalized: false".to_string(),
            "failed: false".to_string(),
            "active: true".to_string(),
            "start_time: 100".to_string(),
            "end_time: 200".to_string(),
            format!("share_token: {}", a(6)),
        ]
    );
    assert_eq!(
        commitment_lines(4, &addr(7), &n(55)),
        vec!["project_id: 4".to_string(), format!("user: {}", a(7)), "committed: 55".to_string()]
    );
}

#[test]
fn agent_project_ids() {
    assert_eq!(
        agent_projects_lines(3, &vec![n(1), n(2), n(30)]),
        vec!["agent_id: 3".to_string(), "project_ids: [1, 2, 30]".to_string()]
    );
    assert_eq!(agent_projects_lines(3, &vec![])[1], "project_ids: []");
    assert_eq!(agent_projects_lines(3, &vec![n(9)])[1], "project_ids: [9]");
}

fn create_args() -> CreateArgs {
    CreateArgs {
        agent_id: 0,
        name: "Backed Demo".to_string(),
        description: "Initial validation raise".to_string(),
        categories: "defi,infra".to_string(),
        token_name: "BACKED".to_string(),
        token_symbol: "BACKED".to_string(),
        duration_minutes: 60,
        lockup_minutes: 1440,
        launch_in_minutes: 5,
        agent_address: None,
        collateral: None,
    }
}

#[test]
fn create_arguments() {
    let p = create_params(&create_args(), Some(addr(5)), addr(9), Some(1_000)).unwrap();
    assert_eq!(p.collateral, addr(5));
    assert_eq!(p.agent, addr(9));
    assert_eq!(p.duration, n(3600));
    assert_eq!(p.lockup, n(86_400));
    assert_eq!(p.launch_time, n(1_300));
    assert_eq!(p.agent_id, n(0));
    assert_eq!(p.name, "Backed Demo");
    let mut args = create_args();
    args.collateral = Some(addr(6));
    args.agent_address = Some(addr(8));
    args.launch_in_minutes = 0;
    args.lockup_minutes = 0;
    let p = create_params(&args, Some(addr(5)), addr(9), Some(1_000)).unwrap();
    assert_eq!(p.lockup, n(0));
    assert_eq!(p.collateral, addr(6));
    assert_eq!(p.agent, addr(8));
    assert_eq!(p.launch_time, n(1_000));
}

#[test]
fn create_refusals_in_order() {
    let err = create_params(&create_args(), None, addr(9), None).unwrap_err();
    assert_eq!(err.message(), "collateral not set: pass --collateral or configure USDM in deployment file");
    let mut args = create_args();
    args.duration_minutes = u64::MAX;
    args.launch_in_minutes = u64::MAX;
    let err = create_params(&args, Some(addr(5)), addr(9), None).unwrap_err();
    assert_eq!(err.message(), "overflow on duration_minutes");
    let mut args = create_args();
    args.lockup_minutes = u64::MAX;
    args.launch_in_minutes = u64::MAX;
    let err = create_params(&args, Some(addr(5)), addr(9), None).unwrap_err();
    assert_eq!(err.message(), "overflow on lockup_minutes");
    let mut args = create_args();
    args.launch_in_minutes = u64::MAX;
    let err = create_params(&args, Some(addr(5)), addr(9), None).unwrap_err();
    assert_eq!(err.message(), "overflow on launch_in_minutes");
    let err = create_params(&create_args(), Some(addr(5)), addr(9), None).unwrap_err();
    assert_eq!(err.message(), "system clock before unix epoch");
    let err = create_params(&create_args(), Some(addr(5)), addr(9), Some(u64::MAX - 10)).unwrap_err();
    assert_eq!(err.message(), "overflow on launch timestamp");
}

fn global_args() -> SetGlobalArgs {
    SetGlobalArgs {
        min_raise: "100".to_string(),
        max_raise: "100000".to_string(),
        platform_fee_bps: 100,
        platform_fee_recipient: addr(1),
        min_duration_minutes: 60,
        max_duration_minutes: 43200,
        min_launch_delay_minutes: 0,
        max_launch_delay_minutes: 10080,
    }
}

#[test]
fn global_config_arguments() {
    let args = global_args();
    assert!(parse_units_completes(&args.min_raise, 18) && parse_units_completes(&args.max_raise, 18));
    let c = global_config_params(&args).unwrap();
    assert_eq!(c.min_raise.to_decimal_string(), "100000000000000000000");
    assert_eq!(c.max_raise.to_decimal_string(), "100000000000000000000000");
    assert_eq!(c.platform_fee_bps, 100);
    assert_eq!(c.platform_fee_recipient, addr(1));
    assert_eq!(c.min_duration, n(3600));
    assert_eq!(c.max_duration, n(2_592_000));
    assert_eq!(c.min_launch_delay, n(0));
    assert_eq!(c.max_launch_delay, n(604_800));
    let mut args = global_args();
    args.min_raise = "x".to_string();
    args.max_raise = "y".to_string();
    assert_eq!(global_config_params(&args).unwrap_err().message(), "invalid amount `x` for 18 decimals");
    let mut args = global_args();
    args.max_raise = "y".to_string();
    assert_eq!(global_config_params(&args).unwrap_err().message(), "invalid amount `y` for 18 decimals");
    let mut args = global_args();
    args.max_launch_delay_minutes = u64::MAX;
    args.min_launch_delay_minutes = u64::MAX;
    assert_eq!(global_config_params(&args).unwrap_err().message(), "overflow on min_launch_delay_minutes");
}

#[test]
fn global_config_panicking_amounts() {
    let huge = format!("1{}", "0".repeat(60));
    let mut args = global_args();
    args.min_raise = huge.clone();
    assert!(global_config_params_checked(&args).is_none());
    let mut args = global_args();
    args.max_raise = huge.clone();
    assert!(global_config_params_checked(&args).is_none());
    let mut args = global_args();
    args.min_raise = "x".to_string();
    args.max_raise = huge;
    assert_eq!(
        global_config_params_checked(&args).unwrap().unwrap_err().message(),
        "invalid amount `x` for 18 decimals"
    );
    let c = global_config_params_checked(&global_args()).unwrap().unwrap();
    assert_eq!(c.max_duration, n(2_592_000));
}

#[test]
fn sale_targets() {
    let both = SaleTarget { sale: Some(addr(3)), project_id: Some(1) };
    assert_eq!(sale_lookup(&both), Ok(SaleLookup::Direct(addr(3))));
    let by_id = SaleTarget { sale: None, project_id: Some(1) };
    assert_eq!(sale_lookup(&by_id), Ok(SaleLookup::ByProject(1)));
    let none = SaleTarget { sale: None, project_id: None };
    assert_eq!(sale_lookup(&none).unwrap_err().message(), "set --sale or --project-id");
}

#[test]
fn commitments_need_allowance_then_balance() {
    assert_eq!(check_commit(&n(100), &n(100), &n(100), 0), Ok(()));
    let err = check_commit(&n(50), &n(10), &n(100), 2).unwrap_err();
    assert_eq!(
        err.message(),
        "insufficient allowance: allowance=0.50 required=1.00. Run `sale approve-collateral` first."
    );
    let err = check_commit(&n(500), &n(10), &n(100), 2).unwrap_err();
    assert_eq!(err.message(), "insufficient balance: balance=0.10 required=1.00");
}

#[test]
fn token_symbols() {
    assert_eq!(token_symbol_or_default(Some("USDM".to_string())), "USDM");
    assert_eq!(token_symbol_or_default(None), "TOKEN");
}

#[test]
fn sale_reports() {
    let status = SaleStatus {
        sale: addr(3),
        project: Some((n(2), Some(true))),
        collateral: addr(5),
        symbol: "USDM".to_string(),
        decimals: 6,
        start_time: n(100),
        end_time: n(200),
        is_active: true,
        time_remaining: n(50),
        total_committed: n(1_500_000),
        accepted_amount: n(0),
        finalized: false,
        failed: false,
        share_token: addr(6),
    };
    assert_eq!(
        sale_status_lines(&status),
        vec![
            format!("sale: {}", a(3)),
            "project_id: 2".to_string(),
            "project_approved: true".to_string(),
            format!("collateral: {} (USDM)", a(5)),
            "start_time: 100".to_string(),
            "end_time: 200".to_string(),
            "is_active: true".to_string(),
            "time_remaining_seconds: 50".to_string(),
            "total_committed: 1.500000 (1500000)".to_string(),
            "accepted_amount: 0.000000 (0)".to_string(),
            "finalized: false".to_string(),
            "failed: false".to_string(),
            format!("share_token: {}", a(6)),
        ]
    );
    let mut unknown = status.clone();
    unknown.project = Some((n(2), None));
    assert_eq!(sale_status_lines(&unknown).len(), 12);
    unknown.project = None;
    assert_eq!(sale_status_lines(&unknown).len(), 11);
    assert_eq!(
        claimable_lines(&addr(3), &addr(7), "USDM", 6, &n(2_000_000), &n(0)),
        vec![
            format!("sale: {}", a(3)),
            format!("user: {}", a(7)),
            "token: USDM".to_string(),
            "payout: 2.000000 (2000000)".to_string(),
            "refund: 0.000000 (0)".to_string(),
        ]
    );
    assert_eq!(
        user_amount_lines(&addr(3), &addr(7), "USDM", 6, "refundable: ", &n(1))[3],
        "refundable: 0.000001 (1)"
    );
    assert_eq!(
        transfer_lines("owner: ", &addr(7), "approved: ", &n(100_000_000), 6, "USDM"),
        vec![format!("owner: {}", a(7)), "approved: 100.000000 USDM (100000000)".to_string()]
    );
}

#[test]
fn receipts() {
    let r = Receipt { transaction_hash: TxHash { bytes: [0xab; 32] }, block_number: Some(12), status: Some(1) };
    assert_eq!(
        receipt_lines(&r),
        vec![format!("tx_hash: 0x{}", "ab".repeat(32)), "block: 12".to_string(), "status: 1".to_string()]
    );
    let pending = Receipt { transaction_hash: TxHash { bytes: [0; 32] }, block_number: None, status: None };
    assert_eq!(receipt_lines(&pending)[1], "block: 0");
    assert_eq!(receipt_lines(&pending)[2], "status: 0");
}

#[test]
fn default_collateral_sections() {
    let details = Some(("USDM".to_string(), 6u8, n(100_000_000), n(2_500_000)));
    assert_eq!(
        default_collateral_section(&addr(1), &addr(5), Some(true), details.clone(), false),
        default_collateral_lines(&addr(5), "USDM", 6, &n(100_000_000), &n(2_500_000), false)
    );
    assert!(default_collateral_section(&addr(1), &addr(5), Some(true), None, false).is_empty());
    assert_eq!(
        default_collateral_section(&addr(1), &addr(5), Some(false), details.clone(), false),
        collateral_disabled_lines(&addr(5), false)
    );
    assert_eq!(
        default_collateral_section(&addr(1), &addr(5), None, details, false),
        legacy_factory_lines(&addr(1), false)
    );
}

#[test]
fn collateral_probes() {
    assert_eq!(set_collateral_check(&addr(1), true), Ok(()));
    assert_eq!(
        set_collateral_check(&addr(1), false).unwrap_err().message(),
        format!("factory {} does not support set-collateral (allowedCollateral missing). Use a latest AgentRaiseFactory address.", a(1))
    );
    assert_eq!(collateral_query(&addr(1), Some(false)), Ok(false));
    assert_eq!(collateral_query(&addr(1), Some(true)), Ok(true));
    assert_eq!(
        collateral_query(&addr(1), None).unwrap_err().message(),
        format!("factory {} does not expose allowedCollateral(address). Likely legacy deployment.", a(1))
    );
}

#[test]
fn list_header() {
    assert_eq!(list_header_lines(&n(12), 10, 12), vec!["projects_total: 12".to_string(), "range: 10..12".to_string()]);
}

#[test]
fn global_config_underscored_amounts() {
    let mut args = global_args();
    args.min_raise = "1_000.5".to_string();
    let c = global_config_params(&args).unwrap();
    assert_eq!(c.min_raise.to_decimal_string(), "1000500000000000000000");
}
