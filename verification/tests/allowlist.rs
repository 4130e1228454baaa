use backed_cli::address::Address;
use backed_cli::allowlist::{allowed_lines, allowlist_info_lines};

fn addr(byte: u8) -> Address {
    Address { bytes: [byte; 20] }
}

#[test]
fn allowlist_info_reports_contract_and_admin() {
    let lines = allowlist_info_lines(&addr(0xab), &addr(0x01));
    assert_eq!(
        lines,
        vec![
            "allowlist: 0xabababababababababababababababababababab".to_string(),
            "admin: 0x0101010101010101010101010101010101010101".to_string(),
        ]
    );
}

#[test]
fn allowed_lines_report_both_answers() {
    assert_eq!(
        allowed_lines(&addr(0x10), true),
        vec![
            "target: 0x1010101010101010101010101010101010101010".to_string(),
            "allowed: true".to_string(),
        ]
    );
    assert_eq!(
        allowed_lines(&addr(0x10), false)[1],
        "allowed: false".to_string()
    );
}
