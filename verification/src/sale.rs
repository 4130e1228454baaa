use crate::address::{address_text, Address};
use crate::cli::SaleTarget;
use crate::error::CliError;
use crate::factory::{amount_line, amount_line_exec};
use crate::text::{bool_str, bool_text, concat, concat3, decimal, lemma_bool_text_values, texts};
use crate::uint::Uint256;
use crate::units::{format_token_amount, token_amount_text};
use vstd::prelude::*;

verus! {

/// Where the address of the sale a command acts on comes from.
#[derive(Clone, Copy, Debug, PartialEq, Eq)]
pub enum SaleLookup {
    /// The sale address was given.
    Direct(Address),
    /// The sale is the one of this project, as the factory records it.
    ByProject(u64),
}

/// Decides where a sale command's sale comes from: the `--sale` address when
/// given, else the `--project-id` project's sale, else an error.
pub fn sale_lookup(target: &SaleTarget) -> (r: Result<SaleLookup, CliError>)
    ensures
        match target.sale {
            Some(a) => r == Ok::<SaleLookup, CliError>(SaleLookup::Direct(a)),
            None => match target.project_id {
                Some(id) => r == Ok::<SaleLookup, CliError>(SaleLookup::ByProject(id)),
                None => r matches Err(e) && e is SaleTargetMissing,
            },
        },
{
    if let Some(a) = target.sale {
        return Ok(SaleLookup::Direct(a));
    }
    if let Some(id) = target.project_id {
        return Ok(SaleLookup::ByProject(id));
    }
    Err(CliError::SaleTargetMissing)
}

/// Checks a commitment against the sale's allowance and then the wallet's
/// balance, each in base units; the errors show the amounts in whole units.
pub fn check_commit(allowance: &Uint256, balance: &Uint256, amount: &Uint256, decimals: u8) -> (r:
    Result<(), CliError>)
    ensures
        r is Ok <==> amount@ <= allowance@ && amount@ <= balance@,
        amount@ > allowance@ ==> match r {
            Err(CliError::InsufficientAllowance { allowance: a, required: q }) => a@
                == token_amount_text(allowance@, decimals) && q@ == token_amount_text(
                amount@,
                decimals,
            ),
            _ => false,
        },
        amount@ <= allowance@ && amount@ > balance@ ==> match r {
            Err(CliError::InsufficientBalance { balance: b, required: q }) => b@
                == token_amount_text(balance@, decimals) && q@ == token_amount_text(
                amount@,
                decimals,
            ),
            _ => false,
        },
{
    if allowance.lt(amount) {
        return Err(
            CliError::InsufficientAllowance {
                allowance: format_token_amount(allowance, decimals),
                required: format_token_amount(amount, decimals),
            },
        );
    }
    if balance.lt(amount) {
        return Err(
            CliError::InsufficientBalance {
                balance: format_token_amount(balance, decimals),
                required: format_token_amount(amount, decimals),
            },
        );
    }
    Ok(())
}

/// The symbol a token reports, or `TOKEN` when it cannot be read.
pub fn token_symbol_or_default(symbol: Option<String>) -> (s: String)
    ensures
        s@ == (match symbol {
            Some(t) => t@,
            None => "TOKEN"@,
        }),
{
    match symbol {
        Some(t) => t,
        None => "TOKEN".to_owned(),
    }
}

/// What `sale status` reads from the chain.
#[derive(Clone, Debug)]
pub struct SaleStatus {
    pub sale: Address,
    /// The sale's project, when the sale reports one, and whether the
    /// factory approved it, when the factory answers.
    pub project: Option<(Uint256, Option<bool>)>,
    pub collateral: Address,
    pub symbol: String,
    pub decimals: u8,
    pub start_time: Uint256,
    pub end_time: Uint256,
    pub is_active: bool,
    pub time_remaining: Uint256,
    pub total_committed: Uint256,
    pub accepted_amount: Uint256,
    pub finalized: bool,
    pub failed: bool,
    pub share_token: Address,
}

/// The report of `sale status`: the project lines only when the sale reports
/// its project, the approval only when the factory answers.
pub open spec fn sale_status_report(s: SaleStatus) -> Seq<Seq<char>> {
    seq!["sale: "@ + address_text(s.sale@)] + match s.project {
        Some((id, approved)) => seq!["project_id: "@ + decimal(id@)] + match approved {
            Some(b) => seq!["project_approved: "@ + bool_text(b)],
            None => seq![],
        },
        None => seq![],
    } + seq![
        "collateral: "@ + address_text(s.collateral@) + " ("@ + s.symbol@ + ")"@,
        "start_time: "@ + decimal(s.start_time@),
        "end_time: "@ + decimal(s.end_time@),
        "is_active: "@ + bool_text(s.is_active),
        "time_remaining_seconds: "@ + decimal(s.time_remaining@),
        amount_line("total_committed: "@, s.total_committed@, s.decimals),
        amount_line("accepted_amount: "@, s.accepted_amount@, s.decimals),
        "finalized: "@ + bool_text(s.finalized),
        "failed: "@ + bool_text(s.failed),
        "share_token: "@ + address_text(s.share_token@),
    ]
}

/// The lines of `sale status`.
pub fn sale_status_lines(s: &SaleStatus) -> (lines: Vec<String>)
    ensures
        texts(lines@) == sale_status_report(*s),
{
    let mut lines: Vec<String> = Vec::new();
    let sale = s.sale.to_text();
    lines.push(concat("sale: ", sale.as_str()));
    match &s.project {
        Some((id, approved)) => {
            let d = id.to_decimal_string();
            lines.push(concat("project_id: ", d.as_str()));
            match approved {
                Some(b) => lines.push(concat("project_approved: ", bool_str(*b))),
                None => {},
            }
        },
        None => {},
    }
    let c = s.collateral.to_text();
    let mut cl = concat3("collateral: ", c.as_str(), " (");
    cl.append(s.symbol.as_str());
    cl.append(")");
    lines.push(cl);
    let st = s.start_time.to_decimal_string();
    lines.push(concat("start_time: ", st.as_str()));
    let et = s.end_time.to_decimal_string();
    lines.push(concat("end_time: ", et.as_str()));
    lines.push(concat("is_active: ", bool_str(s.is_active)));
    let tr = s.time_remaining.to_decimal_string();
    lines.push(concat("time_remaining_seconds: ", tr.as_str()));
    lines.push(amount_line_exec("total_committed: ", &s.total_committed, s.decimals));
    lines.push(amount_line_exec("accepted_amount: ", &s.accepted_amount, s.decimals));
    lines.push(concat("finalized: ", bool_str(s.finalized)));
    lines.push(concat("failed: ", bool_str(s.failed)));
    let tok = s.share_token.to_text();
    lines.push(concat("share_token: ", tok.as_str()));
    assert(texts(lines@) =~= sale_status_report(*s));
    lines
}

/// The opening lines of the per-user sale reports: the sale, the user and
/// the collateral's symbol.
pub open spec fn sale_user_report(sale: Address, user: Address, symbol: Seq<char>) -> Seq<Seq<char>> {
    seq![
        "sale: "@ + address_text(sale@),
        "user: "@ + address_text(user@),
        "token: "@ + symbol,
    ]
}

fn sale_user_lines(sale: &Address, user: &Address, symbol: &str) -> (lines: Vec<String>)
    ensures
        texts(lines@) == sale_user_report(*sale, *user, symbol@),
{
    let mut lines: Vec<String> = Vec::new();
    let s = sale.to_text();
    lines.push(concat("sale: ", s.as_str()));
    let u = user.to_text();
    lines.push(concat("user: ", u.as_str()));
    lines.push(concat("token: ", symbol));
    assert(texts(lines@) =~= sale_user_report(*sale, *user, symbol@));
    lines
}

/// The lines of `sale claimable`: the payout and the refund a user can claim.
pub fn claimable_lines(sale: &Address, user: &Address, symbol: &str, decimals: u8, payout: &Uint256, refund: &Uint256) -> (lines: Vec<String>)
    ensures
        texts(lines@) == sale_user_report(*sale, *user, symbol@) + seq![
            amount_line("payout: "@, payout@, decimals),
            amount_line("refund: "@, refund@, decimals),
        ],
{
    let mut lines = sale_user_lines(sale, user, symbol);
    lines.push(amount_line_exec("payout: ", payout, decimals));
    lines.push(amount_line_exec("refund: ", refund, decimals));
    assert(texts(lines@) =~= sale_user_report(*sale, *user, symbol@) + seq![
        amount_line("payout: "@, payout@, decimals),
        amount_line("refund: "@, refund@, decimals),
    ]);
    lines
}

/// The lines of `sale refundable` (with the label `refundable: `) and of
/// `sale commitment` (with `committed: `): one amount of a user.
pub fn user_amount_lines(sale: &Address, user: &Address, symbol: &str, decimals: u8, label: &str, amount: &Uint256) -> (lines: Vec<String>)
    ensures
        texts(lines@) == sale_user_report(*sale, *user, symbol@) + seq![
            amount_line(label@, amount@, decimals),
        ],
{
    let mut lines = sale_user_lines(sale, user, symbol);
    lines.push(amount_line_exec(label, amount, decimals));
    assert(texts(lines@) =~= sale_user_report(*sale, *user, symbol@) + seq![
        amount_line(label@, amount@, decimals),
    ]);
    lines
}

/// The report after a collateral approval (with the label `owner: ` and
/// `approved: `) or a commitment (`sender: ` and `committed: `): the wallet,
/// and the amount in whole units with the symbol and the raw number.
pub open spec fn transfer_report(who_label: Seq<char>, who: Address, amount_label: Seq<char>, amount: nat, decimals: u8, symbol: Seq<char>) -> Seq<Seq<char>> {
    seq![
        who_label + address_text(who@),
        amount_label + token_amount_text(amount, decimals) + " "@ + symbol + " ("@ + decimal(amount) + ")"@,
    ]
}

/// The lines after a collateral approval or a commitment.
pub fn transfer_lines(who_label: &str, who: &Address, amount_label: &str, amount: &Uint256, decimals: u8, symbol: &str) -> (lines: Vec<String>)
    ensures
        texts(lines@) == transfer_report(who_label@, *who, amount_label@, amount@, decimals, symbol@),
{
    let mut lines: Vec<String> = Vec::new();
    let w = who.to_text();
    lines.push(concat(who_label, w.as_str()));
    let a = format_token_amount(amount, decimals);
    let mut l = concat3(amount_label, a.as_str(), " ");
    l.append(symbol);
    l.append(" (");
    let raw = amount.to_decimal_string();
    l.append(raw.as_str());
    l.append(")");
    lines.push(l);
    assert(texts(lines@) =~= transfer_report(who_label@, *who, amount_label@, amount@, decimals, symbol@));
    lines
}

/// Each line of `sale status` shows the field it is labelled with. After the
/// sale's line come the project lines (none, one, or two with the approval),
/// then the collateral, start and end time, whether the sale is active, the
/// time remaining, the committed and accepted amounts in the collateral's
/// units, and then `finalized`, `failed` and the share token, which end the
/// report.
pub proof fn lemma_sale_status_lines_show_their_fields(s: SaleStatus, t: SaleStatus)
    ensures
        ({
            let r = sale_status_report(s);
            let k: int = match s.project {
                None => 0,
                Some((_, None)) => 1,
                Some((_, Some(_))) => 2,
            };
            &&& r.len() == 11 + k
            &&& r[0] == "sale: "@ + address_text(s.sale@)
            &&& (s.project matches Some((id, _)) ==> r[1] == "project_id: "@ + decimal(id@))
            &&& (s.project matches Some((_, Some(b))) ==> r[2] == "project_approved: "@ + bool_text(b))
            &&& r[1 + k] == "collateral: "@ + address_text(s.collateral@) + " ("@ + s.symbol@ + ")"@
            &&& r[2 + k] == "start_time: "@ + decimal(s.start_time@)
            &&& r[3 + k] == "end_time: "@ + decimal(s.end_time@)
            &&& r[4 + k] == "is_active: "@ + bool_text(s.is_active)
            &&& r[5 + k] == "time_remaining_seconds: "@ + decimal(s.time_remaining@)
            &&& r[6 + k] == "total_committed: "@ + token_amount_text(s.total_committed@, s.decimals)
                + " ("@ + decimal(s.total_committed@) + ")"@
            &&& r[7 + k] == "accepted_amount: "@ + token_amount_text(s.accepted_amount@, s.decimals)
                + " ("@ + decimal(s.accepted_amount@) + ")"@
            &&& r[r.len() - 3] == "finalized: "@ + bool_text(s.finalized)
            &&& r[r.len() - 2] == "failed: "@ + bool_text(s.failed)
            &&& r[r.len() - 1] == "share_token: "@ + address_text(s.share_token@)
        }),
        s.project == t.project && s.finalized != t.finalized ==> sale_status_report(s)[sale_status_report(s).len() - 3]
            != sale_status_report(t)[sale_status_report(t).len() - 3],
        s.project == t.project && s.failed != t.failed ==> sale_status_report(s)[sale_status_report(s).len() - 2]
            != sale_status_report(t)[sale_status_report(t).len() - 2],
{
    lemma_bool_text_values(s.finalized);
    lemma_bool_text_values(t.finalized);
    lemma_bool_text_values(s.failed);
    lemma_bool_text_values(t.failed);
    let r = sale_status_report(s);
    let q = sale_status_report(t);
    if s.project == t.project && s.finalized != t.finalized {
        assert(r[r.len() - 3].len() != q[q.len() - 3].len());
    }
    if s.project == t.project && s.failed != t.failed {
        assert(r[r.len() - 2].len() != q[q.len() - 2].len());
    }
}

} // verus!
