use crate::address::{address_text, Address};
use crate::cli::{CreateArgs, SetGlobalArgs};
use crate::error::CliError;
use crate::formatters::{
    bps_text, duration_text, format_bps, format_duration_human, format_status, header, key,
    painted, status_name, warn,
};
use crate::text::{
    bool_str, bool_text, concat, concat3, decimal, lemma_bool_text_values, texts,
    u64_to_decimal,
};
use crate::uint::Uint256;
use crate::units::{
    format_token_amount, minutes_to_seconds_u256, parse_amount_units, parse_units_completes, parse_units_returns, stated_units_value, is_signed_amount, unsigned_units_value,
    parse_units_value, token_amount_text, lemma_token_amount_roundtrip, plain_decimal_value, lemma_decimal_injective,
};
use vstd::prelude::*;
use vstd::utf8::encode_utf8;

verus! {

/// A project as the factory's `getProject` returns it.
#[derive(Clone, Debug)]
pub struct ProjectView {
    pub agent_id: Uint256,
    pub name: String,
    pub description: String,
    pub categories: String,
    pub agent: Address,
    pub treasury: Address,
    pub sale: Address,
    pub agent_executor: Address,
    pub collateral: Address,
    pub operational_status: u8,
    pub status_note: String,
    pub created_at: Uint256,
    pub updated_at: Uint256,
}

/// The factory's global configuration: raise bounds in 18-decimal units, the
/// platform fee and its recipient, and sale duration and launch delay bounds
/// in seconds.
#[derive(Clone, Copy, Debug, PartialEq, Eq)]
pub struct GlobalConfig {
    pub min_raise: Uint256,
    pub max_raise: Uint256,
    pub platform_fee_bps: u16,
    pub platform_fee_recipient: Address,
    pub min_duration: Uint256,
    pub max_duration: Uint256,
    pub min_launch_delay: Uint256,
    pub max_launch_delay: Uint256,
}

/// A project's raise as `getProjectRaiseSnapshot` returns it.
#[derive(Clone, Copy, Debug, PartialEq, Eq)]
pub struct RaiseSnapshot {
    pub approved: bool,
    pub total_committed: Uint256,
    pub accepted_amount: Uint256,
    pub finalized: bool,
    pub failed: bool,
    pub active: bool,
    pub start_time: Uint256,
    pub end_time: Uint256,
    pub share_token: Address,
}

/// The arguments of the factory's `createAgentRaise`.
#[derive(Clone, Debug)]
pub struct CreateParams {
    pub agent_id: Uint256,
    pub name: String,
    pub description: String,
    pub categories: String,
    pub agent: Address,
    pub collateral: Address,
    pub duration: Uint256,
    /// The fund term after the raise ends, in seconds.
    pub lockup: Uint256,
    pub launch_time: Uint256,
    pub token_name: String,
    pub token_symbol: String,
}

/// `label` followed by the text of `value`.
pub open spec fn line(label: Seq<char>, value: Seq<char>) -> Seq<char> {
    label + value
}

/// The report of a project: one line per field, `categories` and
/// `status_note` only when they are not empty.
pub open spec fn project_report(id: u64, p: ProjectView, approved: bool) -> Seq<Seq<char>> {
    seq![
        "---"@,
        "project_id: "@ + decimal(id as nat),
        "name: "@ + p.name@,
        "description: "@ + p.description@,
    ] + (if p.categories@.len() > 0 {
        seq!["categories: "@ + p.categories@]
    } else {
        seq![]
    }) + seq![
        "agent_id: "@ + decimal(p.agent_id@),
        "agent: "@ + address_text(p.agent@),
        "treasury: "@ + address_text(p.treasury@),
        "sale: "@ + address_text(p.sale@),
        "agent_executor: "@ + address_text(p.agent_executor@),
        "collateral: "@ + address_text(p.collateral@),
        "operational_status: "@ + decimal(p.operational_status as nat) + " ("@ + status_name(
            p.operational_status,
        ) + ")"@,
    ] + (if p.status_note@.len() > 0 {
        seq!["status_note: "@ + p.status_note@]
    } else {
        seq![]
    }) + seq![
        "approved: "@ + bool_text(approved),
        "created_at: "@ + decimal(p.created_at@),
        "updated_at: "@ + decimal(p.updated_at@),
    ]
}

/// The lines that print a project.
pub fn project_lines(id: u64, p: &ProjectView, approved: bool) -> (lines: Vec<String>)
    ensures
        texts(lines@) == project_report(id, *p, approved),
{
    let mut lines: Vec<String> = Vec::new();
    lines.push("---".to_owned());
    let ids = u64_to_decimal(id);
    lines.push(concat("project_id: ", ids.as_str()));
    lines.push(concat("name: ", p.name.as_str()));
    lines.push(concat("description: ", p.description.as_str()));
    let ghost first = texts(lines@);
    if !p.categories.as_str().is_empty() {
        lines.push(concat("categories: ", p.categories.as_str()));
    }
    let ghost second = texts(lines@);
    let agent_id = p.agent_id.to_decimal_string();
    lines.push(concat("agent_id: ", agent_id.as_str()));
    let a = p.agent.to_text();
    lines.push(concat("agent: ", a.as_str()));
    let t = p.treasury.to_text();
    lines.push(concat("treasury: ", t.as_str()));
    let sa = p.sale.to_text();
    lines.push(concat("sale: ", sa.as_str()));
    let ex = p.agent_executor.to_text();
    lines.push(concat("agent_executor: ", ex.as_str()));
    let co = p.collateral.to_text();
    lines.push(concat("collateral: ", co.as_str()));
    let code = u64_to_decimal(p.operational_status as u64);
    let mut status = concat3("operational_status: ", code.as_str(), " (");
    status.append(format_status(p.operational_status));
    status.append(")");
    lines.push(status);
    if !p.status_note.as_str().is_empty() {
        lines.push(concat("status_note: ", p.status_note.as_str()));
    }
    lines.push(concat("approved: ", bool_str(approved)));
    let created = p.created_at.to_decimal_string();
    lines.push(concat("created_at: ", created.as_str()));
    let updated = p.updated_at.to_decimal_string();
    lines.push(concat("updated_at: ", updated.as_str()));
    assert(texts(lines@) =~= project_report(id, *p, approved));
    lines
}

/// An amount line of the global configuration: the label, the amount in
/// 18-decimal units and the raw number.
pub open spec fn raise_line(label: Seq<char>, v: nat, color: bool) -> Seq<char> {
    "  "@ + painted(label, "1;34"@, color) + " "@ + token_amount_text(v, 18) + " [raw "@
        + decimal(v) + "]"@
}

/// A line of the global configuration: the label and a value.
pub open spec fn config_line(label: Seq<char>, value: Seq<char>, color: bool) -> Seq<char> {
    "  "@ + painted(label, "1;34"@, color) + " "@ + value
}

/// The report of the global configuration.
pub open spec fn global_config_report(c: GlobalConfig, color: bool) -> Seq<Seq<char>> {
    seq![
        painted("Global config"@, "1;36"@, color),
        raise_line("Min raise (18 decimals):"@, c.min_raise@, color),
        raise_line("Max raise (18 decimals):"@, c.max_raise@, color),
        config_line("Platform fee:"@, bps_text(c.platform_fee_bps as nat), color),
        config_line("Fee recipient:"@, address_text(c.platform_fee_recipient@), color),
        config_line("Minimum sale duration:"@, duration_text(c.min_duration@), color),
        config_line("Maximum sale duration:"@, duration_text(c.max_duration@), color),
        config_line("Minimum launch delay:"@, duration_text(c.min_launch_delay@), color),
        config_line("Maximum launch delay:"@, duration_text(c.max_launch_delay@), color),
    ]
}

fn config_line_exec(label: &str, value: &str, color: bool) -> (s: String)
    ensures
        s@ == config_line(label@, value@, color),
{
    let k = key(label, color);
    let mut s = concat3("  ", k.as_str(), " ");
    s.append(value);
    s
}

fn raise_line_exec(label: &str, v: &Uint256, color: bool) -> (s: String)
    ensures
        s@ == raise_line(label@, v@, color),
{
    let amount = format_token_amount(v, 18);
    let mut s = config_line_exec(label, amount.as_str(), color);
    s.append(" [raw ");
    let raw = v.to_decimal_string();
    s.append(raw.as_str());
    s.append("]");
    s
}

/// The lines that print the global configuration.
pub fn global_config_lines(c: &GlobalConfig, color: bool) -> (lines: Vec<String>)
    ensures
        texts(lines@) == global_config_report(*c, color),
{
    let mut lines: Vec<String> = Vec::new();
    lines.push(header("Global config", color));
    lines.push(raise_line_exec("Min raise (18 decimals):", &c.min_raise, color));
    lines.push(raise_line_exec("Max raise (18 decimals):", &c.max_raise, color));
    let fee = format_bps(c.platform_fee_bps);
    lines.push(config_line_exec("Platform fee:", fee.as_str(), color));
    let to = c.platform_fee_recipient.to_text();
    lines.push(config_line_exec("Fee recipient:", to.as_str(), color));
    let d1 = format_duration_human(&c.min_duration);
    lines.push(config_line_exec("Minimum sale duration:", d1.as_str(), color));
    let d2 = format_duration_human(&c.max_duration);
    lines.push(config_line_exec("Maximum sale duration:", d2.as_str(), color));
    let d3 = format_duration_human(&c.min_launch_delay);
    lines.push(config_line_exec("Minimum launch delay:", d3.as_str(), color));
    let d4 = format_duration_human(&c.max_launch_delay);
    lines.push(config_line_exec("Maximum launch delay:", d4.as_str(), color));
    assert(texts(lines@) =~= global_config_report(*c, color));
    lines
}

/// The opening lines of `factory info`: the factory and its project count.
pub open spec fn factory_summary_report(factory: Address, count: nat, color: bool) -> Seq<Seq<char>> {
    seq![
        painted("Factory:"@, "1;36"@, color) + " "@ + address_text(factory@),
        painted("Total projects:"@, "1;34"@, color) + " "@ + decimal(count),
    ]
}

/// The lines that open `factory info`.
pub fn factory_summary_lines(factory: &Address, count: &Uint256, color: bool) -> (lines: Vec<
    String,
>)
    ensures
        texts(lines@) == factory_summary_report(*factory, count@, color),
{
    let mut lines: Vec<String> = Vec::new();
    let h = header("Factory:", color);
    let f = factory.to_text();
    lines.push(concat3(h.as_str(), " ", f.as_str()));
    let k = key("Total projects:", color);
    let n = count.to_decimal_string();
    lines.push(concat3(k.as_str(), " ", n.as_str()));
    assert(texts(lines@) =~= factory_summary_report(*factory, count@, color));
    lines
}

/// The report of the deployment's default collateral when the factory
/// accepts it: its symbol and the raise bounds in its own units.
pub open spec fn default_collateral_report(
    collateral: Address,
    symbol: Seq<char>,
    decimals: u8,
    min_raise: nat,
    max_raise: nat,
    color: bool,
) -> Seq<Seq<char>> {
    seq![
        painted("Default collateral (from deployment):"@, "1;34"@, color) + " "@ + address_text(
            collateral@,
        ) + " ("@ + symbol + ")"@,
        "  "@ + painted("Min raise in "@ + symbol + ":"@, "1;34"@, color) + " "@
            + token_amount_text(min_raise, decimals) + " [raw "@ + decimal(min_raise) + "]"@,
        "  "@ + painted("Max raise in "@ + symbol + ":"@, "1;34"@, color) + " "@
            + token_amount_text(max_raise, decimals) + " [raw "@ + decimal(max_raise) + "]"@,
    ]
}

fn bound_line(word: &str, symbol: &str, v: &Uint256, decimals: u8, color: bool) -> (s: String)
    ensures
        s@ == "  "@ + painted(word@ + symbol@ + ":"@, "1;34"@, color) + " "@ + token_amount_text(
            v@,
            decimals,
        ) + " [raw "@ + decimal(v@) + "]"@,
{
    let label = concat3(word, symbol, ":");
    let k = key(label.as_str(), color);
    let mut s = concat3("  ", k.as_str(), " ");
    let amount = format_token_amount(v, decimals);
    s.append(amount.as_str());
    s.append(" [raw ");
    let raw = v.to_decimal_string();
    s.append(raw.as_str());
    s.append("]");
    s
}

/// The lines that report the default collateral when the factory accepts it.
pub fn default_collateral_lines(
    collateral: &Address,
    symbol: &str,
    decimals: u8,
    min_raise: &Uint256,
    max_raise: &Uint256,
    color: bool,
) -> (lines: Vec<String>)
    ensures
        texts(lines@) == default_collateral_report(
            *collateral,
            symbol@,
            decimals,
            min_raise@,
            max_raise@,
            color,
        ),
{
    let mut lines: Vec<String> = Vec::new();
    let k = key("Default collateral (from deployment):", color);
    let c = collateral.to_text();
    let mut first = concat3(k.as_str(), " ", c.as_str());
    first.append(" (");
    first.append(symbol);
    first.append(")");
    lines.push(first);
    lines.push(bound_line("Min raise in ", symbol, min_raise, decimals, color));
    lines.push(bound_line("Max raise in ", symbol, max_raise, decimals, color));
    assert(texts(lines@) =~= default_collateral_report(
        *collateral,
        symbol@,
        decimals,
        min_raise@,
        max_raise@,
        color,
    ));
    lines
}

/// The warning of `factory info` when the factory does not accept the
/// deployment's default collateral, with the command that enables it.
pub open spec fn collateral_disabled_report(collateral: Address, color: bool) -> Seq<Seq<char>> {
    seq![
        painted("Warning:"@, "1;33"@, color) + " default collateral "@ + address_text(collateral@)
            + " is NOT enabled in the factory."@,
        "  Enable it with: backed --private-key <ADMIN_PK> factory set-collateral "@
            + address_text(collateral@) + " true"@,
    ]
}

/// The lines of the warning about a default collateral that is not enabled.
pub fn collateral_disabled_lines(collateral: &Address, color: bool) -> (lines: Vec<String>)
    ensures
        texts(lines@) == collateral_disabled_report(*collateral, color),
{
    let mut lines: Vec<String> = Vec::new();
    let w = warn("Warning:", color);
    let c = collateral.to_text();
    let mut first = concat3(w.as_str(), " default collateral ", c.as_str());
    first.append(" is NOT enabled in the factory.");
    lines.push(first);
    lines.push(
        concat3(
            "  Enable it with: backed --private-key <ADMIN_PK> factory set-collateral ",
            c.as_str(),
            " true",
        ),
    );
    assert(texts(lines@) =~= collateral_disabled_report(*collateral, color));
    lines
}

/// The warning of `factory info` when the factory has no collateral
/// management at all.
pub open spec fn legacy_factory_report(factory: Address, color: bool) -> Seq<Seq<char>> {
    seq![
        painted("Warning:"@, "1;33"@, color)
            + " this factory does not expose allowedCollateral/setAllowedCollateral (legacy ABI)."@,
        "  Current factory: "@ + address_text(factory@),
        "  Action: deploy/update to latest AgentRaiseFactory and set --factory to the new address."@,
    ]
}

/// The lines of the warning about a factory without collateral management.
pub fn legacy_factory_lines(factory: &Address, color: bool) -> (lines: Vec<String>)
    ensures
        texts(lines@) == legacy_factory_report(*factory, color),
{
    let mut lines: Vec<String> = Vec::new();
    let w = warn("Warning:", color);
    lines.push(
        concat(
            w.as_str(),
            " this factory does not expose allowedCollateral/setAllowedCollateral (legacy ABI).",
        ),
    );
    let f = factory.to_text();
    lines.push(concat("  Current factory: ", f.as_str()));
    lines.push(
        "  Action: deploy/update to latest AgentRaiseFactory and set --factory to the new address.".to_owned(),
    );
    assert(texts(lines@) =~= legacy_factory_report(*factory, color));
    lines
}

/// The report of `factory collateral`: the collateral and whether the
/// factory accepts it.
pub open spec fn collateral_report(collateral: Address, allowed: bool) -> Seq<Seq<char>> {
    seq!["collateral: "@ + address_text(collateral@), "allowed: "@ + bool_text(allowed)]
}

/// The lines that open `factory collateral`.
pub fn collateral_lines(collateral: &Address, allowed: bool) -> (lines: Vec<String>)
    ensures
        texts(lines@) == collateral_report(*collateral, allowed),
{
    let mut lines: Vec<String> = Vec::new();
    let c = collateral.to_text();
    lines.push(concat("collateral: ", c.as_str()));
    lines.push(concat("allowed: ", bool_str(allowed)));
    assert(texts(lines@) =~= collateral_report(*collateral, allowed));
    lines
}

/// The rest of `factory collateral` for an accepted collateral: its symbol
/// and raise bounds in its units, with the raw numbers.
pub open spec fn collateral_detail_report(symbol: Seq<char>, decimals: u8, min_raise: nat, max_raise: nat) -> Seq<Seq<char>> {
    seq![
        "symbol: "@ + symbol,
        "min_raise: "@ + token_amount_text(min_raise, decimals) + " ("@ + decimal(min_raise) + ")"@,
        "max_raise: "@ + token_amount_text(max_raise, decimals) + " ("@ + decimal(max_raise) + ")"@,
    ]
}

/// `label`, an amount in the token's units, and the raw number in brackets.
pub open spec fn amount_line(label: Seq<char>, v: nat, decimals: u8) -> Seq<char> {
    label + token_amount_text(v, decimals) + " ("@ + decimal(v) + ")"@
}

/// An amount line: the label, the amount in the token's units and the raw number.
pub fn amount_line_exec(label: &str, v: &Uint256, decimals: u8) -> (s: String)
    ensures
        s@ == amount_line(label@, v@, decimals),
{
    let amount = format_token_amount(v, decimals);
    let mut s = concat(label, amount.as_str());
    s.append(" (");
    let raw = v.to_decimal_string();
    s.append(raw.as_str());
    s.append(")");
    s
}

/// The detail lines of an accepted collateral.
pub fn collateral_detail_lines(symbol: &str, decimals: u8, min_raise: &Uint256, max_raise: &Uint256) -> (lines: Vec<String>)
    ensures
        texts(lines@) == collateral_detail_report(symbol@, decimals, min_raise@, max_raise@),
{
    let mut lines: Vec<String> = Vec::new();
    lines.push(concat("symbol: ", symbol));
    lines.push(amount_line_exec("min_raise: ", min_raise, decimals));
    lines.push(amount_line_exec("max_raise: ", max_raise, decimals));
    assert(texts(lines@) =~= collateral_detail_report(symbol@, decimals, min_raise@, max_raise@));
    lines
}

/// The window of project ids that `factory list` shows: from `from` (or the
/// end), at most `limit` ids, never past the project count.
pub fn project_range(from: u64, limit: u64, total: &Uint256) -> (r: (u64, u64))
    requires
        total@ <= u64::MAX,
    ensures
        r.0 == (if from <= total@ {
            from as nat
        } else {
            total@
        }),
        r.1 == (if r.0 + limit <= total@ {
            (r.0 + limit) as nat
        } else {
            total@
        }),
        r.0 <= r.1 <= total@,
        r.1 - r.0 <= limit,
{
    let count = total.as_u64();
    let start = if from < count {
        from
    } else {
        count
    };
    let end = if limit <= count - start {
        start + limit
    } else {
        count
    };
    (start, end)
}

/// The report of `factory snapshot`.
pub open spec fn snapshot_report(project_id: u64, s: RaiseSnapshot) -> Seq<Seq<char>> {
    seq![
        "project_id: "@ + decimal(project_id as nat),
        "approved: "@ + bool_text(s.approved),
        "total_committed: "@ + decimal(s.total_committed@),
        "accepted_amount: "@ + decimal(s.accepted_amount@),
        "finalized: "@ + bool_text(s.finalized),
        "failed: "@ + bool_text(s.failed),
        "active: "@ + bool_text(s.active),
        "start_time: "@ + decimal(s.start_time@),
        "end_time: "@ + decimal(s.end_time@),
        "share_token: "@ + address_text(s.share_token@),
    ]
}

/// The lines of `factory snapshot`.
pub fn snapshot_lines(project_id: u64, s: &RaiseSnapshot) -> (lines: Vec<String>)
    ensures
        texts(lines@) == snapshot_report(project_id, *s),
{
    let mut lines: Vec<String> = Vec::new();
    let id = u64_to_decimal(project_id);
    lines.push(concat("project_id: ", id.as_str()));
    lines.push(concat("approved: ", bool_str(s.approved)));
    let tc = s.total_committed.to_decimal_string();
    lines.push(concat("total_committed: ", tc.as_str()));
    let aa = s.accepted_amount.to_decimal_string();
    lines.push(concat("accepted_amount: ", aa.as_str()));
    lines.push(concat("finalized: ", bool_str(s.finalized)));
    lines.push(concat("failed: ", bool_str(s.failed)));
    lines.push(concat("active: ", bool_str(s.active)));
    let st = s.start_time.to_decimal_string();
    lines.push(concat("start_time: ", st.as_str()));
    let et = s.end_time.to_decimal_string();
    lines.push(concat("end_time: ", et.as_str()));
    let tok = s.share_token.to_text();
    lines.push(concat("share_token: ", tok.as_str()));
    assert(texts(lines@) =~= snapshot_report(project_id, *s));
    lines
}

/// The report of `factory commitment`.
pub open spec fn commitment_report(project_id: u64, user: Address, committed: nat) -> Seq<Seq<char>> {
    seq![
        "project_id: "@ + decimal(project_id as nat),
        "user: "@ + address_text(user@),
        "committed: "@ + decimal(committed),
    ]
}

/// The lines of `factory commitment`.
pub fn commitment_lines(project_id: u64, user: &Address, committed: &Uint256) -> (lines: Vec<String>)
    ensures
        texts(lines@) == commitment_report(project_id, *user, committed@),
{
    let mut lines: Vec<String> = Vec::new();
    let id = u64_to_decimal(project_id);
    lines.push(concat("project_id: ", id.as_str()));
    let u = user.to_text();
    lines.push(concat("user: ", u.as_str()));
    let c = committed.to_decimal_string();
    lines.push(concat("committed: ", c.as_str()));
    assert(texts(lines@) =~= commitment_report(project_id, *user, committed@));
    lines
}

/// Numbers as a `Vec` of them prints with `{:?}`: in brackets, separated by
/// `, `.
pub open spec fn number_list_text(ids: Seq<nat>) -> Seq<char> {
    "["@ + number_list_items(ids) + "]"@
}

/// Numbers separated by `, `.
pub open spec fn number_list_items(ids: Seq<nat>) -> Seq<char>
    decreases ids.len(),
{
    if ids.len() == 0 {
        seq![]
    } else if ids.len() == 1 {
        decimal(ids[0])
    } else {
        number_list_items(ids.drop_last()) + ", "@ + decimal(ids.last())
    }
}

/// The values of a list of numbers.
pub open spec fn values(ids: Seq<Uint256>) -> Seq<nat> {
    ids.map_values(|v: Uint256| v@)
}

/// The report of `factory agent-projects`.
pub open spec fn agent_projects_report(agent_id: u64, ids: Seq<nat>) -> Seq<Seq<char>> {
    seq!["agent_id: "@ + decimal(agent_id as nat), "project_ids: "@ + number_list_text(ids)]
}

/// The lines of `factory agent-projects`.
pub fn agent_projects_lines(agent_id: u64, ids: &Vec<Uint256>) -> (lines: Vec<String>)
    ensures
        texts(lines@) == agent_projects_report(agent_id, values(ids@)),
{
    let ghost vs = values(ids@);
    let mut items = String::new();
    let mut i: usize = 0;
    while i < ids.len()
        invariant
            i <= ids@.len(),
            vs == values(ids@),
            items@ == number_list_items(vs.take(i as int)),
        decreases ids@.len() - i,
    {
        assert(vs.take(i + 1).drop_last() =~= vs.take(i as int));
        if i != 0 {
            items.append(", ");
        } else {
            assert(items@ =~= seq![]);
        }
        let d = ids[i].to_decimal_string();
        items.append(d.as_str());
        proof {
            if i == 0 {
                assert(items@ =~= decimal(vs.take(1)[0]));
            }
        }
        i = i + 1;
    }
    assert(vs.take(ids@.len() as int) =~= vs);
    let mut lines: Vec<String> = Vec::new();
    let a = u64_to_decimal(agent_id);
    lines.push(concat("agent_id: ", a.as_str()));
    let mut l = concat("project_ids: ", "[");
    l.append(items.as_str());
    l.append("]");
    assert(l@ =~= "project_ids: "@ + number_list_text(vs));
    lines.push(l);
    assert(texts(lines@) =~= agent_projects_report(agent_id, vs));
    lines
}

/// Builds the arguments of `createAgentRaise` from `factory create`, in the
/// order the command checks them: the collateral (the argument, else the
/// deployment's default), the agent (the argument, else the sender), the
/// duration, the fund-term lockup and the launch delay in seconds, the clock
/// (`now` is `None` when it reads before the Unix epoch), and the launch time
/// `now + delay`.
pub fn create_params(args: &CreateArgs, default_collateral: Option<Address>, sender: Address, now: Option<u64>) -> (r: Result<CreateParams, CliError>)
    ensures
        args.collateral is None && default_collateral is None ==> (r matches Err(e) && e is CollateralNotSet),
        (args.collateral is Some || default_collateral is Some) && args.duration_minutes * 60 > u64::MAX ==> (r matches Err(e) && e.is_overflow_on("duration_minutes"@)),
        (args.collateral is Some || default_collateral is Some) && args.duration_minutes * 60 <= u64::MAX && args.lockup_minutes * 60 > u64::MAX ==> (r matches Err(e) && e.is_overflow_on("lockup_minutes"@)),
        (args.collateral is Some || default_collateral is Some) && args.duration_minutes * 60 <= u64::MAX && args.lockup_minutes * 60 <= u64::MAX && args.launch_in_minutes * 60 > u64::MAX ==> (r matches Err(e) && e.is_overflow_on("launch_in_minutes"@)),
        (args.collateral is Some || default_collateral is Some) && args.duration_minutes * 60 <= u64::MAX && args.lockup_minutes * 60 <= u64::MAX && args.launch_in_minutes * 60 <= u64::MAX && now is None ==> (r matches Err(e) && e is ClockBeforeEpoch),
        (args.collateral is Some || default_collateral is Some) && args.duration_minutes * 60 <= u64::MAX && args.lockup_minutes * 60 <= u64::MAX && args.launch_in_minutes * 60 <= u64::MAX && now is Some && now->0 + args.launch_in_minutes * 60 > u64::MAX ==> (r matches Err(e) && e.is_overflow_on("launch timestamp"@)),
        r matches Ok(p) ==> {
            &&& p.agent_id@ == args.agent_id
            &&& p.name@ == args.name@
            &&& p.description@ == args.description@
            &&& p.categories@ == args.categories@
            &&& p.agent == (match args.agent_address {
                Some(a) => a,
                None => sender,
            })
            &&& p.collateral == (match args.collateral {
                Some(c) => c,
                None => default_collateral->0,
            })
            &&& p.duration@ == args.duration_minutes * 60
            &&& p.lockup@ == args.lockup_minutes * 60
            &&& now is Some
            &&& p.launch_time@ == now->0 + args.launch_in_minutes * 60
            &&& p.token_name@ == args.token_name@
            &&& p.token_symbol@ == args.token_symbol@
        },
        r is Ok <==> ((args.collateral is Some || default_collateral is Some) && args.duration_minutes * 60 <= u64::MAX && args.lockup_minutes * 60 <= u64::MAX && args.launch_in_minutes * 60 <= u64::MAX && now is Some && now->0 + args.launch_in_minutes * 60 <= u64::MAX),
{
    let collateral = match args.collateral {
        Some(c) => c,
        None => match default_collateral {
            Some(c) => c,
            None => return Err(CliError::CollateralNotSet),
        },
    };
    let agent = match args.agent_address {
        Some(a) => a,
        None => sender,
    };
    let duration = match minutes_to_seconds_u256(args.duration_minutes, "duration_minutes") {
        Ok(d) => d,
        Err(e) => return Err(e),
    };
    let lockup = match minutes_to_seconds_u256(args.lockup_minutes, "lockup_minutes") {
        Ok(d) => d,
        Err(e) => return Err(e),
    };
    let delay = match args.launch_in_minutes.checked_mul(60) {
        Some(d) => d,
        None => return Err(CliError::Overflow { label: "launch_in_minutes".to_owned() }),
    };
    let t = match now {
        Some(t) => t,
        None => return Err(CliError::ClockBeforeEpoch),
    };
    let launch = match t.checked_add(delay) {
        Some(l) => l,
        None => return Err(CliError::Overflow { label: "launch timestamp".to_owned() }),
    };
    Ok(
        CreateParams {
            agent_id: Uint256::from_u64(args.agent_id),
            name: args.name.clone(),
            description: args.description.clone(),
            categories: args.categories.clone(),
            agent,
            collateral,
            duration,
            lockup,
            launch_time: Uint256::from_u64(launch),
            token_name: args.token_name.clone(),
            token_symbol: args.token_symbol.clone(),
        },
    )
}

/// What `factory set-global` makes of its arguments, checked in order: the
/// raise bounds scaled to 18 decimals (the minimum first), then the four
/// minute counts turned into seconds; the first that fails is the error.
pub open spec fn global_config_outcome(args: SetGlobalArgs, r: Result<GlobalConfig, CliError>) -> bool {
    &&& stated_units_value(args.min_raise@, 18) matches Some(v) ==> parse_units_value(args.min_raise@, 18) == Some(v)
    &&& !is_signed_amount(args.min_raise@) ==> parse_units_value(args.min_raise@, 18) == unsigned_units_value(args.min_raise@, 18)
    &&& parse_units_value(args.min_raise@, 18) is Some && !is_signed_amount(args.max_raise@) ==> parse_units_value(args.max_raise@, 18) == unsigned_units_value(args.max_raise@, 18)
    &&& stated_units_value(args.min_raise@, 18) is Some ==> (stated_units_value(args.max_raise@, 18) matches Some(v) ==> parse_units_value(args.max_raise@, 18) == Some(v))
    &&& parse_units_value(args.min_raise@, 18) is None ==> (r matches Err(e) && e.is_invalid_amount(args.min_raise@, 18))
    &&& parse_units_value(args.min_raise@, 18) is Some && parse_units_value(args.max_raise@, 18) is None ==> (r matches Err(e) && e.is_invalid_amount(args.max_raise@, 18))
    &&& r is Ok <==> (parse_units_value(args.min_raise@, 18) is Some && parse_units_value(args.max_raise@, 18) is Some
        && args.min_duration_minutes * 60 <= u64::MAX && args.max_duration_minutes * 60 <= u64::MAX
        && args.min_launch_delay_minutes * 60 <= u64::MAX && args.max_launch_delay_minutes * 60 <= u64::MAX)
    &&& parse_units_value(args.min_raise@, 18) is Some && parse_units_value(args.max_raise@, 18) is Some ==> match r {
        Err(e) => if args.min_duration_minutes * 60 > u64::MAX {
            e.is_overflow_on("min_duration_minutes"@)
        } else if args.max_duration_minutes * 60 > u64::MAX {
            e.is_overflow_on("max_duration_minutes"@)
        } else if args.min_launch_delay_minutes * 60 > u64::MAX {
            e.is_overflow_on("min_launch_delay_minutes"@)
        } else {
            e.is_overflow_on("max_launch_delay_minutes"@)
        },
        Ok(_) => true,
    }
    &&& r matches Ok(c) ==> {
        &&& parse_units_value(args.min_raise@, 18) == Some(c.min_raise@)
        &&& parse_units_value(args.max_raise@, 18) == Some(c.max_raise@)
        &&& c.platform_fee_bps == args.platform_fee_bps
        &&& c.platform_fee_recipient == args.platform_fee_recipient
        &&& c.min_duration@ == args.min_duration_minutes * 60
        &&& c.max_duration@ == args.max_duration_minutes * 60
        &&& c.min_launch_delay@ == args.min_launch_delay_minutes * 60
        &&& c.max_launch_delay@ == args.max_launch_delay_minutes * 60
    }
}

/// The inputs of `factory set-global` on which reading the raise bounds
/// returns: the minimum always, the maximum once the minimum was accepted.
pub open spec fn global_config_returns(args: SetGlobalArgs) -> bool {
    &&& parse_units_returns(encode_utf8(args.min_raise@), 18)
    &&& parse_units_value(args.min_raise@, 18) is Some ==> parse_units_returns(encode_utf8(args.max_raise@), 18)
}

/// Builds the global configuration of `factory set-global` (see
/// `global_config_outcome`).
pub fn global_config_params(args: &SetGlobalArgs) -> (r: Result<GlobalConfig, CliError>)
    requires
        global_config_returns(*args),
    ensures
        global_config_outcome(*args, r),
{
    let min_raise = match parse_amount_units(args.min_raise.as_str(), 18) {
        Ok(v) => v,
        Err(e) => return Err(e),
    };
    let max_raise = match parse_amount_units(args.max_raise.as_str(), 18) {
        Ok(v) => v,
        Err(e) => return Err(e),
    };
    let min_duration = match minutes_to_seconds_u256(args.min_duration_minutes, "min_duration_minutes") {
        Ok(v) => v,
        Err(e) => return Err(e),
    };
    let max_duration = match minutes_to_seconds_u256(args.max_duration_minutes, "max_duration_minutes") {
        Ok(v) => v,
        Err(e) => return Err(e),
    };
    let min_launch_delay = match minutes_to_seconds_u256(args.min_launch_delay_minutes, "min_launch_delay_minutes") {
        Ok(v) => v,
        Err(e) => return Err(e),
    };
    let max_launch_delay = match minutes_to_seconds_u256(args.max_launch_delay_minutes, "max_launch_delay_minutes") {
        Ok(v) => v,
        Err(e) => return Err(e),
    };
    Ok(
        GlobalConfig {
            min_raise,
            max_raise,
            platform_fee_bps: args.platform_fee_bps,
            platform_fee_recipient: args.platform_fee_recipient,
            min_duration,
            max_duration,
            min_launch_delay,
            max_launch_delay,
        },
    )
}

/// Builds the global configuration of `factory set-global` where reading
/// the raise bounds returns, and gives `None` on the inputs on which
/// `parse_units` panics.
pub fn global_config_params_checked(args: &SetGlobalArgs) -> (r: Option<Result<GlobalConfig, CliError>>)
    ensures
        r is None <==> !global_config_returns(*args),
        r matches Some(x) ==> global_config_outcome(*args, x),
{
    if !parse_units_completes(args.min_raise.as_str(), 18) {
        return None;
    }
    let min_accepted = parse_amount_units(args.min_raise.as_str(), 18).is_ok();
    if min_accepted && !parse_units_completes(args.max_raise.as_str(), 18) {
        return None;
    }
    Some(global_config_params(args))
}

/// The part of `factory info` about the deployment's default collateral,
/// from the factory's answer to `allowedCollateral` (`None` when the call
/// fails) and, for an accepted collateral, its symbol, decimals and raise
/// bounds (`None` when the token's metadata cannot be read): the details,
/// the warning that it is not enabled, or the warning about a factory
/// without collateral management.
pub fn default_collateral_section(
    factory: &Address,
    collateral: &Address,
    answer: Option<bool>,
    details: Option<(String, u8, Uint256, Uint256)>,
    color: bool,
) -> (lines: Vec<String>)
    ensures
        texts(lines@) == match answer {
            None => legacy_factory_report(*factory, color),
            Some(false) => collateral_disabled_report(*collateral, color),
            Some(true) => match details {
                Some((symbol, decimals, min_raise, max_raise)) => default_collateral_report(
                    *collateral,
                    symbol@,
                    decimals,
                    min_raise@,
                    max_raise@,
                    color,
                ),
                None => Seq::<Seq<char>>::empty(),
            },
        },
{
    match answer {
        None => legacy_factory_lines(factory, color),
        Some(false) => collateral_disabled_lines(collateral, color),
        Some(true) => match details {
            Some((symbol, decimals, min_raise, max_raise)) => default_collateral_lines(
                collateral,
                symbol.as_str(),
                decimals,
                &min_raise,
                &max_raise,
                color,
            ),
            None => {
                let lines: Vec<String> = Vec::new();
                assert(texts(lines@) =~= Seq::<Seq<char>>::empty());
                lines
            },
        },
    }
}

/// `factory set-collateral` needs a factory that answers `allowedCollateral`:
/// `answered` says whether the probe call succeeded.
pub fn set_collateral_check(factory: &Address, answered: bool) -> (r: Result<(), CliError>)
    ensures
        r is Ok <==> answered,
        r matches Err(e) ==> e == (CliError::SetCollateralUnsupported { factory: *factory }),
{
    if answered {
        Ok(())
    } else {
        Err(CliError::SetCollateralUnsupported { factory: *factory })
    }
}

/// Whether `factory collateral` goes on: the factory's answer to
/// `allowedCollateral`, or an error when the call fails (`None`).
pub fn collateral_query(factory: &Address, answer: Option<bool>) -> (r: Result<bool, CliError>)
    ensures
        match answer {
            Some(b) => r == Ok::<bool, CliError>(b),
            None => r matches Err(e) && e == (CliError::CollateralQueryUnsupported { factory: *factory }),
        },
{
    match answer {
        Some(b) => Ok(b),
        None => Err(CliError::CollateralQueryUnsupported { factory: *factory }),
    }
}

/// The opening lines of `factory list`: the project count and the window of
/// ids shown.
pub open spec fn list_header_report(total: nat, start: u64, end: u64) -> Seq<Seq<char>> {
    seq![
        "projects_total: "@ + decimal(total),
        "range: "@ + decimal(start as nat) + ".."@ + decimal(end as nat),
    ]
}

/// The lines that open `factory list`.
pub fn list_header_lines(total: &Uint256, start: u64, end: u64) -> (lines: Vec<String>)
    ensures
        texts(lines@) == list_header_report(total@, start, end),
{
    let mut lines: Vec<String> = Vec::new();
    let t = total.to_decimal_string();
    lines.push(concat("projects_total: ", t.as_str()));
    let a = u64_to_decimal(start);
    let b = u64_to_decimal(end);
    let mut l = concat3("range: ", a.as_str(), "..");
    l.append(b.as_str());
    lines.push(l);
    assert(texts(lines@) =~= list_header_report(total@, start, end));
    lines
}

/// Each line of `factory snapshot` shows the snapshot field it is labelled
/// with: the project id, then approved, total committed, accepted amount,
/// finalized, failed, active, start time, end time and share token, in that
/// order, and a change of one flag changes its own line and no other flag's.
pub proof fn lemma_snapshot_lines_show_their_fields(id: u64, s: RaiseSnapshot, t: RaiseSnapshot)
    ensures
        snapshot_report(id, s).len() == 10,
        snapshot_report(id, s)[0] == "project_id: "@ + decimal(id as nat),
        snapshot_report(id, s)[1] == "approved: "@ + bool_text(s.approved),
        snapshot_report(id, s)[2] == "total_committed: "@ + decimal(s.total_committed@),
        snapshot_report(id, s)[3] == "accepted_amount: "@ + decimal(s.accepted_amount@),
        snapshot_report(id, s)[4] == "finalized: "@ + bool_text(s.finalized),
        snapshot_report(id, s)[5] == "failed: "@ + bool_text(s.failed),
        snapshot_report(id, s)[6] == "active: "@ + bool_text(s.active),
        snapshot_report(id, s)[7] == "start_time: "@ + decimal(s.start_time@),
        snapshot_report(id, s)[8] == "end_time: "@ + decimal(s.end_time@),
        snapshot_report(id, s)[9] == "share_token: "@ + address_text(s.share_token@),
        s.approved != t.approved ==> snapshot_report(id, s)[1] != snapshot_report(id, t)[1],
        s.active != t.active ==> snapshot_report(id, s)[6] != snapshot_report(id, t)[6],
        s.finalized != t.finalized ==> snapshot_report(id, s)[4] != snapshot_report(id, t)[4],
        s.failed != t.failed ==> snapshot_report(id, s)[5] != snapshot_report(id, t)[5],
        s.active == t.active ==> snapshot_report(id, s)[6] == snapshot_report(id, t)[6],
        s.approved == t.approved ==> snapshot_report(id, s)[1] == snapshot_report(id, t)[1],
{
    lemma_bool_text_values(s.approved);
    lemma_bool_text_values(t.approved);
    lemma_bool_text_values(s.finalized);
    lemma_bool_text_values(t.finalized);
    lemma_bool_text_values(s.failed);
    lemma_bool_text_values(t.failed);
    lemma_bool_text_values(s.active);
    lemma_bool_text_values(t.active);
    let a = "approved: "@;
    let f = "finalized: "@;
    let x = "failed: "@;
    let c = "active: "@;
    if s.approved != t.approved {
        assert((a + bool_text(s.approved)).len() != (a + bool_text(t.approved)).len());
    }
    if s.finalized != t.finalized {
        assert((f + bool_text(s.finalized)).len() != (f + bool_text(t.finalized)).len());
    }
    if s.failed != t.failed {
        assert((x + bool_text(s.failed)).len() != (x + bool_text(t.failed)).len());
    }
    if s.active != t.active {
        assert((c + bool_text(s.active)).len() != (c + bool_text(t.active)).len());
    }
}

/// The lines that open `factory list` show the project count and then the
/// window `start..end` that is listed, ending at the window's end: with the
/// window that `project_range` gives, the range never passes the count and
/// spans at most `limit` ids.
pub proof fn lemma_list_header_shows_window(total: nat, start: u64, end: u64)
    ensures
        list_header_report(total, start, end).len() == 2,
        list_header_report(total, start, end)[0] == "projects_total: "@ + decimal(total),
        list_header_report(total, start, end)[1] == "range: "@ + decimal(start as nat) + ".."@
            + decimal(end as nat),
        forall|e2: u64| e2 != end ==> list_header_report(total, start, end)[1] != #[trigger] list_header_report(total, start, e2)[1],
{
    assert forall|e2: u64| e2 != end implies list_header_report(total, start, end)[1] != #[trigger] list_header_report(total, start, e2)[1] by {
        let p = "range: "@ + decimal(start as nat) + ".."@;
        lemma_decimal_injective(end as nat, e2 as nat);
        if p + decimal(end as nat) == p + decimal(e2 as nat) {
            assert((p + decimal(end as nat)).skip(p.len() as int) =~= decimal(end as nat));
            assert((p + decimal(e2 as nat)).skip(p.len() as int) =~= decimal(e2 as nat));
        }
    }
}

/// The bounds of `factory collateral` are written in the token's own units:
/// each amount line holds the bound in whole units at the token's decimals,
/// which reads back as the bound at those decimals, and the raw number.
pub proof fn lemma_collateral_detail_in_token_units(symbol: Seq<char>, decimals: u8, min_raise: Uint256, max_raise: Uint256)
    ensures
        collateral_detail_report(symbol, decimals, min_raise@, max_raise@).len() == 3,
        collateral_detail_report(symbol, decimals, min_raise@, max_raise@)[0] == "symbol: "@ + symbol,
        collateral_detail_report(symbol, decimals, min_raise@, max_raise@)[1] == "min_raise: "@
            + token_amount_text(min_raise@, decimals) + " ("@ + decimal(min_raise@) + ")"@,
        collateral_detail_report(symbol, decimals, min_raise@, max_raise@)[2] == "max_raise: "@
            + token_amount_text(max_raise@, decimals) + " ("@ + decimal(max_raise@) + ")"@,
        decimals < 78 ==> plain_decimal_value(encode_utf8(token_amount_text(min_raise@, decimals)), decimals as nat) == Some(min_raise@),
        decimals < 78 ==> plain_decimal_value(encode_utf8(token_amount_text(max_raise@, decimals)), decimals as nat) == Some(max_raise@),
{
    if decimals < 78 {
        lemma_token_amount_roundtrip(min_raise, decimals);
        lemma_token_amount_roundtrip(max_raise, decimals);
    }
}

} // verus!
