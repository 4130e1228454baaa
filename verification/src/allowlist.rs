use crate::address::{address_text, Address};
use crate::text::{bool_str, bool_text, concat, texts};
use vstd::prelude::*;

verus! {

/// The report of `allowlist info`: the allowlist contract and its admin.
pub open spec fn allowlist_info_report(allowlist: Address, admin: Address) -> Seq<Seq<char>> {
    seq!["allowlist: "@ + address_text(allowlist@), "admin: "@ + address_text(admin@)]
}

/// The lines of `allowlist info`.
pub fn allowlist_info_lines(allowlist: &Address, admin: &Address) -> (lines: Vec<String>)
    ensures
        texts(lines@) == allowlist_info_report(*allowlist, *admin),
{
    let mut lines: Vec<String> = Vec::new();
    let a = allowlist.to_text();
    lines.push(concat("allowlist: ", a.as_str()));
    let b = admin.to_text();
    lines.push(concat("admin: ", b.as_str()));
    assert(texts(lines@) =~= allowlist_info_report(*allowlist, *admin));
    lines
}

/// The report of `allowlist is-allowed`: the target and whether the
/// allowlist holds it.
pub open spec fn allowed_report(target: Address, allowed: bool) -> Seq<Seq<char>> {
    seq!["target: "@ + address_text(target@), "allowed: "@ + bool_text(allowed)]
}

/// The lines of `allowlist is-allowed`.
pub fn allowed_lines(target: &Address, allowed: bool) -> (lines: Vec<String>)
    ensures
        texts(lines@) == allowed_report(*target, allowed),
{
    let mut lines: Vec<String> = Vec::new();
    let t = target.to_text();
    lines.push(concat("target: ", t.as_str()));
    lines.push(concat("allowed: ", bool_str(allowed)));
    assert(texts(lines@) =~= allowed_report(*target, allowed));
    lines
}

} // verus!
