use crate::address::{address_text, TxHash};
use crate::text::{concat, decimal, texts, u64_to_decimal};
use vstd::prelude::*;

verus! {

/// What a mined transaction's receipt tells: its hash, and its block number
/// and status where the node reports them.
#[derive(Clone, Copy, Debug, PartialEq, Eq)]
pub struct Receipt {
    pub transaction_hash: TxHash,
    pub block_number: Option<u64>,
    pub status: Option<u64>,
}

/// The report of a receipt; a missing block number or status reads as 0.
pub open spec fn receipt_report(r: Receipt) -> Seq<Seq<char>> {
    seq![
        "tx_hash: "@ + address_text(r.transaction_hash@),
        "block: "@ + decimal(
            match r.block_number {
                Some(b) => b as nat,
                None => 0,
            },
        ),
        "status: "@ + decimal(
            match r.status {
                Some(s) => s as nat,
                None => 0,
            },
        ),
    ]
}

/// The lines that print a receipt.
pub fn receipt_lines(r: &Receipt) -> (lines: Vec<String>)
    ensures
        texts(lines@) == receipt_report(*r),
{
    let mut lines: Vec<String> = Vec::new();
    let h = r.transaction_hash.to_text();
    lines.push(concat("tx_hash: ", h.as_str()));
    let block = match r.block_number {
        Some(b) => b,
        None => 0,
    };
    let b = u64_to_decimal(block);
    lines.push(concat("block: ", b.as_str()));
    let status = match r.status {
        Some(s) => s,
        None => 0,
    };
    let s = u64_to_decimal(status);
    lines.push(concat("status: ", s.as_str()));
    assert(texts(lines@) =~= receipt_report(*r));
    lines
}

} // verus!
