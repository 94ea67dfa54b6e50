//! Rendering: a tabular view for list results — a stable header and one
//! 1-based indexed row per record, in the order received — and a one-record
//! summary for create and cancel results, with an optional raw-JSON echo of
//! the decoded result.

use vstd::prelude::*;
use vstd::string::*;
use crate::client::{
    push_quoted, quoted, Balance, BalanceModel, PaymentResult, PaymentResultModel,
};
use crate::text::{dec_digits, push_decimal};

verus! {

/// The column header of the balance table.
pub open spec fn balances_header_model() -> Seq<char> {
    "ID | Currency | Status | Available"@
}

/// The column header of the balance table.
pub fn balances_header() -> (r: String)
    ensures
        r@ == balances_header_model(),
{
    "ID | Currency | Status | Available".to_owned()
}

/// One row of the balance table: the 1-based index, then the record's
/// fields in the header's order.
pub open spec fn balance_row_model(i: int, b: BalanceModel) -> Seq<char> {
    dec_digits(i) + ". "@ + b.id + " | "@ + b.currency + " | "@ + b.status + " | "@ + b.available
}

/// Renders one row per record: row `i` shows record `i` under index `i + 1`,
/// so the table keeps the provider's order and numbers the rows from 1.
pub fn render_balances(items: &Vec<Balance>) -> (rows: Vec<String>)
    ensures
        rows@.len() == items@.len(),
        forall|i: int|
            0 <= i < rows@.len() ==> rows@[i]@ == balance_row_model(i + 1, items@[i]@),
{
    let mut rows: Vec<String> = Vec::new();
    let mut idx: usize = 0;
    while idx < items.len()
        invariant
            0 <= idx <= items@.len(),
            rows@.len() == idx,
            forall|i: int|
                0 <= i < idx ==> rows@[i]@ == balance_row_model(i + 1, items@[i]@),
        decreases items@.len() - idx,
    {
        let mut row = String::new();
        push_decimal(&mut row, (idx as u64) + 1);
        row.append(". ");
        row.append(items[idx].id.as_str());
        row.append(" | ");
        row.append(items[idx].currency.as_str());
        row.append(" | ");
        row.append(items[idx].status.as_str());
        row.append(" | ");
        row.append(items[idx].available.as_str());
        proof {
            assert(row@ =~= balance_row_model(idx + 1, items@[idx as int]@));
        }
        rows.push(row);
        idx = idx + 1;
    }
    rows
}

/// The column header of the one-record payment summary.
pub open spec fn payment_header_model() -> Seq<char> {
    "ID | Mode | Status | Description"@
}

/// The column header of the one-record payment summary.
pub fn payment_header() -> (r: String)
    ensures
        r@ == payment_header_model(),
{
    "ID | Mode | Status | Description".to_owned()
}

/// The one-record summary of a payment result.
pub open spec fn payment_row_model(p: PaymentResultModel) -> Seq<char> {
    p.id + " | "@ + p.mode + " | "@ + p.status + " | "@ + p.description
}

/// Renders the one-record summary of a payment result.
pub fn render_payment(p: &PaymentResult) -> (line: String)
    ensures
        line@ == payment_row_model(p@),
{
    let mut line = String::new();
    line.append(p.id.as_str());
    line.append(" | ");
    line.append(p.mode.as_str());
    line.append(" | ");
    line.append(p.status.as_str());
    line.append(" | ");
    line.append(p.description.as_str());
    proof {
        assert(line@ =~= payment_row_model(p@));
    }
    line
}

/// The indented JSON echo of a decoded payment result, for commands asked
/// to show the raw response.
pub open spec fn payment_json_model(p: PaymentResultModel) -> Seq<char> {
    "{\n  \"resource\": "@ + quoted(p.resource) + ",\n  \"id\": "@ + quoted(p.id)
        + ",\n  \"mode\": "@ + quoted(p.mode) + ",\n  \"description\": "@ + quoted(p.description)
        + ",\n  \"method\": "@ + (match p.method {
        Some(m) => quoted(m),
        None => "null"@,
    }) + ",\n  \"status\": "@ + quoted(p.status) + "\n}"@
}

/// Serializes a decoded payment result back to indented JSON.
pub fn payment_result_json(p: &PaymentResult) -> (r: String)
    ensures
        r@ == payment_json_model(p@),
{
    let mut out = String::new();
    out.append("{\n  \"resource\": ");
    push_quoted(&mut out, p.resource.as_str());
    out.append(",\n  \"id\": ");
    push_quoted(&mut out, p.id.as_str());
    out.append(",\n  \"mode\": ");
    push_quoted(&mut out, p.mode.as_str());
    out.append(",\n  \"description\": ");
    push_quoted(&mut out, p.description.as_str());
    out.append(",\n  \"method\": ");
    match &p.method {
        Some(m) => push_quoted(&mut out, m.as_str()),
        None => out.append("null"),
    }
    out.append(",\n  \"status\": ");
    push_quoted(&mut out, p.status.as_str());
    out.append("\n}");
    proof {
        assert(out@ =~= payment_json_model(p@));
    }
    out
}

} // verus!
