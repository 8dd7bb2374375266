//! Parsing one line of client text into an `Operation`.
//!
//! The zero-argument commands must match the whole line exactly.
//! `delete_stock` takes exactly one word after the keyword. `add_stock`
//! takes at least one word; the words are joined by single spaces into the
//! stock record text, which is decoded by the caller (it is JSON) and handed
//! back to `Operation::from_line`. Anything else is `Error`.

use vstd::prelude::*;
use crate::operation::{Operation, OperationModel};
use crate::stock::{Stock, StockModel};
use crate::text::{is_space, words, join_spaced, spans_match, chars_of, word_spans};

verus! {

/// Whether `line` starts with a word (no leading whitespace) equal to `kw`
/// and has exactly `n` words, or at least `n` words when `at_least` holds.
pub open spec fn command_shape(line: Seq<char>, kw: Seq<char>, n: int, at_least: bool) -> bool {
    let ws = words(line);
    &&& line.len() > 0
    &&& !is_space(line[0])
    &&& ws.len() >= 1
    &&& ws[0] == kw
    &&& if at_least { ws.len() >= n } else { ws.len() == n }
}

/// Whether `line` is an `add_stock` command with a record after the keyword.
pub open spec fn is_add_stock_line(line: Seq<char>) -> bool {
    command_shape(line, "add_stock"@, 2, true)
}

/// Whether `line` is a `delete_stock` command with exactly one symbol.
pub open spec fn is_delete_stock_line(line: Seq<char>) -> bool {
    command_shape(line, "delete_stock"@, 2, false)
}

/// The stock record text of an `add_stock` line: the words after the
/// keyword joined by single spaces.
pub open spec fn record_text_of(line: Seq<char>) -> Option<Seq<char>> {
    if is_add_stock_line(line) {
        let ws = words(line);
        Some(join_spaced(ws.subrange(1, ws.len() as int)))
    } else {
        None
    }
}

/// The plain values of an optional stock record.
pub open spec fn record_model(r: Option<Stock>) -> Option<StockModel> {
    match r {
        Some(s) => Some(s@),
        None => None,
    }
}

/// The operation that `line` denotes, given the decoded stock record of an
/// `add_stock` line (`None` when the record text did not decode).
pub open spec fn parse_line(line: Seq<char>, record: Option<StockModel>) -> OperationModel {
    if line == "get_portfolio"@ || line == "list_stored"@ {
        OperationModel::GetPortfolio
    } else if line == "list_available"@ {
        OperationModel::ListAvailable
    } else if line == "update_prices"@ {
        OperationModel::UpdatePrices
    } else if line == "help"@ || line == "?"@ {
        OperationModel::Help
    } else if is_delete_stock_line(line) {
        OperationModel::DeleteStock(words(line)[1])
    } else if is_add_stock_line(line) {
        match record {
            Some(s) => OperationModel::AddStock(s),
            None => OperationModel::Error,
        }
    } else {
        OperationModel::Error
    }
}

/// Whether `s` is exactly the text `lit`.
fn is_text(s: &String, lit: &str) -> (r: bool)
    ensures
        r == (s@ == lit@),
{
    let l = String::from_str(lit);
    s.eq(&l)
}

/// The word `s[span]` as a `String`.
fn word_at(s: &str, span: (usize, usize)) -> (r: String)
    requires
        span.0 <= span.1 <= s@.len(),
    ensures
        r@ == s@.subrange(span.0 as int, span.1 as int),
{
    let w = s.substring_char(span.0, span.1);
    w.to_owned()
}

/// Whether `line` has the shape `command_shape(line, kw, n, at_least)`,
/// computed from its characters and word spans.
fn has_shape(
    line: &str,
    cs: &Vec<char>,
    spans: &Vec<(usize, usize)>,
    kw: &str,
    n: usize,
    at_least: bool,
) -> (r: bool)
    requires
        cs@ == line@,
        spans_match(line@, spans@, words(line@)),
    ensures
        r == command_shape(line@, kw@, n as int, at_least),
{
    if cs.len() == 0 || crate::text::char_is_space(cs[0]) || spans.len() == 0 {
        return false;
    }
    let first = word_at(line, spans[0]);
    if !is_text(&first, kw) {
        return false;
    }
    if at_least {
        spans.len() >= n
    } else {
        spans.len() == n
    }
}

/// The stock record text of an `add_stock` line, if `line` is one.
pub fn record_text(line: &str) -> (r: Option<String>)
    ensures
        match r {
            Some(t) => record_text_of(line@) == Some(t@),
            None => record_text_of(line@) is None,
        },
{
    let cs = chars_of(line);
    let spans = word_spans(&cs);
    if !has_shape(line, &cs, &spans, "add_stock", 2, true) {
        return None;
    }
    let ghost ws = words(line@);
    let mut acc = String::new();
    let mut k: usize = 1;
    while k < spans.len()
        invariant
            spans_match(line@, spans@, ws),
            ws.len() >= 2,
            1 <= k <= ws.len(),
            acc@ == join_spaced(ws.subrange(1, k as int)),
        decreases ws.len() - k,
    {
        let w = word_at(line, spans[k]);
        let ghost prev = ws.subrange(1, k as int);
        let ghost next = ws.subrange(1, k + 1);
        assert(next.drop_last() =~= prev);
        if k > 1 {
            acc.append(" ");
            proof { reveal_strlit(" "); }
        } else {
            assert(prev.len() == 0);
        }
        acc.append(w.as_str());
        k += 1;
        assert(acc@ =~= join_spaced(next));
    }
    assert(ws.subrange(1, ws.len() as int) =~= ws.subrange(1, k as int));
    Some(acc)
}

impl Operation {
    /// The operation that `line` denotes. `record` is the stock record
    /// decoded from `record_text(line)` for an `add_stock` line; it is not
    /// read for any other line.
    pub fn from_line(line: &str, record: Option<Stock>) -> (r: Operation)
        ensures
            r@ == parse_line(line@, record_model(record)),
    {
        let owned = line.to_owned();
        if is_text(&owned, "get_portfolio") || is_text(&owned, "list_stored") {
            return Operation::GetPortfolio;
        }
        if is_text(&owned, "list_available") {
            return Operation::ListAvailable;
        }
        if is_text(&owned, "update_prices") {
            return Operation::UpdatePrices;
        }
        if is_text(&owned, "help") || is_text(&owned, "?") {
            return Operation::Help;
        }
        let cs = chars_of(line);
        let spans = word_spans(&cs);
        if has_shape(line, &cs, &spans, "delete_stock", 2, false) {
            let sym = word_at(line, spans[1]);
            return Operation::DeleteStock(sym);
        }
        if has_shape(line, &cs, &spans, "add_stock", 2, true) {
            return match record {
                Some(s) => Operation::AddStock(s),
                None => Operation::Error,
            };
        }
        Operation::Error
    }
}

/// A line that names no command (an unknown keyword, or `delete_stock`
/// without exactly one symbol after it) parses to `Error`, whatever record
/// is supplied.
pub proof fn lemma_malformed_line_is_error(line: Seq<char>, record: Option<StockModel>)
    requires
        line != "get_portfolio"@,
        line != "list_stored"@,
        line != "list_available"@,
        line != "update_prices"@,
        line != "help"@,
        line != "?"@,
        !is_delete_stock_line(line),
        !is_add_stock_line(line),
    ensures
        parse_line(line, record) is Error,
{
}

} // verus!
