//! The byte form of operations: a little-endian `u32` tag (the variant's
//! position), then the variant's fields. Text is a little-endian `u64` byte
//! count followed by its UTF-8 bytes; a stock is its symbol, its name, its
//! price bits (`u32`) and its market (`u16`).

use vstd::prelude::*;
use vstd::bytes::*;
use vstd::slice::{slice_subrange, slice_to_vec};
use vstd::utf8::{encode_utf8, decode_utf8, valid_utf8, encode_utf8_valid_utf8, encode_utf8_decode_utf8, decode_utf8_encode_utf8};
use crate::operation::{Operation, OperationModel};
use crate::stock::{Stock, StockModel};

verus! {

/// Conversion between a value and its byte form.
pub trait ByteOperations: Sized + View {
    /// The bytes that stand for the value `v`.
    spec fn encoding(v: Self::V) -> Seq<u8>;

    /// The value that `b` stands for, if any.
    spec fn decoding(b: Seq<u8>) -> Option<Self::V>;

    fn to_bytes(&self) -> (r: Vec<u8>)
        ensures
            r@ == Self::encoding(self@),
    ;

    fn from_bytes(bytes: &Vec<u8>) -> (r: Option<Self>)
        ensures
            match r {
                Some(v) => Self::decoding(bytes@) == Some(v@),
                None => Self::decoding(bytes@) is None,
            },
    ;
}

/// The byte form of a piece of text.
pub open spec fn text_wire(s: Seq<char>) -> Seq<u8> {
    spec_u64_to_le_bytes(encode_utf8(s).len() as u64) + encode_utf8(s)
}

/// The byte form of a stock.
pub open spec fn stock_wire(m: StockModel) -> Seq<u8> {
    text_wire(m.symbol) + text_wire(m.name) + spec_u32_to_le_bytes(m.price_bits)
        + spec_u16_to_le_bytes(m.market)
}

/// The tag of each kind of operation.
pub open spec fn tag_of(m: OperationModel) -> u32 {
    match m {
        OperationModel::GetPortfolio => 0,
        OperationModel::ListAvailable => 1,
        OperationModel::UpdatePrices => 2,
        OperationModel::DeleteStock(_) => 3,
        OperationModel::AddStock(_) => 4,
        OperationModel::Help => 5,
        OperationModel::Error => 6,
    }
}

/// The byte form of an operation.
pub open spec fn operation_wire(m: OperationModel) -> Seq<u8> {
    spec_u32_to_le_bytes(tag_of(m)) + match m {
        OperationModel::DeleteStock(s) => text_wire(s),
        OperationModel::AddStock(st) => stock_wire(st),
        _ => Seq::<u8>::empty(),
    }
}

/// Whether every piece of text in `m` has a UTF-8 length that its `u64`
/// prefix can hold (always so for values held in memory).
pub open spec fn fits_wire(m: OperationModel) -> bool {
    match m {
        OperationModel::DeleteStock(s) => encode_utf8(s).len() <= u64::MAX,
        OperationModel::AddStock(st) => encode_utf8(st.symbol).len() <= u64::MAX
            && encode_utf8(st.name).len() <= u64::MAX,
        _ => true,
    }
}

/// The text that starts at position `p` of `b`, and the position after it.
pub open spec fn read_text(b: Seq<u8>, p: int) -> Option<(Seq<char>, int)> {
    if 0 <= p && p + 8 <= b.len() {
        let n = spec_u64_from_le_bytes(b.subrange(p, p + 8)) as int;
        if n <= b.len() - (p + 8) && valid_utf8(b.subrange(p + 8, p + 8 + n)) {
            Some((decode_utf8(b.subrange(p + 8, p + 8 + n)), p + 8 + n))
        } else {
            None
        }
    } else {
        None
    }
}

/// The stock that starts at position `p` of `b`, and the position after it.
pub open spec fn read_stock(b: Seq<u8>, p: int) -> Option<(StockModel, int)> {
    match read_text(b, p) {
        Some((symbol, after_symbol)) => match read_text(b, after_symbol) {
            Some((name, after_name)) => if after_name + 6 <= b.len() {
                Some((StockModel {
                    symbol,
                    name,
                    price_bits: spec_u32_from_le_bytes(b.subrange(after_name, after_name + 4)),
                    market: spec_u16_from_le_bytes(b.subrange(after_name + 4, after_name + 6)),
                }, after_name + 6))
            } else {
                None
            },
            None => None,
        },
        None => None,
    }
}

/// The operation that `b` stands for: a known tag, its fields, and nothing
/// after them.
pub open spec fn operation_of_wire(b: Seq<u8>) -> Option<OperationModel> {
    if b.len() < 4 {
        None
    } else {
        let tag = spec_u32_from_le_bytes(b.subrange(0, 4));
        if tag == 0 && b.len() == 4 {
            Some(OperationModel::GetPortfolio)
        } else if tag == 1 && b.len() == 4 {
            Some(OperationModel::ListAvailable)
        } else if tag == 2 && b.len() == 4 {
            Some(OperationModel::UpdatePrices)
        } else if tag == 5 && b.len() == 4 {
            Some(OperationModel::Help)
        } else if tag == 6 && b.len() == 4 {
            Some(OperationModel::Error)
        } else if tag == 3 {
            match read_text(b, 4) {
                Some((s, e)) => if e == b.len() {
                    Some(OperationModel::DeleteStock(s))
                } else {
                    None
                },
                None => None,
            }
        } else if tag == 4 {
            match read_stock(b, 4) {
                Some((st, e)) => if e == b.len() {
                    Some(OperationModel::AddStock(st))
                } else {
                    None
                },
                None => None,
            }
        } else {
            None
        }
    }
}

/// Relies on `String::from_utf8`: it accepts exactly the valid UTF-8 byte
/// sequences, and the string holds the characters that they encode.
#[verifier::external_body]
pub(crate) fn text_from_utf8(b: Vec<u8>) -> (r: Option<String>)
    ensures
        match r {
            Some(s) => valid_utf8(b@) && s@ == decode_utf8(b@),
            None => !valid_utf8(b@),
        },
{
    String::from_utf8(b).ok()
}

/// Appends the byte form of `s` to `out`.
fn put_text(out: &mut Vec<u8>, s: &String)
    ensures
        final(out)@ == old(out)@ + text_wire(s@),
{
    let b = s.as_str().as_bytes();
    let mut len = u64_to_le_bytes(b.len() as u64);
    out.append(&mut len);
    let mut body = slice_to_vec(b);
    out.append(&mut body);
}

/// Reads the text that starts at position `p` of `b`.
fn take_text(b: &[u8], p: usize) -> (r: Option<(String, usize)>)
    requires
        p <= b@.len(),
    ensures
        match r {
            Some((s, e)) => read_text(b@, p as int) == Some((s@, e as int)),
            None => read_text(b@, p as int) is None,
        },
{
    if b.len() - p < 8 {
        return None;
    }
    let n = u64_from_le_bytes(slice_subrange(b, p, p + 8));
    let room = (b.len() - p - 8) as u64;
    if n > room {
        return None;
    }
    let n = n as usize;
    let body = slice_subrange(b, p + 8, p + 8 + n);
    match text_from_utf8(slice_to_vec(body)) {
        Some(s) => Some((s, p + 8 + n)),
        None => None,
    }
}

/// Reads the stock that starts at position `p` of `b`.
fn take_stock(b: &[u8], p: usize) -> (r: Option<(Stock, usize)>)
    requires
        p <= b@.len(),
    ensures
        match r {
            Some((st, e)) => read_stock(b@, p as int) == Some((st@, e as int)),
            None => read_stock(b@, p as int) is None,
        },
{
    let (symbol, after_symbol) = match take_text(b, p) {
        Some(x) => x,
        None => return None,
    };
    let (name, after_name) = match take_text(b, after_symbol) {
        Some(x) => x,
        None => return None,
    };
    if b.len() - after_name < 6 {
        return None;
    }
    let price_bits = u32_from_le_bytes(slice_subrange(b, after_name, after_name + 4));
    let market = u16_from_le_bytes(slice_subrange(b, after_name + 4, after_name + 6));
    Some((Stock { symbol, name, price_bits, market }, after_name + 6))
}

/// Reading text back from its byte form, with anything around it.
pub proof fn lemma_read_text(pre: Seq<u8>, s: Seq<char>, post: Seq<u8>)
    requires
        encode_utf8(s).len() <= u64::MAX,
    ensures
        read_text(pre + text_wire(s) + post, pre.len() as int)
            == Some((s, (pre.len() + text_wire(s).len()) as int)),
        text_wire(s).len() == 8 + encode_utf8(s).len(),
{
    lemma_auto_spec_u64_to_from_le_bytes();
    let e = encode_utf8(s);
    let n = e.len() as int;
    let b = pre + text_wire(s) + post;
    let p = pre.len() as int;
    assert(b.subrange(p, p + 8) =~= spec_u64_to_le_bytes(n as u64));
    assert(b.subrange(p + 8, p + 8 + n) =~= e);
    encode_utf8_valid_utf8(s);
    encode_utf8_decode_utf8(s);
}

/// Text read from bytes is exactly the byte form of what was read.
pub proof fn lemma_read_text_exact(b: Seq<u8>, p: int)
    requires
        read_text(b, p) is Some,
    ensures
        ({
            let (s, e) = read_text(b, p).unwrap();
            &&& p + 8 <= e <= b.len()
            &&& b.subrange(p, e) == text_wire(s)
            &&& encode_utf8(s).len() <= u64::MAX
        }),
{
    lemma_auto_spec_u64_to_from_le_bytes();
    let x8 = b.subrange(p, p + 8);
    let n = spec_u64_from_le_bytes(x8) as int;
    let body = b.subrange(p + 8, p + 8 + n);
    decode_utf8_encode_utf8(body);
    assert(b.subrange(p, p + 8 + n) =~= x8 + body);
}

/// Decoding the byte form of an operation gives the operation back.
pub proof fn lemma_operation_round_trip(m: OperationModel)
    requires
        fits_wire(m),
    ensures
        operation_of_wire(operation_wire(m)) == Some(m),
{
    lemma_auto_spec_u32_to_from_le_bytes();
    lemma_auto_spec_u16_to_from_le_bytes();
    let t = spec_u32_to_le_bytes(tag_of(m));
    let b = operation_wire(m);
    assert(b.subrange(0, 4) =~= t);
    match m {
        OperationModel::DeleteStock(s) => {
            lemma_read_text(t, s, Seq::<u8>::empty());
            assert(b =~= t + text_wire(s) + Seq::<u8>::empty());
        },
        OperationModel::AddStock(st) => {
            let w1 = text_wire(st.symbol);
            let w2 = text_wire(st.name);
            let tail = spec_u32_to_le_bytes(st.price_bits) + spec_u16_to_le_bytes(st.market);
            lemma_read_text(t, st.symbol, w2 + tail);
            assert(b =~= t + w1 + (w2 + tail));
            lemma_read_text(t + w1, st.name, tail);
            assert(b =~= (t + w1) + w2 + tail);
            let after_name = (4 + w1.len() + w2.len()) as int;
            assert(b.subrange(after_name, after_name + 4) =~= spec_u32_to_le_bytes(st.price_bits));
            assert(b.subrange(after_name + 4, after_name + 6) =~= spec_u16_to_le_bytes(st.market));
        },
        _ => {
            assert(b =~= t);
        },
    }
}

/// Bytes that decode to an operation are exactly that operation's byte form.
pub proof fn lemma_operation_wire_exact(b: Seq<u8>)
    requires
        operation_of_wire(b) is Some,
    ensures
        operation_wire(operation_of_wire(b).unwrap()) == b,
        fits_wire(operation_of_wire(b).unwrap()),
{
    lemma_auto_spec_u32_to_from_le_bytes();
    lemma_auto_spec_u16_to_from_le_bytes();
    let t = b.subrange(0, 4);
    let m = operation_of_wire(b).unwrap();
    assert(spec_u32_to_le_bytes(spec_u32_from_le_bytes(t)) == t);
    match m {
        OperationModel::DeleteStock(s) => {
            lemma_read_text_exact(b, 4);
            assert(b =~= t + b.subrange(4, b.len() as int));
        },
        OperationModel::AddStock(st) => {
            lemma_read_text_exact(b, 4);
            let after_symbol = read_text(b, 4).unwrap().1;
            lemma_read_text_exact(b, after_symbol);
            let after_name = read_text(b, after_symbol).unwrap().1;
            let x4 = b.subrange(after_name, after_name + 4);
            let x2 = b.subrange(after_name + 4, after_name + 6);
            assert(spec_u32_to_le_bytes(spec_u32_from_le_bytes(x4)) == x4);
            assert(spec_u16_to_le_bytes(spec_u16_from_le_bytes(x2)) == x2);
            assert(b =~= t + b.subrange(4, after_symbol) + b.subrange(after_symbol, after_name) + x4 + x2);
        },
        _ => {
            assert(b =~= t);
        },
    }
}

impl ByteOperations for Operation {
    open spec fn encoding(v: OperationModel) -> Seq<u8> {
        operation_wire(v)
    }

    open spec fn decoding(b: Seq<u8>) -> Option<OperationModel> {
        operation_of_wire(b)
    }

    fn to_bytes(&self) -> (r: Vec<u8>) {
        let tag: u32 = match self {
            Operation::GetPortfolio => 0,
            Operation::ListAvailable => 1,
            Operation::UpdatePrices => 2,
            Operation::DeleteStock(_) => 3,
            Operation::AddStock(_) => 4,
            Operation::Help => 5,
            Operation::Error => 6,
        };
        let mut out = u32_to_le_bytes(tag);
        let ghost t = out@;
        match self {
            Operation::DeleteStock(s) => {
                put_text(&mut out, s);
            },
            Operation::AddStock(st) => {
                put_text(&mut out, &st.symbol);
                put_text(&mut out, &st.name);
                let mut price = u32_to_le_bytes(st.price_bits);
                out.append(&mut price);
                let mut market = u16_to_le_bytes(st.market);
                out.append(&mut market);
                assert(out@ =~= t + stock_wire(st@));
            },
            _ => {
                assert(out@ =~= t + Seq::<u8>::empty());
            },
        }
        out
    }

    fn from_bytes(bytes: &Vec<u8>) -> (r: Option<Operation>) {
        let b = bytes.as_slice();
        if b.len() < 4 {
            return None;
        }
        let tag = u32_from_le_bytes(slice_subrange(b, 0, 4));
        if b.len() == 4 {
            if tag == 0 {
                return Some(Operation::GetPortfolio);
            } else if tag == 1 {
                return Some(Operation::ListAvailable);
            } else if tag == 2 {
                return Some(Operation::UpdatePrices);
            } else if tag == 5 {
                return Some(Operation::Help);
            } else if tag == 6 {
                return Some(Operation::Error);
            }
        }
        if tag == 3 {
            match take_text(b, 4) {
                Some((s, e)) => if e == b.len() {
                    Some(Operation::DeleteStock(s))
                } else {
                    None
                },
                None => None,
            }
        } else if tag == 4 {
            match take_stock(b, 4) {
                Some((st, e)) => if e == b.len() {
                    Some(Operation::AddStock(st))
                } else {
                    None
                },
                None => None,
            }
        } else {
            None
        }
    }
}

} // verus!
