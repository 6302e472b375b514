//! Record-list decode adapter: sales transactions whose numeric fields are
//! encoded as text, and the test that every such field reads as a number.

use crate::error::DecodeFailure;
use vstd::prelude::*;
use vstd::string::*;
use vstd::utf8::encode_utf8;

verus! {

/// One sales transaction, every field as the text it was recorded in.
#[derive(Debug, PartialEq, Eq)]
pub struct Transaction {
    pub invoice_no: String,
    pub stock_code: String,
    pub description: String,
    pub quantity: String,
    pub invoice_date: String,
    pub unit_price: String,
    pub customer_id: String,
    pub country: String,
}

/// The mathematical model of a [`Transaction`].
pub struct TransactionView {
    pub invoice_no: Seq<char>,
    pub stock_code: Seq<char>,
    pub description: Seq<char>,
    pub quantity: Seq<char>,
    pub invoice_date: Seq<char>,
    pub unit_price: Seq<char>,
    pub customer_id: Seq<char>,
    pub country: Seq<char>,
}

impl DeepView for Transaction {
    type V = TransactionView;

    open spec fn deep_view(&self) -> TransactionView {
        TransactionView {
            invoice_no: self.invoice_no@,
            stock_code: self.stock_code@,
            description: self.description@,
            quantity: self.quantity@,
            invoice_date: self.invoice_date@,
            unit_price: self.unit_price@,
            customer_id: self.customer_id@,
            country: self.country@,
        }
    }
}

/// `Digit ::= [0-9]`
pub open spec fn is_digit(b: u8) -> bool {
    '0' as u8 <= b <= '9' as u8
}

/// `Sign ::= [+-]`
pub open spec fn is_sign(b: u8) -> bool {
    b == '+' as u8 || b == '-' as u8
}

/// The lower-case form of an ASCII letter; any other byte is itself.
pub open spec fn lower(b: u8) -> u8 {
    if 'A' as u8 <= b <= 'Z' as u8 {
        (b + 32) as u8
    } else {
        b
    }
}

/// Whether every byte of `t` is a digit.
pub open spec fn all_digits(t: Seq<u8>) -> bool {
    forall|i: int| 0 <= i < t.len() ==> is_digit(#[trigger] t[i])
}

/// Whether `t`, in lower case, is `word`.
pub open spec fn spells(t: Seq<u8>, word: Seq<u8>) -> bool {
    t.len() == word.len() && forall|i: int| 0 <= i < t.len() ==> lower(#[trigger] t[i]) == word[i]
}

/// `'inf' | 'infinity' | 'nan'`, in any case.
pub open spec fn is_special(t: Seq<u8>) -> bool {
    ||| spells(t, seq!['i' as u8, 'n' as u8, 'f' as u8])
    ||| spells(
        t,
        seq![
            'i' as u8,
            'n' as u8,
            'f' as u8,
            'i' as u8,
            'n' as u8,
            'i' as u8,
            't' as u8,
            'y' as u8,
        ],
    )
    ||| spells(t, seq!['n' as u8, 'a' as u8, 'n' as u8])
}

/// `Digit+ | Digit+ '.' Digit* | Digit* '.' Digit+`
pub open spec fn is_mantissa(t: Seq<u8>) -> bool {
    ||| t.len() >= 1 && all_digits(t)
    ||| t.len() >= 2 && exists|dot: int|
        0 <= dot < t.len() && #[trigger] t[dot] == '.' as u8 && all_digits(t.take(dot))
            && all_digits(t.skip(dot + 1))
}

/// `Exp ::= 'e' Sign? Digit+`, the `e` in either case.
pub open spec fn is_exponent(t: Seq<u8>) -> bool {
    &&& t.len() >= 2
    &&& lower(t[0]) == 'e' as u8
    &&& {
        let digits = if is_sign(t[1]) {
            t.skip(2)
        } else {
            t.skip(1)
        };
        digits.len() >= 1 && all_digits(digits)
    }
}

/// `Number ::= Mantissa Exp?`
pub open spec fn is_number(t: Seq<u8>) -> bool {
    exists|cut: int|
        0 <= cut <= t.len() && is_mantissa(#[trigger] t.take(cut)) && (cut == t.len()
            || is_exponent(t.skip(cut)))
}

/// Whether the bytes `t` read as a number:
/// `Sign? ( 'inf' | 'infinity' | 'nan' | Number )`, with nothing before or
/// after.
pub open spec fn is_number_text(t: Seq<u8>) -> bool {
    let body = if t.len() >= 1 && is_sign(t[0]) {
        t.skip(1)
    } else {
        t
    };
    is_special(body) || is_number(body)
}

fn digit(b: u8) -> (d: bool)
    ensures
        d == is_digit(b),
{
    '0' as u8 <= b && b <= '9' as u8
}

fn sign(b: u8) -> (s: bool)
    ensures
        s == is_sign(b),
{
    b == '+' as u8 || b == '-' as u8
}

fn lower_byte(b: u8) -> (l: u8)
    ensures
        l == lower(b),
{
    if 'A' as u8 <= b && b <= 'Z' as u8 {
        b + 32
    } else {
        b
    }
}

/// The end of the run of digits that starts at `from`.
fn digits_end(bytes: &[u8], from: usize) -> (end: usize)
    requires
        from <= bytes@.len(),
    ensures
        from <= end <= bytes@.len(),
        forall|i: int| from <= i < end ==> is_digit(#[trigger] bytes@[i]),
        end < bytes@.len() ==> !is_digit(bytes@[end as int]),
{
    let mut end = from;
    while end < bytes.len() && digit(bytes[end])
        invariant
            from <= end <= bytes@.len(),
            forall|i: int| from <= i < end ==> is_digit(#[trigger] bytes@[i]),
        decreases bytes@.len() - end,
    {
        end = end + 1;
    }
    end
}

/// Whether what follows `from`, in lower case, is `word`.
fn spells_from(bytes: &[u8], from: usize, word: &Vec<u8>) -> (same: bool)
    requires
        from <= bytes@.len(),
    ensures
        same == spells(bytes@.skip(from as int), word@),
{
    let len = bytes.len();
    if len - from != word.len() {
        return false;
    }
    let ghost rest = bytes@.skip(from as int);
    let mut i: usize = 0;
    while i < word.len()
        invariant
            len == bytes@.len(),
            from <= bytes@.len(),
            bytes@.len() - from == word@.len(),
            rest == bytes@.skip(from as int),
            i <= word@.len(),
            forall|k: int| 0 <= k < i ==> lower(#[trigger] rest[k]) == word@[k],
        decreases word@.len() - i,
    {
        if lower_byte(bytes[from + i]) != word[i] {
            assert(lower(rest[i as int]) != word@[i as int]);
            return false;
        }
        i = i + 1;
    }
    true
}

fn reads_special(bytes: &[u8], from: usize) -> (ok: bool)
    requires
        from <= bytes@.len(),
    ensures
        ok == is_special(bytes@.skip(from as int)),
{
    let inf: Vec<u8> = vec!['i' as u8, 'n' as u8, 'f' as u8];
    let infinity: Vec<u8> = vec![
        'i' as u8,
        'n' as u8,
        'f' as u8,
        'i' as u8,
        'n' as u8,
        'i' as u8,
        't' as u8,
        'y' as u8,
    ];
    let nan: Vec<u8> = vec!['n' as u8, 'a' as u8, 'n' as u8];
    spells_from(bytes, from, &inf) || spells_from(bytes, from, &infinity) || spells_from(
        bytes,
        from,
        &nan,
    )
}

/// Whether the digits of `t` that start at `from` run up to `end` and no
/// further.
spec fn run_ends(t: Seq<u8>, from: int, end: int) -> bool {
    &&& 0 <= from <= end <= t.len()
    &&& forall|i: int| from <= i < end ==> is_digit(#[trigger] t[i])
    &&& end < t.len() ==> !is_digit(t[end])
}

/// A number is read in one way only: its mantissa ends where the longest
/// run of digits, with at most one dot in it, ends.
proof fn lemma_number_shape(t: Seq<u8>, whole: int, mantissa: int, count: int)
    requires
        run_ends(t, 0, whole),
        if whole < t.len() && t[whole] == '.' as u8 {
            run_ends(t, whole + 1, mantissa) && count == mantissa - 1
        } else {
            mantissa == whole && count == whole
        },
    ensures
        is_number(t) <==> count >= 1 && (mantissa == t.len() || is_exponent(t.skip(mantissa))),
{
    if count >= 1 && (mantissa == t.len() || is_exponent(t.skip(mantissa))) {
        // What was scanned is a mantissa, and the text is a number cut there.
        assert(is_mantissa(t.take(mantissa)));
    }
    if is_number(t) {
        // However the text is cut into mantissa and exponent, the cut is
        // where the scan stopped: a mantissa holds digits and at most one
        // dot, and what follows it is neither.
        let cut = choose|cut: int|
            0 <= cut <= t.len() && is_mantissa(#[trigger] t.take(cut)) && (cut == t.len()
                || is_exponent(t.skip(cut)));
        let m = t.take(cut);
        if cut >= 1 && all_digits(m) {
            assert forall|i: int| 0 <= i < cut implies is_digit(t[i]) by {
                assert(is_digit(m[i]));
            }
            assert(whole == cut);
        } else {
            let dot = choose|dot: int|
                0 <= dot < m.len() && #[trigger] m[dot] == '.' as u8 && all_digits(m.take(dot))
                    && all_digits(m.skip(dot + 1));
            assert forall|i: int| 0 <= i < dot implies is_digit(t[i]) by {
                assert(is_digit(m.take(dot)[i]));
            }
            assert forall|i: int| dot < i < cut implies is_digit(t[i]) by {
                assert(is_digit(m.skip(dot + 1)[i - dot - 1]));
            }
            assert(whole == dot);
            assert(mantissa == cut);
        }
    }
}

/// An exponent is read in one way only.
proof fn lemma_exponent_shape(t: Seq<u8>, digits: int, end: int)
    requires
        t.len() >= 1,
        digits == if t.len() >= 2 && is_sign(t[1]) {
            2int
        } else {
            1int
        },
        run_ends(t, digits, end),
    ensures
        is_exponent(t) <==> lower(t[0]) == 'e' as u8 && digits < end && end == t.len(),
{
    if is_exponent(t) {
        // The digits of an exponent reach the end of the text.
        let tail = t.skip(digits);
        assert forall|i: int| digits <= i < t.len() implies is_digit(t[i]) by {
            assert(is_digit(tail[i - digits]));
        }
        assert(end == t.len());
    }
}

fn reads_number(bytes: &[u8], from: usize) -> (ok: bool)
    requires
        from <= bytes@.len(),
    ensures
        ok == is_number(bytes@.skip(from as int)),
{
    let len = bytes.len();
    let ghost t = bytes@.skip(from as int);
    let whole = digits_end(bytes, from);
    let dotted = whole < len && bytes[whole] == '.' as u8;
    let mantissa = if dotted {
        digits_end(bytes, whole + 1)
    } else {
        whole
    };
    let count = if dotted {
        mantissa - from - 1
    } else {
        mantissa - from
    };
    proof {
        lemma_number_shape(t, whole - from, mantissa - from, count as int);
        assert(t.skip(mantissa - from) =~= bytes@.skip(mantissa as int));
    }
    if count == 0 {
        return false;
    }
    if mantissa == len {
        return true;
    }
    let ghost e = bytes@.skip(mantissa as int);
    let first = mantissa + 1;
    let digits = if first < len && sign(bytes[first]) {
        first + 1
    } else {
        first
    };
    let end = digits_end(bytes, digits);
    proof {
        lemma_exponent_shape(e, digits - mantissa, end - mantissa);
    }
    lower_byte(bytes[mantissa]) == 'e' as u8 && digits < end && end == len
}

/// Whether `text` reads as a number.
pub fn is_numeric(text: &str) -> (ok: bool)
    ensures
        ok == is_number_text(encode_utf8(text@)),
{
    let bytes = text.as_bytes();
    let from: usize = if bytes.len() >= 1 && sign(bytes[0]) {
        1
    } else {
        0
    };
    proof {
        assert(bytes@.skip(0) =~= bytes@);
    }
    reads_special(bytes, from) || reads_number(bytes, from)
}

/// What is wrong with the record `record`, found at `index`: its quantity
/// if that is no number, else its unit price if that is none.
pub open spec fn record_failure(record: TransactionView, index: nat) -> Option<DecodeFailure> {
    if !is_number_text(encode_utf8(record.quantity)) {
        Some(DecodeFailure::BadQuantity { record: index as usize })
    } else if !is_number_text(encode_utf8(record.unit_price)) {
        Some(DecodeFailure::BadUnitPrice { record: index as usize })
    } else {
        None
    }
}

/// What is wrong with the first record of `records` that is not well formed,
/// or `None` where every record is.
pub open spec fn records_failure(records: Seq<TransactionView>) -> Option<DecodeFailure>
    decreases records.len(),
{
    if records.len() == 0 {
        None
    } else {
        match records_failure(records.drop_last()) {
            Some(failure) => Some(failure),
            None => record_failure(records.last(), (records.len() - 1) as nat),
        }
    }
}

/// Checks that the numeric fields of every record read as numbers, and
/// counts the records.
///
/// One malformed record fails the whole list: the failure names the first
/// such record, and its quantity before its unit price.
pub fn check_records(records: &Vec<Transaction>) -> (checked: Result<usize, DecodeFailure>)
    ensures
        match checked {
            Ok(count) => records_failure(records.deep_view()) is None && count == records.len(),
            Err(failure) => records_failure(records.deep_view()) == Some(failure),
        },
{
    let ghost all = records.deep_view();
    let mut index: usize = 0;
    while index < records.len()
        invariant
            index <= records.len(),
            all == records.deep_view(),
            records_failure(all.take(index as int)) is None,
        decreases records.len() - index,
    {
        proof {
            assert(all.take(index + 1).drop_last() =~= all.take(index as int));
            assert(all.take(index + 1).last() == records[index as int].deep_view());
        }
        if !is_numeric(records[index].quantity.as_str()) {
            proof {
                lemma_failure_stays(all, index + 1);
            }
            return Err(DecodeFailure::BadQuantity { record: index });
        }
        if !is_numeric(records[index].unit_price.as_str()) {
            proof {
                lemma_failure_stays(all, index + 1);
            }
            return Err(DecodeFailure::BadUnitPrice { record: index });
        }
        index = index + 1;
    }
    proof {
        assert(all.take(all.len() as int) =~= all);
    }
    Ok(index)
}

/// A failure found among the first `upto` records is the failure of the
/// whole list.
proof fn lemma_failure_stays(records: Seq<TransactionView>, upto: int)
    requires
        0 <= upto <= records.len(),
        records_failure(records.take(upto)) is Some,
    ensures
        records_failure(records) == records_failure(records.take(upto)),
    decreases records.len() - upto,
{
    if upto == records.len() {
        assert(records.take(upto) =~= records);
    } else {
        assert(records.take(upto + 1).drop_last() =~= records.take(upto));
        lemma_failure_stays(records, upto + 1);
    }
}

} // verus!
