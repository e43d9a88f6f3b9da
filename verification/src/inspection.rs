use std::collections::HashMap;
use vstd::prelude::*;
use crate::decimal::{Amount, zero_amount};
use crate::error::AppError;
use crate::text::{join2, text_eq};

verus! {

/// What the inspector decides for one inspected line.
#[derive(Clone, Copy, Debug, PartialEq, Eq, Structural)]
pub enum ReceiptOperationType {
    /// The line is signed for (accepted).
    Sign,
    /// The missing quantity is to be exchanged.
    Exchange,
    /// The line is returned and refunded.
    Return,
}

pub open spec fn spec_operation_text(op: ReceiptOperationType) -> Seq<char> {
    match op {
        ReceiptOperationType::Sign => "SIGN"@,
        ReceiptOperationType::Exchange => "EXCHANGE"@,
        ReceiptOperationType::Return => "RETURN"@,
    }
}

impl ReceiptOperationType {
    /// The result text stored for the inspected line.
    pub fn to_str(&self) -> (s: &'static str)
        ensures
            s@ == spec_operation_text(*self),
    {
        match self {
            ReceiptOperationType::Sign => "SIGN",
            ReceiptOperationType::Exchange => "EXCHANGE",
            ReceiptOperationType::Return => "RETURN",
        }
    }

    /// Whether the inspected line counts as accepted: everything but a return.
    pub fn is_accepted(&self) -> (b: bool)
        ensures
            b == (*self != ReceiptOperationType::Return),
    {
        match self {
            ReceiptOperationType::Return => false,
            _ => true,
        }
    }
}

/// The outcome of one inspection of an order.
#[derive(Clone, Copy, Debug, PartialEq, Eq, Structural)]
pub enum InspectionOutcome {
    /// Some line is still to be inspected.
    Pending,
    /// Some line is to be exchanged.
    Exchange,
    /// Some lines were signed for and others returned.
    Partial,
    /// Every line was signed for.
    Pass,
    /// Nothing was signed for or exchanged.
    Rejected,
}

pub open spec fn spec_outcome_text(o: InspectionOutcome) -> Seq<char> {
    match o {
        InspectionOutcome::Pending => "PENDING"@,
        InspectionOutcome::Exchange => "EXCHANGE"@,
        InspectionOutcome::Partial => "PARTIAL"@,
        InspectionOutcome::Pass => "PASS"@,
        InspectionOutcome::Rejected => "REJECTED"@,
    }
}

impl InspectionOutcome {
    pub fn to_str(&self) -> (s: &'static str)
        ensures
            s@ == spec_outcome_text(*self),
    {
        match self {
            InspectionOutcome::Pending => "PENDING",
            InspectionOutcome::Exchange => "EXCHANGE",
            InspectionOutcome::Partial => "PARTIAL",
            InspectionOutcome::Pass => "PASS",
            InspectionOutcome::Rejected => "REJECTED",
        }
    }
}

/// Some line's result is `r`.
pub open spec fn has_result(results: Seq<Seq<char>>, r: Seq<char>) -> bool {
    exists|i: int| 0 <= i < results.len() && #[trigger] results[i] == r
}

/// The outcome of an inspection whose lines have the given results.
pub open spec fn spec_outcome(results: Seq<Seq<char>>) -> InspectionOutcome {
    if has_result(results, "PENDING"@) {
        InspectionOutcome::Pending
    } else if has_result(results, "EXCHANGE"@) {
        InspectionOutcome::Exchange
    } else if has_result(results, "SIGN"@) {
        if has_result(results, "RETURN"@) {
            InspectionOutcome::Partial
        } else {
            InspectionOutcome::Pass
        }
    } else {
        InspectionOutcome::Rejected
    }
}

pub open spec fn result_texts(results: Seq<String>) -> Seq<Seq<char>> {
    results.map_values(|s: String| s@)
}

/// The outcome of an inspection from the results of its lines: pending while
/// any line is; otherwise an exchange if any line is exchanged, a pass (full or
/// partial, by whether some line was returned) if any line was signed for, and
/// a rejection when nothing was.
pub fn aggregate_inspection(results: &Vec<String>) -> (o: InspectionOutcome)
    ensures
        o == spec_outcome(result_texts(results@)),
{
    let ghost texts = result_texts(results@);
    let mut pending = false;
    let mut exchange = false;
    let mut sign = false;
    let mut ret = false;
    let mut i: usize = 0;
    while i < results.len()
        invariant
            i <= results.len(),
            texts == result_texts(results@),
            pending == has_result(texts.take(i as int), "PENDING"@),
            exchange == has_result(texts.take(i as int), "EXCHANGE"@),
            sign == has_result(texts.take(i as int), "SIGN"@),
            ret == has_result(texts.take(i as int), "RETURN"@),
        decreases results.len() - i,
    {
        let r = results[i].as_str();
        let ghost prev = texts.take(i as int);
        let ghost next = texts.take(i as int + 1);
        assert(next =~= prev.push(texts[i as int]));
        assert(texts[i as int] == r@);
        proof {
            assert forall|t: Seq<char>| has_result(next, t) == (has_result(prev, t) || r@ == t) by {
                if has_result(next, t) {
                    let j = choose|j: int| 0 <= j < next.len() && #[trigger] next[j] == t;
                    if j < prev.len() {
                        assert(prev[j] == t);
                    }
                }
                if has_result(prev, t) {
                    let j = choose|j: int| 0 <= j < prev.len() && #[trigger] prev[j] == t;
                    assert(next[j] == t);
                }
                if r@ == t {
                    assert(next[i as int] == t);
                }
            }
        }
        if text_eq(r, "PENDING") {
            pending = true;
        }
        if text_eq(r, "EXCHANGE") {
            exchange = true;
        }
        if text_eq(r, "SIGN") {
            sign = true;
        }
        if text_eq(r, "RETURN") {
            ret = true;
        }
        i = i + 1;
    }
    assert(texts.take(results.len() as int) =~= texts);
    if pending {
        InspectionOutcome::Pending
    } else if exchange {
        InspectionOutcome::Exchange
    } else if sign {
        if ret {
            InspectionOutcome::Partial
        } else {
            InspectionOutcome::Pass
        }
    } else {
        InspectionOutcome::Rejected
    }
}

/// Law: an inspection with no line pending or exchanged, some line signed
/// for and some line returned, wherever those lines stand, passes only in
/// part.
pub proof fn law_signed_and_returned_lines_make_partial(
    results: &Vec<String>,
    i: int,
    j: int,
    o: InspectionOutcome,
)
    requires
        0 <= i < results@.len(),
        0 <= j < results@.len(),
        results@[i]@ == "SIGN"@,
        results@[j]@ == "RETURN"@,
        forall|k: int| 0 <= k < results@.len() ==> results@[k]@ != "PENDING"@ && results@[k]@ != "EXCHANGE"@,
        call_ensures(aggregate_inspection, (results,), o),
    ensures
        o == InspectionOutcome::Partial,
{
    let texts = result_texts(results@);
    assert(texts[i] == "SIGN"@);
    assert(texts[j] == "RETURN"@);
    assert(!has_result(texts, "PENDING"@)) by {
        if has_result(texts, "PENDING"@) {
            let k = choose|k: int| 0 <= k < texts.len() && #[trigger] texts[k] == "PENDING"@;
            assert(results@[k]@ == "PENDING"@);
        }
    }
    assert(!has_result(texts, "EXCHANGE"@)) by {
        if has_result(texts, "EXCHANGE"@) {
            let k = choose|k: int| 0 <= k < texts.len() && #[trigger] texts[k] == "EXCHANGE"@;
            assert(results@[k]@ == "EXCHANGE"@);
        }
    }
}

/// Law: a line still pending keeps the whole inspection pending; with none
/// pending, an exchanged line makes it an exchange; with neither, no line
/// signed for makes it a rejection, and some line signed for with none
/// returned makes it a full pass.
pub proof fn law_outcome_by_line_results(results: &Vec<String>, o: InspectionOutcome)
    requires
        call_ensures(aggregate_inspection, (results,), o),
    ensures
        (exists|k: int| 0 <= k < results@.len() && results@[k]@ == "PENDING"@) ==> o == InspectionOutcome::Pending,
        (forall|k: int| 0 <= k < results@.len() ==> results@[k]@ != "PENDING"@) && (exists|k: int|
            0 <= k < results@.len() && results@[k]@ == "EXCHANGE"@) ==> o == InspectionOutcome::Exchange,
        (forall|k: int|
            0 <= k < results@.len() ==> results@[k]@ != "PENDING"@ && results@[k]@ != "EXCHANGE"@ && results@[k]@
                != "SIGN"@) ==> o == InspectionOutcome::Rejected,
        (forall|k: int|
            0 <= k < results@.len() ==> results@[k]@ != "PENDING"@ && results@[k]@ != "EXCHANGE"@ && results@[k]@
                != "RETURN"@) && (exists|k: int| 0 <= k < results@.len() && results@[k]@ == "SIGN"@) ==> o
            == InspectionOutcome::Pass,
{
    let texts = result_texts(results@);
    assert forall|t: Seq<char>| has_result(texts, t) <==> (exists|k: int| 0 <= k < results@.len() && results@[k]@ == t) by {
        if has_result(texts, t) {
            let k = choose|k: int| 0 <= k < texts.len() && #[trigger] texts[k] == t;
            assert(results@[k]@ == t);
        }
        if exists|k: int| 0 <= k < results@.len() && results@[k]@ == t {
            let k = choose|k: int| 0 <= k < results@.len() && results@[k]@ == t;
            assert(texts[k] == t);
        }
    }
}

/// Law: an inspection passes in full only when no line was returned, and only
/// when some line was signed for.
pub proof fn law_full_pass_has_no_returned_line(results: &Vec<String>, o: InspectionOutcome)
    requires
        call_ensures(aggregate_inspection, (results,), o),
        o == InspectionOutcome::Pass,
    ensures
        forall|k: int| 0 <= k < results@.len() ==> results@[k]@ != "RETURN"@,
        exists|k: int| 0 <= k < results@.len() && results@[k]@ == "SIGN"@,
{
    let texts = result_texts(results@);
    assert forall|k: int| 0 <= k < results@.len() implies results@[k]@ != "RETURN"@ by {
        if results@[k]@ == "RETURN"@ {
            assert(texts[k] == "RETURN"@);
        }
    }
    let k = choose|k: int| 0 <= k < texts.len() && #[trigger] texts[k] == "SIGN"@;
    assert(results@[k]@ == "SIGN"@);
}

/// Law: once every line of an inspection is signed for, the inspection passes.
pub proof fn law_all_signed_passes(results: Seq<Seq<char>>)
    requires
        results.len() > 0,
        forall|i: int| 0 <= i < results.len() ==> results[i] == "SIGN"@,
    ensures
        spec_outcome(results) == InspectionOutcome::Pass,
{
    reveal_strlit("SIGN");
    reveal_strlit("PENDING");
    reveal_strlit("EXCHANGE");
    reveal_strlit("RETURN");
    assert(results[0] == "SIGN"@);
    assert(!has_result(results, "PENDING"@)) by {
        if has_result(results, "PENDING"@) {
            let j = choose|j: int| 0 <= j < results.len() && #[trigger] results[j] == "PENDING"@;
            assert(results[j] == "SIGN"@);
            assert("SIGN"@.len() != "PENDING"@.len());
        }
    }
    assert(!has_result(results, "EXCHANGE"@)) by {
        if has_result(results, "EXCHANGE"@) {
            let j = choose|j: int| 0 <= j < results.len() && #[trigger] results[j] == "EXCHANGE"@;
            assert(results[j] == "SIGN"@);
            assert("SIGN"@.len() != "EXCHANGE"@.len());
        }
    }
    assert(!has_result(results, "RETURN"@)) by {
        if has_result(results, "RETURN"@) {
            let j = choose|j: int| 0 <= j < results.len() && #[trigger] results[j] == "RETURN"@;
            assert(results[j] == "SIGN"@);
            assert("SIGN"@.len() != "RETURN"@.len());
        }
    }
}

/// Law: as long as one line of an inspection is still pending, the inspection
/// is pending, whatever the other lines say.
pub proof fn law_pending_line_keeps_inspection_pending(results: Seq<Seq<char>>, i: int)
    requires
        0 <= i < results.len(),
        results[i] == "PENDING"@,
    ensures
        spec_outcome(results) == InspectionOutcome::Pending,
{
    assert(has_result(results, "PENDING"@));
}

/// The exchanged and returned quantities of a line as the customer sees them,
/// from the market's inspection of that line: an exchange shows the market's
/// inspected quantity as exchanged, a return as returned.
pub fn market_quantities(market_result: Option<&str>, market_inspected_qty: Option<Amount>) -> (r: (
    Option<Amount>,
    Option<Amount>,
))
    ensures
        r == (match market_result {
            Some(m) => if m@ == "EXCHANGE"@ {
                (market_inspected_qty, None::<Amount>)
            } else if m@ == "RETURN"@ {
                (None::<Amount>, market_inspected_qty)
            } else {
                (None::<Amount>, None::<Amount>)
            },
            None => (None::<Amount>, None::<Amount>),
        }),
{
    match market_result {
        Some(m) => {
            if text_eq(m, "EXCHANGE") {
                (market_inspected_qty, None)
            } else if text_eq(m, "RETURN") {
                (None, market_inspected_qty)
            } else {
                (None, None)
            }
        },
        None => (None, None),
    }
}

/// The inspection result shown for a round: the recorded one, or `PENDING`
/// while none is recorded.
pub fn result_or_pending(recorded: Option<String>) -> (r: String)
    ensures
        r@ == (match recorded {
            Some(s) => s@,
            None => "PENDING"@,
        }),
{
    match recorded {
        Some(s) => s,
        None => String::from_str("PENDING"),
    }
}


/// One line's total quantity accepted by the market over all its inspections.
#[derive(Clone, Copy, Debug, PartialEq, Eq)]
pub struct AcceptedTotal {
    pub order_detail_id: i32,
    /// The summed quantity; absent when the sum had no value.
    pub total_inspected_qty: Option<Amount>,
}

/// The quantity a total stands for: its sum, or zero when the sum had no value.
pub open spec fn total_qty(t: AcceptedTotal) -> Amount {
    match t.total_inspected_qty {
        Some(q) => q,
        None => zero_amount(),
    }
}

/// The accepted totals keyed by line; a later total for a line replaces an
/// earlier one.
pub open spec fn totals_by_line(totals: Seq<AcceptedTotal>) -> Map<i32, Amount>
    decreases totals.len(),
{
    if totals.len() == 0 {
        Map::empty()
    } else {
        totals_by_line(totals.drop_last()).insert(totals.last().order_detail_id, total_qty(totals.last()))
    }
}

/// The quantity still to be inspected for `detail_id`: the last total recorded
/// for that line (a missing sum counts as zero), or nothing when none is.
pub open spec fn spec_need_to_inspect(totals: Seq<AcceptedTotal>, detail_id: i32) -> Option<Amount>
    decreases totals.len(),
{
    if totals.len() == 0 {
        None
    } else if totals.last().order_detail_id == detail_id {
        Some(total_qty(totals.last()))
    } else {
        spec_need_to_inspect(totals.drop_last(), detail_id)
    }
}

/// Collects the market's accepted totals into a map from line to quantity
/// (a missing sum counts as zero; a later total for a line wins).
pub fn accepted_totals_map(totals: &Vec<AcceptedTotal>) -> (m: HashMap<i32, Amount>)
    ensures
        m@ == totals_by_line(totals@),
{
    broadcast use vstd::std_specs::hash::group_hash_axioms;
    let mut m: HashMap<i32, Amount> = HashMap::new();
    let mut i: usize = 0;
    while i < totals.len()
        invariant
            i <= totals.len(),
            m@ == totals_by_line(totals@.take(i as int)),
        decreases totals.len() - i,
    {
        let t = totals[i];
        let q = match t.total_inspected_qty {
            Some(q) => q,
            None => Amount::zero(),
        };
        m.insert(t.order_detail_id, q);
        proof {
            assert(totals@.take(i + 1).drop_last() =~= totals@.take(i as int));
        }
        i = i + 1;
    }
    assert(totals@.take(totals.len() as int) =~= totals@);
    m
}

/// The quantity a customer has to inspect on a line: what the map of
/// accepted totals holds for it, if anything.
pub fn need_to_inspect_qty(totals: &HashMap<i32, Amount>, detail_id: i32) -> (r: Option<Amount>)
    ensures
        r == (if totals@.contains_key(detail_id) {
            Some(totals@[detail_id])
        } else {
            None::<Amount>
        }),
{
    broadcast use vstd::std_specs::hash::group_hash_axioms;
    match totals.get(&detail_id) {
        Some(q) => Some(*q),
        None => None,
    }
}

/// Law: looking a line up in the map of accepted totals gives the last total
/// recorded for that line.
pub proof fn law_lookup_finds_the_last_total(totals: Seq<AcceptedTotal>, detail_id: i32)
    ensures
        (if totals_by_line(totals).contains_key(detail_id) {
            Some(totals_by_line(totals)[detail_id])
        } else {
            None::<Amount>
        }) == spec_need_to_inspect(totals, detail_id),
    decreases totals.len(),
{
    if totals.len() > 0 {
        law_lookup_finds_the_last_total(totals.drop_last(), detail_id);
    }
}


/// A lower-case hexadecimal digit (0 to 15).
pub open spec fn hex_digit(d: int) -> char {
    if d < 10 {
        crate::text::digit_char(d)
    } else if d == 10 {
        'a'
    } else if d == 11 {
        'b'
    } else if d == 12 {
        'c'
    } else if d == 13 {
        'd'
    } else if d == 14 {
        'e'
    } else {
        'f'
    }
}

/// How serde_json writes one character inside a JSON string: the quote and
/// the backslash escaped, the short escapes of backspace, tab, line feed,
/// form feed and carriage return, `\u00XX` for the other control characters,
/// and every other character as it is.
pub open spec fn json_escaped_char(c: char) -> Seq<char> {
    if c == '"' {
        seq!['\\', '"']
    } else if c == '\\' {
        seq!['\\', '\\']
    } else if c == '\u{8}' {
        seq!['\\', 'b']
    } else if c == '\t' {
        seq!['\\', 't']
    } else if c == '\n' {
        seq!['\\', 'n']
    } else if c == '\u{c}' {
        seq!['\\', 'f']
    } else if c == '\r' {
        seq!['\\', 'r']
    } else if (c as int) < 32 {
        seq!['\\', 'u', '0', '0', hex_digit((c as int) / 16), hex_digit((c as int) % 16)]
    } else {
        seq![c]
    }
}

/// The characters of a text, each escaped as in a JSON string.
pub open spec fn json_escaped(t: Seq<char>) -> Seq<char>
    decreases t.len(),
{
    if t.len() == 0 {
        Seq::empty()
    } else {
        json_escaped(t.drop_last()) + json_escaped_char(t.last())
    }
}

/// A text as a JSON string: quoted and escaped.
pub open spec fn json_string(t: Seq<char>) -> Seq<char> {
    seq!['"'] + json_escaped(t) + seq!['"']
}

/// The JSON strings of the items, separated by commas.
pub open spec fn json_items(items: Seq<Seq<char>>) -> Seq<char>
    decreases items.len(),
{
    if items.len() == 0 {
        Seq::empty()
    } else if items.len() == 1 {
        json_string(items[0])
    } else {
        json_items(items.drop_last()) + seq![','] + json_string(items.last())
    }
}

/// What `serde_json::to_string` writes for a list of texts: a JSON array of
/// JSON strings, without spaces.
pub open spec fn json_string_array(items: Seq<Seq<char>>) -> Seq<char> {
    seq!['['] + json_items(items) + seq![']']
}

/// `serde_json::to_string` of a list of texts, its error given as its text.
/// Claimed: it succeeds (serde_json fails only when a `Serialize` impl fails
/// or a map has non-string keys, and a list of strings has neither), and the
/// text is the compact JSON array that `json_string_array` spells out (the
/// escapes of serde_json's `ESCAPE` table and `write_char_escape`).
#[verifier::external_body]
fn json_of_texts(items: &Vec<String>) -> (r: Result<String, String>)
    ensures
        r is Ok,
        r matches Ok(t) ==> t@ == json_string_array(items.deep_view()),
{
    serde_json::to_string(items).map_err(|e| e.to_string())
}

/// The evidence stored with an after-sales record: the images as a JSON
/// array, or nothing when no image was given.
pub fn evidence_json(images: Option<&Vec<String>>) -> (r: Result<Option<String>, AppError>)
    ensures
        match images {
            Some(v) => if v@.len() == 0 {
                r == Ok::<Option<String>, AppError>(None)
            } else {
                r matches Ok(Some(t)) && t@ == json_string_array(v.deep_view())
            },
            None => r == Ok::<Option<String>, AppError>(None),
        },
{
    match images {
        Some(v) => {
            if v.len() == 0 {
                Ok(None)
            } else {
                match json_of_texts(v) {
                    Ok(t) => Ok(Some(t)),
                    Err(e) => {
                        let m = join2("Failed to serialize evidence: ", e.as_str());
                        proof {
                            reveal_strlit("Failed to serialize evidence: ");
                            assert(m@.subrange(0, 30) =~= "Failed to serialize evidence: "@);
                        }
                        Err(AppError::Internal(m))
                    },
                }
            }
        },
        None => Ok(None),
    }
}

} // verus!
