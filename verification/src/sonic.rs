//! What the catalog makes of the search index's answers: the ids of the
//! games found, and the message for a search that failed.

use vstd::prelude::*;
use vstd::string::StringExecFns;

verus! {

/// The value of a decimal digit; `None` for any other character.
pub open spec fn digit(c: char) -> Option<nat> {
    if c == '0' {
        Some(0)
    } else if c == '1' {
        Some(1)
    } else if c == '2' {
        Some(2)
    } else if c == '3' {
        Some(3)
    } else if c == '4' {
        Some(4)
    } else if c == '5' {
        Some(5)
    } else if c == '6' {
        Some(6)
    } else if c == '7' {
        Some(7)
    } else if c == '8' {
        Some(8)
    } else if c == '9' {
        Some(9)
    } else {
        None
    }
}

/// Every character is a decimal digit.
pub open spec fn all_digits(text: Seq<char>) -> bool {
    forall|i: int| 0 <= i < text.len() ==> digit(#[trigger] text[i]).is_some()
}

/// The number that a row of decimal digits writes.
pub open spec fn digits_value(text: Seq<char>) -> nat
    decreases text.len(),
{
    if text.len() == 0 {
        0
    } else {
        10 * digits_value(text.drop_last()) + digit(text.last()).unwrap()
    }
}

/// The number that a text writes in decimal: an optional `+`, then one or
/// more digits and nothing else, with a value that fits. `None` for every
/// other text.
pub open spec fn decimal_u32(text: Seq<char>) -> Option<u32> {
    let digits = if text.len() > 0 && text[0] == '+' {
        text.skip(1)
    } else {
        text
    };
    if digits.len() > 0 && all_digits(digits) && digits_value(digits) <= u32::MAX {
        Some(digits_value(digits) as u32)
    } else {
        None
    }
}

/// `str::parse::<u32>`. Trusted: the text is read as std documents it for an
/// unsigned integer, which is what `decimal_u32` states: an optional `+`
/// followed by only digits, an error for an empty text, for any other
/// character and for a value that does not fit.
#[verifier::external_body]
fn parse_u32(text: &str) -> (r: Option<u32>)
    ensures
        r == decimal_u32(text@),
{
    text.parse::<u32>().ok()
}

/// Every entry holds a number.
pub open spec fn all_given(parsed: Seq<Option<u32>>) -> bool {
    forall|i: int| 0 <= i < parsed.len() ==> (#[trigger] parsed[i]).is_some()
}

/// The numbers of the entries, in order.
pub open spec fn numbers(parsed: Seq<Option<u32>>) -> Seq<u32> {
    Seq::new(parsed.len(), |i: int| parsed[i].unwrap())
}

/// What the index's candidates read as, one by one.
pub open spec fn read_each(candidates: Seq<String>) -> Seq<Option<u32>> {
    Seq::new(candidates.len(), |i: int| decimal_u32(candidates[i]@))
}

/// The numbers of all entries, in order; `None` if an entry holds none.
pub fn gather_ids(parsed: &Vec<Option<u32>>) -> (r: Option<Vec<u32>>)
    ensures
        r.is_some() == all_given(parsed@),
        r matches Some(ids) ==> ids@ == numbers(parsed@),
{
    let mut ids: Vec<u32> = Vec::new();
    let mut at: usize = 0;
    while at < parsed.len()
        invariant
            at <= parsed.len(),
            ids.len() == at,
            forall|i: int| 0 <= i < at ==> (#[trigger] parsed@[i]).is_some(),
            forall|i: int| 0 <= i < at ==> #[trigger] ids@[i] == parsed@[i].unwrap(),
        decreases parsed.len() - at,
    {
        match parsed[at] {
            Some(id) => {
                ids.push(id);
            },
            None => {
                return None;
            },
        }
        at = at + 1;
    }
    assert(ids@ =~= numbers(parsed@));
    Some(ids)
}

/// The ids of the games that the index found, read from its candidates;
/// `None` if a candidate is no id.
pub fn parse_ids(candidates: &Vec<String>) -> (r: Option<Vec<u32>>)
    ensures
        r.is_some() == all_given(read_each(candidates@)),
        r matches Some(ids) ==> ids@ == numbers(read_each(candidates@)),
{
    let mut parsed: Vec<Option<u32>> = Vec::new();
    let mut at: usize = 0;
    while at < candidates.len()
        invariant
            at <= candidates.len(),
            parsed.len() == at,
            forall|i: int| 0 <= i < at ==> #[trigger] parsed@[i] == decimal_u32(candidates@[i]@),
        decreases candidates.len() - at,
    {
        parsed.push(parse_u32(candidates[at].as_str()));
        at = at + 1;
    }
    assert(parsed@ =~= read_each(candidates@));
    gather_ids(&parsed)
}

/// The message for a search that the index turned down: a fixed opening,
/// then the index's own words.
pub open spec fn read_failure(detail: Seq<char>) -> Seq<char> {
    "Failed while reading from sonic:"@ + detail
}

pub fn read_failure_text(detail: &str) -> (text: String)
    ensures
        text@ == read_failure(detail@),
{
    let mut text = "Failed while reading from sonic:".to_string();
    text.append(detail);
    text
}

} // verus!
