//! The snapshot's text form, written and read by serde_json: a JSON list of
//! `[user, channel]` pairs of integers.
use vstd::prelude::*;

verus! {

/// The decimal digits of `n`, without leading zeros.
pub open spec fn decimal(n: nat) -> Seq<char>
    decreases n,
{
    let digit = seq!['0', '1', '2', '3', '4', '5', '6', '7', '8', '9'][(n % 10) as int];
    if n < 10 {
        seq![digit]
    } else {
        decimal(n / 10).push(digit)
    }
}

/// One record as a JSON list: `[user,channel]`.
pub open spec fn json_of_record(record: (u64, u64)) -> Seq<char> {
    seq!['['] + decimal(record.0 as nat) + seq![','] + decimal(record.1 as nat) + seq![']']
}

/// The records as JSON lists, separated by commas.
pub open spec fn json_of_record_list(records: Seq<(u64, u64)>) -> Seq<char>
    decreases records.len(),
{
    if records.len() == 0 {
        Seq::empty()
    } else if records.len() == 1 {
        json_of_record(records[0])
    } else {
        json_of_record_list(records.drop_last()) + seq![','] + json_of_record(records.last())
    }
}

/// The compact JSON text of a list of records: `[[1,10],[2,20]]`.
pub open spec fn json_of_records(records: Seq<(u64, u64)>) -> Seq<char> {
    seq!['['] + json_of_record_list(records) + seq![']']
}

/// The records that serde_json reads from a text, or `None` where it refuses
/// the text.
pub uninterp spec fn records_of_json(text: Seq<char>) -> Option<Seq<(u64, u64)>>;

#[verifier::external_type_specification]
#[verifier::external_body]
pub struct ExJsonError(serde_json::Error);

/// Relies on serde_json::to_string: a list of integer pairs is written as
/// compact JSON, and its serialization cannot fail (no map keys, no fallible
/// `Serialize` impl, and the output goes into memory).
#[verifier::external_body]
pub(crate) fn encode_records(records: &Vec<(u64, u64)>) -> (r: Result<String, serde_json::Error>)
    ensures
        r is Ok,
        r matches Ok(text) ==> text@ == json_of_records(records@),
{
    serde_json::to_string(records)
}

/// Relies on serde_json::from_str: the records read from the text, which
/// depend on the text alone; an error where the text is not such a list.
#[verifier::external_body]
pub(crate) fn decode_records(text: &str) -> (r: Result<Vec<(u64, u64)>, serde_json::Error>)
    ensures
        match r {
            Ok(records) => records_of_json(text@) == Some(records@),
            Err(_) => records_of_json(text@) is None,
        },
{
    serde_json::from_str(text)
}

} // verus!
