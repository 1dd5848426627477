//! The request to the remote entropy service and the reading of its reply.
//!
//! The service is asked with
//! `GET https://qrng.anu.edu.au/API/jsonI.php?length=<n>&type=uint16` and
//! answers with a JSON object whose field `data` is an array of unsigned
//! sixteen-bit numbers.

use crate::decimal::{append_decimal, decimal_text};
use crate::error::SealError;
use vstd::prelude::*;

verus! {

/// `serde_json::Error`, which the parser returns for a text that is not
/// JSON. Nothing inside it is read here.
#[verifier::external_type_specification]
#[verifier::external_body]
pub struct ExJsonError(serde_json::Error);

/// What `field` of the JSON document `body` holds, read as an array of
/// unsigned numbers: `None` where `body` is not JSON; `Some(None)` where it
/// is, but is no object with an array under `field`; else the array, item by
/// item, each item as `serde_json::Value::as_u64` gives it: the number for an
/// integer that a `u64` can hold, `None` for anything else.
pub uninterp spec fn json_unsigned_array(body: Seq<char>, field: Seq<char>) -> Option<
    Option<Seq<Option<u64>>>,
>;

/// What a decoded reply is in terms of [`json_unsigned_array`].
pub open spec fn decoded_view(
    decoded: Result<Option<Vec<Option<u64>>>, serde_json::Error>,
) -> Option<Option<Seq<Option<u64>>>> {
    match decoded {
        Err(_) => None,
        Ok(None) => Some(None),
        Ok(Some(items)) => Some(Some(items@)),
    }
}

/// Parses `body` with `serde_json::from_str` into a `serde_json::Value`,
/// looks `field` up with `Value::get`, takes the array with
/// `Value::as_array` and reads each item with `Value::as_u64`. Trusted: the
/// outcome depends on the two texts alone. An error is what `from_str`
/// returned; a missing field and a field that is no array both give
/// `Ok(None)`; the items keep their order.
#[verifier::external_body]
fn decode_unsigned_array(body: &str, field: &str) -> (decoded: Result<
    Option<Vec<Option<u64>>>,
    serde_json::Error,
>)
    ensures
        decoded_view(decoded) == json_unsigned_array(body@, field@),
{
    let document: serde_json::Value = serde_json::from_str(body)?;
    Ok(
        document.get(field).and_then(|found| found.as_array()).map(
            |items| items.iter().map(|item| item.as_u64()).collect(),
        ),
    )
}

/// The address that asks the service for `batch_size` sixteen-bit numbers.
pub open spec fn request_url(batch_size: nat) -> Seq<char> {
    "https://qrng.anu.edu.au/API/jsonI.php?length="@ + decimal_text(batch_size) + "&type=uint16"@
}

/// Builds the address that asks the service for `batch_size` numbers.
pub fn entropy_request_url(batch_size: usize) -> (url: String)
    ensures
        url@ == request_url(batch_size as nat),
{
    let mut url = String::from_str("https://qrng.anu.edu.au/API/jsonI.php?length=");
    append_decimal(&mut url, batch_size as u64);
    url.append("&type=uint16");
    url
}

/// The service is asked for sixteen-bit numbers: an item of its reply lies
/// below this bound.
pub const ITEM_RANGE: u64 = 65536;

/// An item of the right type: an unsigned integer that sixteen bits can
/// hold. A string, a fraction, a negative number and a number from 65536 on
/// are all of the wrong type.
pub open spec fn is_entropy_item(item: Option<u64>) -> bool {
    item matches Some(n) && n < ITEM_RANGE
}

/// Every item of the array is of the right type.
pub open spec fn all_entropy_items(items: Seq<Option<u64>>) -> bool {
    forall|i: int| 0 <= i < items.len() ==> is_entropy_item(#[trigger] items[i])
}

/// The numbers that an array of well-typed items holds, in order.
pub open spec fn numbers_of(items: Seq<Option<u64>>) -> Seq<u64>
    recommends
        all_entropy_items(items),
{
    Seq::new(items.len(), |i: int| items[i]->0)
}

/// What a reply gives, by what was decoded from it: a fetch failure where
/// the reply is not JSON; a parse failure where the JSON has no array under
/// the field, or the array holds an item of the wrong type; else the numbers
/// of the array, in order.
pub open spec fn reply_outcome(decoded: Option<Option<Seq<Option<u64>>>>) -> Result<
    Seq<u64>,
    SealError,
> {
    match decoded {
        None => Err(SealError::EntropyFetchFailed),
        Some(None) => Err(SealError::EntropyParseFailed),
        Some(Some(items)) => if all_entropy_items(items) {
            Ok(numbers_of(items))
        } else {
            Err(SealError::EntropyParseFailed)
        },
    }
}

/// True if `result` is the outcome `expected`, the numbers compared as
/// sequences.
pub open spec fn is_outcome(result: Result<Vec<u64>, SealError>, expected: Result<
    Seq<u64>,
    SealError,
>) -> bool {
    match expected {
        Ok(numbers) => result is Ok && result->Ok_0@ == numbers,
        Err(e) => result == Err::<Vec<u64>, SealError>(e),
    }
}

/// Turns the items of a reply's array into numbers, in order. One item of
/// the wrong type spoils the whole array: the result is `None`.
pub fn numbers_from_items(items: &Vec<Option<u64>>) -> (numbers: Option<Vec<u64>>)
    ensures
        numbers is Some <==> all_entropy_items(items@),
        numbers matches Some(found) ==> found@ == numbers_of(items@),
        numbers matches Some(found) ==> forall|i: int|
            0 <= i < found@.len() ==> found@[i] < ITEM_RANGE,
{
    let mut numbers: Vec<u64> = Vec::new();
    let mut i: usize = 0;
    while i < items.len()
        invariant
            i <= items.len(),
            numbers@.len() == i,
            forall|k: int| 0 <= k < i ==> is_entropy_item(#[trigger] items@[k]),
            forall|k: int| 0 <= k < i ==> numbers@[k] == items@[k]->0,
        decreases items.len() - i,
    {
        match items[i] {
            Some(n) => {
                if n >= ITEM_RANGE {
                    assert(!is_entropy_item(items@[i as int]));
                    return None;
                }
                numbers.push(n);
            },
            None => {
                assert(!is_entropy_item(items@[i as int]));
                return None;
            },
        }
        i += 1;
    }
    assert(numbers@ =~= numbers_of(items@));
    Some(numbers)
}

/// Decides what a decoded reply gives: its numbers, or the failure that ends
/// the append.
pub fn entropy_from_decoded(decoded: Option<Option<Vec<Option<u64>>>>) -> (result: Result<
    Vec<u64>,
    SealError,
>)
    ensures
        is_outcome(
            result,
            reply_outcome(
                match decoded {
                    None => None,
                    Some(None) => Some(None),
                    Some(Some(items)) => Some(Some(items@)),
                },
            ),
        ),
        result matches Ok(found) ==> forall|i: int|
            0 <= i < found@.len() ==> found@[i] < ITEM_RANGE,
{
    match decoded {
        None => Err(SealError::EntropyFetchFailed),
        Some(None) => Err(SealError::EntropyParseFailed),
        Some(Some(items)) => match numbers_from_items(&items) {
            Some(numbers) => Ok(numbers),
            None => Err(SealError::EntropyParseFailed),
        },
    }
}

/// Reads the body of the service's reply: the sixteen-bit numbers under
/// `data`, in order, or the failure.
pub fn parse_entropy_reply(body: &str) -> (result: Result<Vec<u64>, SealError>)
    ensures
        is_outcome(result, reply_outcome(json_unsigned_array(body@, "data"@))),
        result matches Ok(found) ==> forall|i: int|
            0 <= i < found@.len() ==> found@[i] < ITEM_RANGE,
{
    match decode_unsigned_array(body, "data") {
        Err(_) => entropy_from_decoded(None),
        Ok(found) => entropy_from_decoded(Some(found)),
    }
}

} // verus!
