//! The calls into outside crates that the game's logic makes: JSON decoding (`serde_json`,
//! as `near_sdk` re-exports it), account-id validation and the storage price (`near_sdk`),
//! and dice (`rand`).
use vstd::prelude::*;
use near_sdk::serde_json::Value;
use rand::Rng;

verus! {

/// What `serde_json::from_slice::<near_sdk::json_types::U128>` makes of `bytes`: the number
/// written, in decimal, inside a JSON string, or `None` where `bytes` is no such document.
pub uninterp spec fn json_u128(bytes: Seq<u8>) -> Option<u128>;

/// Calls `near_sdk::serde_json::from_slice::<U128>`. Claimed: the result is a function of the
/// bytes alone (`json_u128`); nothing is claimed of which bytes decode to which number.
#[verifier::external_body]
pub(crate) fn parse_json_u128(bytes: &Vec<u8>) -> (r: Option<u128>)
    ensures
        r == json_u128(bytes@),
{
    match near_sdk::serde_json::from_slice::<near_sdk::json_types::U128>(bytes) {
        Ok(v) => Some(v.0),
        Err(_) => None,
    }
}

/// Whether `text` is a JSON document whose top level has a member named `key`, as
/// `serde_json::from_str::<Value>` and `Value::get` find it.
pub uninterp spec fn json_has_member(text: Seq<char>, key: Seq<char>) -> bool;

/// The boolean that `text`, parsed by `serde_json::from_str::<Value>`, holds in member
/// `inner` of its member `outer` (`Value::get`, then `Value::as_bool`); `None` where there is
/// no such boolean.
pub uninterp spec fn json_bool_at(text: Seq<char>, outer: Seq<char>, inner: Seq<char>) -> Option<bool>;

/// The integer that fits a `u64` that `text`, parsed by `serde_json::from_str::<Value>`,
/// holds in member `inner` of its member `outer` (`Value::get`, then `Value::as_u64`); `None`
/// where there is no such integer.
pub uninterp spec fn json_u64_at(text: Seq<char>, outer: Seq<char>, inner: Seq<char>) -> Option<u64>;

/// Parses `text` with `serde_json::from_str::<Value>` and looks up member `key` with
/// `Value::get`. Claimed: the answer is a function of `text` and `key` alone.
#[verifier::external_body]
pub(crate) fn has_json_member(text: &String, key: &str) -> (r: bool)
    ensures
        r == json_has_member(text@, key@),
{
    match near_sdk::serde_json::from_str::<Value>(text) {
        Ok(v) => v.get(key).is_some(),
        Err(_) => false,
    }
}

/// Parses `text` with `serde_json::from_str::<Value>`, looks up `outer` then `inner` with
/// `Value::get`, and reads the result with `Value::as_bool`. Claimed: the answer is a
/// function of the three arguments alone.
#[verifier::external_body]
pub(crate) fn json_bool_member(text: &String, outer: &str, inner: &str) -> (r: Option<bool>)
    ensures
        r == json_bool_at(text@, outer@, inner@),
{
    match near_sdk::serde_json::from_str::<Value>(text) {
        Ok(v) => match v.get(outer) {
            Some(p) => match p.get(inner) {
                Some(x) => x.as_bool(),
                None => None,
            },
            None => None,
        },
        Err(_) => None,
    }
}

/// Parses `text` with `serde_json::from_str::<Value>`, looks up `outer` then `inner` with
/// `Value::get`, and reads the result with `Value::as_u64`. Claimed: the answer is a
/// function of the three arguments alone.
#[verifier::external_body]
pub(crate) fn json_u64_member(text: &String, outer: &str, inner: &str) -> (r: Option<u64>)
    ensures
        r == json_u64_at(text@, outer@, inner@),
{
    match near_sdk::serde_json::from_str::<Value>(text) {
        Ok(v) => match v.get(outer) {
            Some(p) => match p.get(inner) {
                Some(x) => x.as_u64(),
                None => None,
            },
            None => None,
        },
        Err(_) => None,
    }
}

/// A byte that may separate the parts of an account id: `-`, `_` or `.`.
pub open spec fn is_account_separator(c: u8) -> bool {
    c == 45u8 || c == 95u8 || c == 46u8
}

/// A byte that may stand in an account id: a lower-case letter, a digit or a separator.
pub open spec fn is_account_byte(c: u8) -> bool {
    (97u8 <= c && c <= 122u8) || (48u8 <= c && c <= 57u8) || is_account_separator(c)
}

/// A valid NEAR account id: 2 to 64 bytes of lower-case letters, digits and separators, which
/// neither starts nor ends with a separator and holds no two separators in a row.
pub open spec fn valid_account_id(id: Seq<u8>) -> bool {
    &&& 2 <= id.len() <= 64
    &&& forall|i: int| 0 <= i < id.len() ==> is_account_byte(#[trigger] id[i])
    &&& !is_account_separator(id[0])
    &&& !is_account_separator(id[id.len() - 1])
    &&& forall|i: int|
        0 <= i < id.len() - 1 ==> !(is_account_separator(#[trigger] id[i]) && is_account_separator(
            id[i + 1],
        ))
}

/// Calls `near_sdk::env::is_valid_account_id`, whose source checks exactly
/// `valid_account_id`.
#[verifier::external_body]
pub(crate) fn is_valid_account_id(account_id: &[u8]) -> (r: bool)
    ensures
        r == valid_account_id(account_id@),
{
    near_sdk::env::is_valid_account_id(account_id)
}

/// The price of one byte of storage, in yoctoNEAR.
pub open spec fn storage_price_per_byte() -> u128 {
    10_000_000_000_000_000_000u128
}

/// Calls `near_sdk::env::storage_byte_cost`, which returns the constant
/// `STORAGE_PRICE_PER_BYTE` of near-sdk, 10^19 yoctoNEAR.
#[verifier::external_body]
pub(crate) fn storage_byte_cost() -> (r: u128)
    ensures
        r == storage_price_per_byte(),
{
    near_sdk::env::storage_byte_cost()
}

/// Calls `rand::thread_rng().gen_range(low..high)`: a number drawn from `low..high` by the
/// thread's random generator. Which one is not stated; it differs from call to call.
#[verifier::external_body]
pub(crate) fn random_in_range(low: usize, high: usize) -> (r: usize)
    requires
        low < high,
    ensures
        low <= r < high,
{
    rand::thread_rng().gen_range(low..high)
}

} // verus!
