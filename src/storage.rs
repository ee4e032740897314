//! Keys of the key-value data files: which keys are accepted, and the file
//! name that a key is stored under.
use vstd::prelude::*;
use crate::text::{alphanumeric, is_alphanumeric};

verus! {

/// A key character: alphanumeric or an underscore.
pub open spec fn key_char(c: char) -> bool {
    alphanumeric(c) || c == '_'
}

/// A key is accepted when it is not empty and every character is a key character.
pub open spec fn valid_key(k: Seq<char>) -> bool {
    k.len() > 0 && forall|i: int| 0 <= i < k.len() ==> key_char(#[trigger] k[i])
}

/// The message for an empty key.
pub open spec fn empty_key_message() -> Seq<char> {
    "Key must not be empty"@
}

/// The message for a key with a character that is not accepted.
pub open spec fn invalid_key_message(k: Seq<char>) -> Seq<char> {
    "Invalid key '"@ + k + "': only alphanumeric and underscore allowed"@
}

/// Checks a data-file key: `Ok` exactly for a valid key; otherwise the
/// error says whether it was empty or held another character.
pub fn validate_key(key: &str) -> (r: Result<(), String>)
    ensures
        r is Ok <==> valid_key(key@),
        key@.len() == 0 ==> r is Err && r->Err_0@ == empty_key_message(),
        key@.len() > 0 && !valid_key(key@) ==> r is Err && r->Err_0@ == invalid_key_message(key@),
{
    if key.is_empty() {
        return Err(String::from_str("Key must not be empty"));
    }
    let n = key.unicode_len();
    let mut i: usize = 0;
    while i < n
        invariant
            n == key@.len(),
            i <= n,
            forall|j: int| 0 <= j < i ==> key_char(#[trigger] key@[j]),
        decreases n - i,
    {
        let c = key.get_char(i);
        if !(is_alphanumeric(c) || c == '_') {
            let mut msg = String::from_str("Invalid key '");
            msg.append(key);
            msg.append("': only alphanumeric and underscore allowed");
            return Err(msg);
        }
        i = i + 1;
    }
    Ok(())
}

/// The file name that a data key is stored under: the key with `.json`
/// appended, or the key's validation error.
pub fn data_file_name(key: &str) -> (r: Result<String, String>)
    ensures
        r is Ok <==> valid_key(key@),
        r is Ok ==> r->Ok_0@ == key@ + ".json"@,
        key@.len() == 0 ==> r is Err && r->Err_0@ == empty_key_message(),
        key@.len() > 0 && !valid_key(key@) ==> r is Err && r->Err_0@ == invalid_key_message(key@),
{
    match validate_key(key) {
        Ok(()) => {
            let mut name = String::from_str(key);
            name.append(".json");
            Ok(name)
        },
        Err(e) => Err(e),
    }
}

} // verus!
