//! Hash validation.
use vstd::prelude::*;
use crate::error::{Error, Result};
use crate::hash::{hash_length_message, not_hex_message, valid_hash_len, validate_hash_format};
use crate::text::{all_hex_digits, utf8_len};

verus! {

/// Validates the format of a manifest hash, as `validate_hash_format` does.
pub fn validate_manifest_hash(hash: &str) -> (r: Result<()>)
    ensures
        r is Ok <==> all_hex_digits(hash@) && valid_hash_len(utf8_len(hash@)),
        !all_hex_digits(hash@) ==> (r matches Err(Error::Validation(m)) && m@ == not_hex_message()),
        all_hex_digits(hash@) && !valid_hash_len(utf8_len(hash@)) ==> (r matches Err(
            Error::Validation(m),
        ) && m@ == hash_length_message(utf8_len(hash@))),
{
    validate_hash_format(hash)
}

} // verus!
