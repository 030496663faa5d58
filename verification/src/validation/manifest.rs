//! Manifest identifier and metadata validation.
use vstd::prelude::*;
use crate::c2pa::manifest::{ManifestMetadata, urn_fields};
use crate::error::{Error, Result};
use crate::hash::{hash_length_message, not_hex_message, valid_hash_len, validate_hash_format};
use crate::ident::{parse_uuid, uuid_parsed};
use crate::text::{
    all_hex_digits, alphanumeric, chars_of, concat3, has_prefix, is_alphanumeric, parse_u32,
    split_fields, split_on, starts_with, u32_from_decimal, utf8_len,
};

verus! {

/// What is wrong with a C2PA URN that starts `urn:c2pa:`, if anything: it
/// needs a UUID as third field, and a fifth field, if any, must be two
/// numbers joined by `_`.
pub open spec fn urn_format_problem(urn: Seq<char>) -> Option<Seq<char>> {
    let p = urn_fields(urn);
    if p.len() < 3 {
        Some("Invalid C2PA URN format"@)
    } else if uuid_parsed(p[2]) is None {
        Some("Invalid UUID in C2PA URN: '"@ + p[2] + "'"@)
    } else if p.len() >= 5 {
        let vr = split_fields(p[4], '_');
        if vr.len() != 2 {
            Some("Invalid version_reason format"@)
        } else if u32_from_decimal(vr[0]) is None || u32_from_decimal(vr[1]) is None {
            Some("Invalid version or reason code"@)
        } else {
            None
        }
    } else {
        None
    }
}

/// Validates the format of a URN that starts `urn:c2pa:`.
fn validate_c2pa_urn_format(urn: &str) -> (r: Result<()>)
    ensures
        urn_format_problem(urn@) is None ==> r is Ok,
        urn_format_problem(urn@) matches Some(m) ==> (r matches Err(Error::Validation(e)) && e@
            == m),
{
    let parts = split_on(urn, ':');
    let ghost p = urn_fields(urn@);
    if parts.len() < 3 {
        return Err(Error::Validation(String::from_str("Invalid C2PA URN format")));
    }
    assert(parts@[2]@ == p[2]);
    if parse_uuid(parts[2].as_str()).is_err() {
        return Err(
            Error::Validation(concat3("Invalid UUID in C2PA URN: '", parts[2].as_str(), "'")),
        );
    }
    if parts.len() >= 5 {
        assert(parts@[4]@ == p[4]);
        let vr = split_on(parts[4].as_str(), '_');
        if vr.len() != 2 {
            return Err(Error::Validation(String::from_str("Invalid version_reason format")));
        }
        assert(vr@[0]@ == split_fields(p[4], '_')[0]);
        assert(vr@[1]@ == split_fields(p[4], '_')[1]);
        if parse_u32(vr[0].as_str()).is_none() || parse_u32(vr[1].as_str()).is_none() {
            return Err(Error::Validation(String::from_str("Invalid version or reason code")));
        }
    }
    Ok(())
}

/// A character that may stand in a plain manifest identifier.
pub open spec fn id_char(c: char) -> bool {
    alphanumeric(c) || c == '-' || c == '_'
}

/// What is wrong with a manifest identifier, if anything. A C2PA URN is
/// checked as such, a UUID is accepted, and anything else may only hold
/// alphanumeric characters, `-` and `_`.
pub open spec fn manifest_id_problem(id: Seq<char>) -> Option<Seq<char>> {
    if id.len() == 0 {
        Some("Manifest ID cannot be empty"@)
    } else if has_prefix(id, "urn:c2pa:"@) {
        urn_format_problem(id)
    } else if uuid_parsed(id) is Some {
        None
    } else if !(forall|i: int| 0 <= i < id.len() ==> id_char(#[trigger] id[i])) {
        Some("Invalid manifest ID format: '"@ + id + "'"@)
    } else {
        None
    }
}

/// Validates a manifest identifier: a C2PA URN
/// (`urn:c2pa:UUID[:claim_generator[:version_reason]]`), a plain UUID, or
/// alphanumeric characters with hyphens and underscores.
pub fn validate_manifest_id(id: &str) -> (r: Result<()>)
    ensures
        manifest_id_problem(id@) is None ==> r is Ok,
        manifest_id_problem(id@) matches Some(m) ==> (r matches Err(Error::Validation(e)) && e@
            == m),
{
    if id.is_empty() {
        return Err(Error::Validation(String::from_str("Manifest ID cannot be empty")));
    }
    if starts_with(id, "urn:c2pa:") {
        validate_c2pa_urn_format(id)?;
    } else if parse_uuid(id).is_ok() {
    } else {
        let cs = chars_of(id);
        let mut i: usize = 0;
        while i < cs.len()
            invariant
                cs@ == id@,
                i <= cs@.len(),
                id@.len() > 0,
                !has_prefix(id@, "urn:c2pa:"@),
                uuid_parsed(id@) is None,
                forall|j: int| 0 <= j < i ==> id_char(#[trigger] cs@[j]),
            decreases cs@.len() - i,
        {
            let c = cs[i];
            if !(is_alphanumeric(c) || c == '-' || c == '_') {
                assert(!id_char(id@[i as int]));
                return Err(Error::Validation(concat3("Invalid manifest ID format: '", id, "'")));
            }
            i += 1;
        }
    }
    Ok(())
}

/// What is wrong with manifest metadata, if anything: its identifier, an
/// empty name, or the format of its hash.
pub open spec fn metadata_problem(m: ManifestMetadata) -> Option<Seq<char>> {
    if manifest_id_problem(m.id@) is Some {
        manifest_id_problem(m.id@)
    } else if m.name@.len() == 0 {
        Some("Manifest name cannot be empty"@)
    } else {
        match m.hash {
            Some(h) => if !all_hex_digits(h@) {
                Some(not_hex_message())
            } else if !valid_hash_len(utf8_len(h@)) {
                Some(hash_length_message(utf8_len(h@)))
            } else {
                None
            },
            None => None,
        }
    }
}

/// Validates manifest metadata: the identifier is valid, the name is not
/// empty, and the hash, if present, is well formed.
pub fn validate_manifest_metadata(metadata: &ManifestMetadata) -> (r: Result<()>)
    ensures
        metadata_problem(*metadata) is None ==> r is Ok,
        metadata_problem(*metadata) matches Some(m) ==> (r matches Err(Error::Validation(e))
            && e@ == m),
{
    validate_manifest_id(metadata.id.as_str())?;
    if metadata.name.as_str().is_empty() {
        return Err(Error::Validation(String::from_str("Manifest name cannot be empty")));
    }
    if let Some(hash) = &metadata.hash {
        validate_hash_format(hash.as_str())?;
    }
    Ok(())
}

/// Identifiers that are not C2PA URNs: the empty one is refused; one whose
/// characters are all alphanumeric (letters and digits of either case, and
/// beyond ASCII what Unicode counts as alphanumeric), `-` or `_` is
/// accepted, and so is a UUID; any other is refused with the format error.
pub proof fn plain_manifest_ids(id: Seq<char>)
    requires
        !has_prefix(id, "urn:c2pa:"@),
    ensures
        id.len() == 0 ==> manifest_id_problem(id) == Some("Manifest ID cannot be empty"@),
        id.len() > 0 && (forall|i: int|
            0 <= i < id.len() ==> alphanumeric(#[trigger] id[i]) || id[i] == '-' || id[i] == '_')
            ==> manifest_id_problem(id) is None,
        id.len() > 0 && (forall|i: int|
            0 <= i < id.len() ==> ('0' <= #[trigger] id[i] <= '9') || ('a' <= id[i] <= 'z') || (
            'A' <= id[i] <= 'Z') || id[i] == '-' || id[i] == '_') ==> manifest_id_problem(id)
            is None,
        id.len() > 0 && uuid_parsed(id) is Some ==> manifest_id_problem(id) is None,
        uuid_parsed(id) is None && (exists|i: int|
            0 <= i < id.len() && !(alphanumeric(#[trigger] id[i]) || id[i] == '-' || id[i]
                == '_')) ==> manifest_id_problem(id) == Some(
            "Invalid manifest ID format: '"@ + id + "'"@,
        ),
{
    assert forall|i: int|
        0 <= i < id.len() && (('0' <= id[i] <= '9') || ('a' <= id[i] <= 'z') || ('A' <= id[i]
            <= 'Z')) implies alphanumeric(#[trigger] id[i]) by {}
}

/// Manifest metadata passes exactly when its identifier passes, its name
/// is not empty, and its hash, if it has one, passes `validate_hash_format`;
/// a hash that is not hexadecimal is reported as such. The manifest type
/// plays no part.
pub proof fn metadata_validation(m: ManifestMetadata)
    ensures
        metadata_problem(m) is None <==> (manifest_id_problem(m.id@) is None && m.name@.len() > 0
            && (m.hash matches Some(h) ==> all_hex_digits(h@) && valid_hash_len(utf8_len(h@)))),
        manifest_id_problem(m.id@) is Some ==> metadata_problem(m) == manifest_id_problem(m.id@),
        manifest_id_problem(m.id@) is None && m.name@.len() == 0 ==> metadata_problem(m) == Some(
            "Manifest name cannot be empty"@,
        ),
        manifest_id_problem(m.id@) is None && m.name@.len() > 0 ==> (m.hash matches Some(h) ==> (
        !all_hex_digits(h@) ==> metadata_problem(m) == Some(not_hex_message())) && (
        all_hex_digits(h@) && !valid_hash_len(utf8_len(h@)) ==> metadata_problem(m) == Some(
            hash_length_message(utf8_len(h@)),
        ))),
{
}

/// Two metadata records that differ only in their manifest type pass or
/// fail validation alike, with the same message.
pub proof fn metadata_validation_ignores_type(a: ManifestMetadata, b: ManifestMetadata)
    requires
        a.id@ == b.id@,
        a.name@ == b.name@,
        a.hash.is_some() == b.hash.is_some(),
        a.hash matches Some(h) ==> b.hash matches Some(k) && h@ == k@,
    ensures
        metadata_problem(a) == metadata_problem(b),
{
}

} // verus!
