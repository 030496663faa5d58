//! C2PA URN validation.
use vstd::prelude::*;
use crate::c2pa::manifest::{
    c2pa_fields, lemma_uuid_urn_fields, lemma_versioned_urn_fields, urn_fields, versioned_urn,
};
use crate::validation::manifest::manifest_id_problem;
use crate::error::{Error, Result};
use crate::ident::{
    Uuid, format_uuid, parse_uuid, random_uuid, uuid_error_text, uuid_parsed, uuid_text_of,
    uuid_version,
};
use crate::text::{
    concat3, has_prefix, lemma_split_first_field, parse_u32, split_fields, split_on, starts_with,
    str_eq, u32_from_decimal,
};

verus! {

/// The text to put in front of a UUID to make a C2PA URN.
pub open spec fn urn_prefix() -> Seq<char> {
    "urn:c2pa:"@
}

/// Ensures an identifier is a C2PA URN: a URN is kept, a UUID gets the
/// `urn:c2pa:` prefix (in hyphenated lowercase form), and anything else is
/// replaced by the URN of a new random UUID.
pub fn ensure_c2pa_urn(id: &str) -> (r: String)
    ensures
        has_prefix(r@, urn_prefix()),
        has_prefix(id@, urn_prefix()) ==> r@ == id@,
        !has_prefix(id@, urn_prefix()) && uuid_parsed(id@) is Some ==> r@ == urn_prefix()
            + uuid_text_of(uuid_parsed(id@)->0),
        !has_prefix(id@, urn_prefix()) && uuid_parsed(id@) is None ==> exists|v: u128|
            uuid_version(v) == 4 && r@ == urn_prefix() + uuid_text_of(v),
        !has_prefix(id@, urn_prefix()) ==> c2pa_urn_problem(r@) is None && manifest_id_problem(
            r@,
        ) is None,
{
    proof {
        reveal_strlit("urn:c2pa:");
        reveal_strlit("");
    }
    if starts_with(id, "urn:c2pa:") {
        return String::from_str(id);
    }
    let v = match parse_uuid(id) {
        Ok(v) => v,
        Err(_) => random_uuid(),
    };
    let text = format_uuid(v);
    let r = concat3("urn:c2pa:", text.as_str(), "");
    assert(r@.take(9) =~= urn_prefix());
    assert(r@ =~= urn_prefix() + uuid_text_of(v));
    proof {
        uuid_urn_is_valid(v);
    }
    r
}

/// The URN of a UUID, `urn:c2pa:` and the UUID's text, passes
/// `validate_c2pa_urn` and `validate_manifest_id`.
pub proof fn uuid_urn_is_valid(uuid: u128)
    ensures
        c2pa_urn_problem(urn_prefix() + uuid_text_of(uuid)) is None,
        manifest_id_problem(urn_prefix() + uuid_text_of(uuid)) is None,
{
    reveal_strlit("urn:c2pa:");
    let u = urn_prefix() + uuid_text_of(uuid);
    lemma_uuid_urn_fields(uuid);
    assert(u.take(9) =~= urn_prefix());
}

/// The URN of a versioned identifier passes `validate_c2pa_urn` and
/// `validate_manifest_id`, whatever claim generator without `:` it names.
pub proof fn versioned_urn_is_valid(uuid: u128, generator: Seq<char>, version: u32, reason: u32)
    requires
        !generator.contains(':'),
    ensures
        c2pa_urn_problem(versioned_urn(uuid, generator, version, reason)) is None,
        manifest_id_problem(versioned_urn(uuid, generator, version, reason)) is None,
{
    reveal_strlit("urn:c2pa:");
    lemma_versioned_urn_fields(uuid, generator, version, reason);
    let u = versioned_urn(uuid, generator, version, reason);
    assert(u.take(9) =~= "urn:c2pa:"@);
}

/// Every URN that passes `validate_c2pa_urn` passes `validate_manifest_id`:
/// manifest identifiers accept the C2PA URN format.
pub proof fn valid_c2pa_urn_is_valid_manifest_id(urn: Seq<char>)
    requires
        c2pa_urn_problem(urn) is None,
    ensures
        manifest_id_problem(urn) is None,
{
    reveal_strlit("urn:c2pa:");
    reveal_strlit("urn");
    reveal_strlit("c2pa");
    let p = urn_fields(urn);
    lemma_split_first_field(urn, ':');
    let rest = urn.skip(4);
    assert(split_fields(rest, ':') == p.drop_first());
    lemma_split_first_field(rest, ':');
    assert(urn =~= "urn"@ + seq![':'] + ("c2pa"@ + seq![':'] + rest.skip(5)));
    assert(urn.take(9) =~= urn_prefix());
}

/// A URN that passes `validate_c2pa_urn` has the `urn:c2pa:` fields and a
/// UUID, so `extract_uuid_from_urn` and `ManifestId::from_urn` accept it.
pub proof fn valid_c2pa_urn_has_uuid(urn: Seq<char>)
    requires
        c2pa_urn_problem(urn) is None,
    ensures
        c2pa_fields(urn_fields(urn)),
        uuid_parsed(urn_fields(urn)[2]) is Some,
{
}

/// The message for a URN without the `urn:c2pa:` fields.
pub open spec fn bad_urn_message(urn: Seq<char>) -> Seq<char> {
    "Invalid C2PA URN format: '"@ + urn + "'"@
}

/// The message for a URN whose UUID does not parse.
pub open spec fn bad_urn_uuid_message(urn: Seq<char>, field: Seq<char>) -> Seq<char> {
    "Invalid UUID in C2PA URN '"@ + urn + "': "@ + uuid_error_text(field)
}

/// Extracts the UUID from a C2PA URN.
pub fn extract_uuid_from_urn(urn: &str) -> (r: Result<Uuid>)
    ensures
        !c2pa_fields(urn_fields(urn@)) ==> (r matches Err(Error::Validation(m)) && m@
            == bad_urn_message(urn@)),
        c2pa_fields(urn_fields(urn@)) && uuid_parsed(urn_fields(urn@)[2]) is None ==> (
        r matches Err(Error::Validation(m)) && m@ == bad_urn_uuid_message(
            urn@,
            urn_fields(urn@)[2],
        )),
        c2pa_fields(urn_fields(urn@)) && uuid_parsed(urn_fields(urn@)[2]) is Some ==> (
        r matches Ok(u) && Some(u.value()) == uuid_parsed(urn_fields(urn@)[2])),
{
    let parts = split_on(urn, ':');
    let ghost p = urn_fields(urn@);
    if parts.len() < 3 || !str_eq(parts[0].as_str(), "urn") || !str_eq(
        parts[1].as_str(),
        "c2pa",
    ) {
        return Err(Error::Validation(concat3("Invalid C2PA URN format: '", urn, "'")));
    }
    assert(parts@[0]@ == p[0] && parts@[1]@ == p[1] && parts@[2]@ == p[2]);
    match parse_uuid(parts[2].as_str()) {
        Ok(v) => Ok(Uuid::from_u128(v)),
        Err(e) => {
            let mut m = concat3("Invalid UUID in C2PA URN '", urn, "': ");
            m.append(e.as_str());
            Err(Error::Validation(m))
        },
    }
}

/// What is wrong with a C2PA URN, if anything: the `urn:c2pa:` fields, the
/// UUID, and for a fifth field, that it is two numbers joined by `_`.
pub open spec fn c2pa_urn_problem(urn: Seq<char>) -> Option<Seq<char>> {
    let p = urn_fields(urn);
    if !c2pa_fields(p) {
        Some("Invalid C2PA URN format: expected 'urn:c2pa:UUID', got '"@ + urn + "'"@)
    } else if uuid_parsed(p[2]) is None {
        Some("Invalid UUID in C2PA URN: '"@ + p[2] + "'"@)
    } else if p.len() > 4 {
        let vr = split_fields(p[4], '_');
        if vr.len() != 2 {
            Some(
                "Invalid version_reason format in URN: expected 'version_reason', got '"@ + p[4]
                    + "'"@,
            )
        } else if u32_from_decimal(vr[0]) is None {
            Some("Invalid version number in URN: '"@ + vr[0] + "'"@)
        } else if u32_from_decimal(vr[1]) is None {
            Some("Invalid reason code in URN: '"@ + vr[1] + "'"@)
        } else {
            None
        }
    } else {
        None
    }
}

/// Validates a C2PA URN: `urn:c2pa:UUID[:claim_generator[:version_reason]]`.
pub fn validate_c2pa_urn(urn: &str) -> (r: Result<()>)
    ensures
        c2pa_urn_problem(urn@) is None ==> r is Ok,
        c2pa_urn_problem(urn@) matches Some(m) ==> (r matches Err(Error::Validation(e)) && e@
            == m),
{
    let parts = split_on(urn, ':');
    let ghost p = urn_fields(urn@);
    if parts.len() < 3 || !str_eq(parts[0].as_str(), "urn") || !str_eq(
        parts[1].as_str(),
        "c2pa",
    ) {
        return Err(
            Error::Validation(
                concat3("Invalid C2PA URN format: expected 'urn:c2pa:UUID', got '", urn, "'"),
            ),
        );
    }
    assert(parts@[0]@ == p[0] && parts@[1]@ == p[1] && parts@[2]@ == p[2]);
    if parse_uuid(parts[2].as_str()).is_err() {
        return Err(
            Error::Validation(concat3("Invalid UUID in C2PA URN: '", parts[2].as_str(), "'")),
        );
    }
    if parts.len() > 3 {
        if parts.len() > 4 {
            assert(parts@[4]@ == p[4]);
            let version_reason = parts[4].as_str();
            let vr = split_on(version_reason, '_');
            if vr.len() != 2 {
                return Err(
                    Error::Validation(
                        concat3(
                            "Invalid version_reason format in URN: expected 'version_reason', got '",
                            version_reason,
                            "'",
                        ),
                    ),
                );
            }
            assert(vr@[0]@ == split_fields(p[4], '_')[0]);
            assert(vr@[1]@ == split_fields(p[4], '_')[1]);
            if parse_u32(vr[0].as_str()).is_none() {
                return Err(
                    Error::Validation(
                        concat3("Invalid version number in URN: '", vr[0].as_str(), "'"),
                    ),
                );
            }
            if parse_u32(vr[1].as_str()).is_none() {
                return Err(
                    Error::Validation(concat3("Invalid reason code in URN: '", vr[1].as_str(), "'")),
                );
            }
        }
    }
    Ok(())
}

} // verus!
