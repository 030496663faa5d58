//! C2PA manifest types, metadata and identifiers.
use vstd::prelude::*;
use crate::error::{Error, Result};
use crate::ident::{
    Uuid, format_uuid, lemma_uuid_parse_text, lemma_uuid_text_shape, parse_uuid,
    random_uuid, uuid_error_text, uuid_parsed, uuid_text_of, uuid_version,
};
use crate::text::{
    ascii_lowercase, contains_char, decimal_text, decimal_text_of, has_prefix, is_digit,
    lemma_decimal_roundtrip, lemma_decimal_text, lemma_split_concat, lemma_split_fields_nonempty,
    lemma_split_single, lowercase, parse_u32, split_fields, split_on, str_eq, string_views,
    to_lowercase, u32_from_decimal,
};

verus! {

/// Types of manifests in the C2PA framework.
#[derive(Debug, Clone, Copy, PartialEq, Eq, Structural)]
pub enum ManifestType {
    /// Dataset manifest
    Dataset,
    /// Machine learning model manifest
    Model,
    /// Software/code manifest
    Software,
    /// Evaluation/benchmark manifest
    Evaluation,
    /// Unknown or unspecified type
    Unknown,
}

/// The name of a manifest type.
pub open spec fn manifest_type_name(t: ManifestType) -> Seq<char> {
    match t {
        ManifestType::Dataset => "dataset"@,
        ManifestType::Model => "model"@,
        ManifestType::Software => "software"@,
        ManifestType::Evaluation => "evaluation"@,
        ManifestType::Unknown => "unknown"@,
    }
}

/// The manifest type a lowercased name stands for; `Unknown` for any
/// other name.
pub open spec fn manifest_type_named(lower: Seq<char>) -> ManifestType {
    if lower == "dataset"@ {
        ManifestType::Dataset
    } else if lower == "model"@ {
        ManifestType::Model
    } else if lower == "software"@ {
        ManifestType::Software
    } else if lower == "evaluation"@ {
        ManifestType::Evaluation
    } else {
        ManifestType::Unknown
    }
}

/// The manifest type an already lowercased name stands for.
pub fn manifest_type_from_lowercase(lower: &str) -> (r: ManifestType)
    ensures
        r == manifest_type_named(lower@),
{
    if str_eq(lower, "dataset") {
        ManifestType::Dataset
    } else if str_eq(lower, "model") {
        ManifestType::Model
    } else if str_eq(lower, "software") {
        ManifestType::Software
    } else if str_eq(lower, "evaluation") {
        ManifestType::Evaluation
    } else {
        ManifestType::Unknown
    }
}

impl ManifestType {
    /// The manifest type as a string.
    pub fn as_str(&self) -> (r: &'static str)
        ensures
            r@ == manifest_type_name(*self),
    {
        match self {
            ManifestType::Dataset => "dataset",
            ManifestType::Model => "model",
            ManifestType::Software => "software",
            ManifestType::Evaluation => "evaluation",
            ManifestType::Unknown => "unknown",
        }
    }

    /// Parses a manifest type name, ignoring case; any other name gives
    /// `Unknown`. Never fails.
    pub fn from_name(s: &str) -> (r: Result<ManifestType>)
        ensures
            r matches Ok(t) && t == manifest_type_named(lowercase(s@)),
    {
        let lower = to_lowercase(s);
        Ok(manifest_type_from_lowercase(lower.as_str()))
    }
}

/// A manifest type's name parses back to it: `from_name(t.as_str())` is
/// `Ok(t)`.
pub proof fn manifest_type_name_roundtrip(t: ManifestType)
    ensures
        manifest_type_named(lowercase(manifest_type_name(t))) == t,
{
    reveal_strlit("dataset");
    reveal_strlit("model");
    reveal_strlit("software");
    reveal_strlit("evaluation");
    reveal_strlit("unknown");
    let n = manifest_type_name(t);
    assert(vstd::utf8::is_ascii_chars(n));
    assert(ascii_lowercase(n) =~= n);
    assert("unknown"@[0] != "dataset"@[0]);
}

/// The names the manifest types parse from, in any letter case: `dataset`,
/// `model`, `software` and `evaluation` give their types (`MODEL` gives
/// `Model`), and every other name gives `Unknown`.
pub proof fn manifest_type_names(s: Seq<char>)
    ensures
        lowercase(s) == "dataset"@ ==> manifest_type_named(lowercase(s)) == ManifestType::Dataset,
        lowercase(s) == "model"@ ==> manifest_type_named(lowercase(s)) == ManifestType::Model,
        lowercase(s) == "software"@ ==> manifest_type_named(lowercase(s)) == ManifestType::Software,
        lowercase(s) == "evaluation"@ ==> manifest_type_named(lowercase(s))
            == ManifestType::Evaluation,
        !(lowercase(s) == "dataset"@ || lowercase(s) == "model"@ || lowercase(s) == "software"@
            || lowercase(s) == "evaluation"@) ==> manifest_type_named(lowercase(s))
            == ManifestType::Unknown,
        lowercase("MODEL"@) == "model"@,
{
    assert(manifest_type_named("dataset"@) == ManifestType::Dataset) by {
        reveal_strlit("dataset");
        assert("dataset"@.len() == 7);
    }
    assert(manifest_type_named("model"@) == ManifestType::Model) by {
        reveal_strlit("model");
        assert("model"@.len() == 5);
        reveal_strlit("dataset");
        assert("dataset"@.len() == 7);
    }
    assert(manifest_type_named("software"@) == ManifestType::Software) by {
        reveal_strlit("software");
        assert("software"@.len() == 8);
        reveal_strlit("dataset");
        assert("dataset"@.len() == 7);
        reveal_strlit("model");
        assert("model"@.len() == 5);
    }
    assert(manifest_type_named("evaluation"@) == ManifestType::Evaluation) by {
        reveal_strlit("evaluation");
        assert("evaluation"@.len() == 10);
        reveal_strlit("dataset");
        assert("dataset"@.len() == 7);
        reveal_strlit("model");
        assert("model"@.len() == 5);
        reveal_strlit("software");
        assert("software"@.len() == 8);
    }
    assert(lowercase("MODEL"@) == "model"@) by {
        reveal_strlit("MODEL");
        reveal_strlit("model");
        assert(vstd::utf8::is_ascii_chars("MODEL"@));
        assert(ascii_lowercase("MODEL"@) =~= "model"@);
    }
}

impl std::str::FromStr for ManifestType {
    type Err = Error;

    fn from_str(s: &str) -> (r: Result<Self>)
        ensures
            r matches Ok(t) && t == manifest_type_named(lowercase(s@)),
    {
        ManifestType::from_name(s)
    }
}

/// Metadata for a C2PA manifest.
#[derive(Debug, Clone)]
pub struct ManifestMetadata {
    /// Unique identifier (URN format)
    pub id: String,
    /// Human-readable name
    pub name: String,
    /// Type of manifest
    pub manifest_type: ManifestType,
    /// Creation timestamp (RFC3339 format)
    pub created_at: String,
    /// Optional cryptographic hash
    pub hash: Option<String>,
    /// Optional size in bytes
    pub size: Option<u64>,
    /// Optional version string
    pub version: Option<String>,
}

/// C2PA manifest identifier, in the URN format
/// `urn:c2pa:UUID[:claim_generator[:version_reason]]`.
#[derive(Debug)]
pub struct ManifestId {
    urn: String,
    uuid: Uuid,
    claim_generator: Option<String>,
    version: Option<u32>,
}

/// The view of an optional string.
pub open spec fn opt_view(o: Option<String>) -> Option<Seq<char>> {
    match o {
        Some(s) => Some(s@),
        None => None,
    }
}

/// The `:`-separated fields of a URN.
pub open spec fn urn_fields(urn: Seq<char>) -> Seq<Seq<char>> {
    split_fields(urn, ':')
}

/// The fields start with `urn`, `c2pa` and one more.
pub open spec fn c2pa_fields(p: Seq<Seq<char>>) -> bool {
    p.len() >= 3 && p[0] == "urn"@ && p[1] == "c2pa"@
}

/// The claim generator of a URN: its fourth field, if there is one.
pub open spec fn urn_claim_generator(p: Seq<Seq<char>>) -> Option<Seq<char>> {
    if p.len() > 3 {
        Some(p[3])
    } else {
        None
    }
}

/// The version of a URN: the number before the first `_` of its fifth
/// field, if there is one and it parses.
pub open spec fn urn_version(p: Seq<Seq<char>>) -> Option<u32> {
    if p.len() > 4 {
        u32_from_decimal(split_fields(p[4], '_')[0])
    } else {
        None
    }
}

/// The URN of a versioned identifier.
pub open spec fn versioned_urn(uuid: u128, generator: Seq<char>, version: u32, reason: u32) -> Seq<
    char,
> {
    "urn:c2pa:"@ + uuid_text_of(uuid) + ":"@ + generator + ":"@ + decimal_text_of(version as nat)
        + "_"@ + decimal_text_of(reason as nat)
}

/// The message for a URN that does not start `urn:c2pa:` with a third
/// field.
pub open spec fn bad_urn_message(urn: Seq<char>) -> Seq<char> {
    "Invalid C2PA URN format: "@ + urn
}

/// The message for a URN whose UUID does not parse.
pub open spec fn bad_urn_uuid_message(field: Seq<char>) -> Seq<char> {
    "Invalid UUID in URN: "@ + uuid_error_text(field)
}

impl ManifestId {
    /// The claim generator never holds a `:`, so it stays one field of the
    /// URN.
    #[verifier::type_invariant]
    spec fn generator_is_one_field(self) -> bool {
        self.claim_generator matches Some(g) ==> !g@.contains(':')
    }

    /// The URN.
    pub closed spec fn urn_view(&self) -> Seq<char> {
        self.urn@
    }

    /// The UUID.
    pub closed spec fn uuid_view(&self) -> Uuid {
        self.uuid
    }

    /// The claim generator.
    pub closed spec fn claim_generator_view(&self) -> Option<Seq<char>> {
        opt_view(self.claim_generator)
    }

    /// The version.
    pub closed spec fn version_view(&self) -> Option<u32> {
        self.version
    }

    /// A new identifier with one random version-4 UUID: its URN is
    /// `urn:c2pa:` and the text of that UUID, which `uuid()` gives.
    pub fn new() -> (r: Self)
        ensures
            r.urn_view() == "urn:c2pa:"@ + uuid_text_of(r.uuid_view().value()),
            has_prefix(r.urn_view(), "urn:c2pa:"@),
            urn_fields(r.urn_view()).len() == 3,
            c2pa_fields(urn_fields(r.urn_view())),
            uuid_parsed(urn_fields(r.urn_view())[2]) == Some(r.uuid_view().value()),
            uuid_version(r.uuid_view().value()) == 4,
            r.claim_generator_view() is None,
            r.version_view() is None,
    {
        let mut urn = String::from_str("urn:c2pa:");
        let v = random_uuid();
        let text = format_uuid(v);
        urn.append(text.as_str());
        proof {
            reveal_strlit("urn:c2pa:");
            assert(urn@.take(9) =~= "urn:c2pa:"@);
            lemma_uuid_urn_fields(v);
        }
        ManifestId { urn, uuid: Uuid::from_u128(v), claim_generator: None, version: None }
    }

    /// Parses an identifier from its URN. Fails unless the URN's first
    /// fields are `urn` and `c2pa` and its third field is a UUID; the fourth
    /// field, if any, is the claim generator, and the number before the first
    /// `_` of the fifth, if any, the version.
    pub fn from_urn(urn: &str) -> (r: Result<Self>)
        ensures
            !c2pa_fields(urn_fields(urn@)) ==> (r matches Err(Error::InvalidFormat(m)) && m@
                == bad_urn_message(urn@)),
            c2pa_fields(urn_fields(urn@)) && uuid_parsed(urn_fields(urn@)[2]) is None ==> (
            r matches Err(Error::InvalidFormat(m)) && m@ == bad_urn_uuid_message(
                urn_fields(urn@)[2],
            )),
            c2pa_fields(urn_fields(urn@)) && uuid_parsed(urn_fields(urn@)[2]) is Some ==> (
            r matches Ok(id) && id.urn_view() == urn@ && Some(id.uuid_view().value())
                == uuid_parsed(urn_fields(urn@)[2]) && id.claim_generator_view()
                == urn_claim_generator(urn_fields(urn@)) && id.version_view() == urn_version(
                urn_fields(urn@),
            )),
    {
        let parts = split_on(urn, ':');
        let ghost p = urn_fields(urn@);
        assert(string_views(parts@) == p);
        if parts.len() < 3 || !str_eq(parts[0].as_str(), "urn") || !str_eq(
            parts[1].as_str(),
            "c2pa",
        ) {
            let mut m = String::from_str("Invalid C2PA URN format: ");
            m.append(urn);
            return Err(Error::InvalidFormat(m));
        }
        assert(parts@[0]@ == p[0] && parts@[1]@ == p[1] && parts@[2]@ == p[2]);
        let uuid = match parse_uuid(parts[2].as_str()) {
            Ok(v) => v,
            Err(e) => {
                let mut m = String::from_str("Invalid UUID in URN: ");
                m.append(e.as_str());
                return Err(Error::InvalidFormat(m));
            },
        };
        let claim_generator = if parts.len() > 3 {
            assert(parts@[3]@ == p[3]);
            proof {
                lemma_fields_lack_separator(urn@, ':');
            }
            Some(parts[3].clone())
        } else {
            None
        };
        let version = if parts.len() > 4 {
            assert(parts@[4]@ == p[4]);
            let vr = split_on(parts[4].as_str(), '_');
            proof {
                lemma_split_fields_nonempty(p[4], '_');
            }
            assert(vr@[0]@ == split_fields(p[4], '_')[0]);
            parse_u32(vr[0].as_str())
        } else {
            None
        };
        let urn_text = String::from_str(urn);
        Ok(ManifestId { urn: urn_text, uuid: Uuid::from_u128(uuid), claim_generator, version })
    }

    /// The URN.
    pub fn as_urn(&self) -> (r: &str)
        ensures
            r@ == self.urn_view(),
    {
        self.urn.as_str()
    }

    /// The UUID.
    pub fn uuid(&self) -> (r: Uuid)
        ensures
            r == self.uuid_view(),
    {
        self.uuid
    }

    /// The claim generator, if the URN names one.
    pub fn claim_generator(&self) -> (r: Option<&str>)
        ensures
            r matches Some(g) ==> self.claim_generator_view() == Some(g@),
            r is None ==> self.claim_generator_view() is None,
    {
        match &self.claim_generator {
            Some(g) => Some(g.as_str()),
            None => None,
        }
    }

    /// The version, if the URN carries a readable one.
    pub fn version(&self) -> (r: Option<u32>)
        ensures
            r == self.version_view(),
    {
        self.version
    }

    /// An identifier from its parts, as they were recorded; `None` where the
    /// claim generator holds a `:`, which no URN field can.
    pub fn from_parts(
        urn: String,
        uuid: Uuid,
        claim_generator: Option<String>,
        version: Option<u32>,
    ) -> (r: Option<Self>)
        ensures
            r is Some <==> !(claim_generator matches Some(g) && g@.contains(':')),
            r matches Some(id) ==> id.urn_view() == urn@ && id.uuid_view() == uuid
                && id.claim_generator_view() == opt_view(claim_generator) && id.version_view()
                == version,
    {
        if let Some(g) = &claim_generator {
            if contains_char(g.as_str(), ':') {
                return None;
            }
        }
        Some(ManifestId { urn, uuid, claim_generator, version })
    }

    /// A versioned variant of this identifier: the URN
    /// `urn:c2pa:UUID:GENERATOR:VERSION_REASON`, with `unknown` for a missing
    /// claim generator; the UUID and claim generator are kept.
    pub fn with_version(&self, version: u32, reason: u32) -> (r: Self)
        ensures
            r.urn_view() == versioned_urn(
                self.uuid_view().value(),
                match self.claim_generator_view() {
                    Some(g) => g,
                    None => "unknown"@,
                },
                version,
                reason,
            ),
            r.uuid_view() == self.uuid_view(),
            r.claim_generator_view() == self.claim_generator_view(),
            r.version_view() == Some(version),
            c2pa_fields(urn_fields(r.urn_view())),
            uuid_parsed(urn_fields(r.urn_view())[2]) == Some(self.uuid_view().value()),
            urn_claim_generator(urn_fields(r.urn_view())) == Some(
                match self.claim_generator_view() {
                    Some(g) => g,
                    None => "unknown"@,
                },
            ),
            urn_version(urn_fields(r.urn_view())) == Some(version),
    {
        proof {
            use_type_invariant(self);
            let g = match self.claim_generator_view() {
                Some(g) => g,
                None => "unknown"@,
            };
            reveal_strlit("unknown");
            assert forall|i: int| 0 <= i < 7 implies "unknown"@[i] != ':' by {}
            lemma_versioned_urn_fields(self.uuid.value(), g, version, reason);
        }
        let claim_generator = match &self.claim_generator {
            Some(g) => Some(g.clone()),
            None => None,
        };
        let mut urn = String::from_str("urn:c2pa:");
        let uuid_text = format_uuid(self.uuid.as_u128());
        urn.append(uuid_text.as_str());
        urn.append(":");
        match &self.claim_generator {
            Some(g) => urn.append(g.as_str()),
            None => urn.append("unknown"),
        }
        urn.append(":");
        let v = decimal_text(version as u64);
        urn.append(v.as_str());
        urn.append("_");
        let rs = decimal_text(reason as u64);
        urn.append(rs.as_str());
        ManifestId { urn, uuid: self.uuid, claim_generator, version: Some(version) }
    }
}

impl PartialEq for ManifestId {
    fn eq(&self, other: &Self) -> (r: bool) {
        let same_generator = match (&self.claim_generator, &other.claim_generator) {
            (Some(a), Some(b)) => str_eq(a.as_str(), b.as_str()),
            (None, None) => true,
            _ => false,
        };
        let same_version = match (self.version, other.version) {
            (Some(a), Some(b)) => a == b,
            (None, None) => true,
            _ => false,
        };
        str_eq(self.urn.as_str(), other.urn.as_str()) && self.uuid == other.uuid && same_generator
            && same_version
    }
}

impl vstd::std_specs::cmp::PartialEqSpecImpl for ManifestId {
    /// Identifiers are equal when their URN, UUID, claim generator and
    /// version are.
    open spec fn obeys_eq_spec() -> bool {
        true
    }

    open spec fn eq_spec(&self, other: &Self) -> bool {
        &&& self.urn_view() == other.urn_view()
        &&& self.uuid_view() == other.uuid_view()
        &&& self.claim_generator_view() == other.claim_generator_view()
        &&& self.version_view() == other.version_view()
    }
}

impl Eq for ManifestId {}

impl Clone for ManifestId {
    /// A copy with equal fields.
    fn clone(&self) -> (r: Self)
        ensures
            r == *self,
    {
        proof {
            use_type_invariant(self);
        }
        let claim_generator = match &self.claim_generator {
            Some(g) => Some(g.clone()),
            None => None,
        };
        ManifestId {
            urn: self.urn.clone(),
            uuid: self.uuid,
            claim_generator,
            version: self.version,
        }
    }
}

impl Default for ManifestId {
    /// A new identifier with a random UUID.
    fn default() -> (r: Self)
        ensures
            has_prefix(r.urn_view(), "urn:c2pa:"@),
            r.claim_generator_view() is None,
            r.version_view() is None,
    {
        ManifestId::new()
    }
}

/// No field of a split holds the separator.
pub proof fn lemma_fields_lack_separator(s: Seq<char>, sep: char)
    ensures
        forall|i: int|
            0 <= i < split_fields(s, sep).len() ==> !(#[trigger] split_fields(s, sep)[i]).contains(
                sep,
            ),
    decreases s.len(),
{
    if s.len() > 0 {
        let p = split_fields(s.drop_last(), sep);
        lemma_fields_lack_separator(s.drop_last(), sep);
        lemma_split_fields_nonempty(s.drop_last(), sep);
        if s.last() != sep {
            let q = split_fields(s, sep);
            assert forall|i: int| 0 <= i < q.len() implies !(#[trigger] q[i]).contains(sep) by {
                if i == q.len() - 1 {
                    let l = p.last().push(s.last());
                    assert(q[i] == l);
                    if l.contains(sep) {
                        let k = choose|k: int| 0 <= k < l.len() && l[k] == sep;
                        if k < l.len() - 1 {
                            assert(p.last()[k] == sep);
                            assert(p[p.len() - 1].contains(sep));
                        }
                    }
                } else {
                    assert(q[i] == p[i]);
                }
            }
        } else {
            let q = split_fields(s, sep);
            assert forall|i: int| 0 <= i < q.len() implies !(#[trigger] q[i]).contains(sep) by {
                if i < q.len() - 1 {
                    assert(q[i] == p[i]);
                }
            }
        }
    }
}

/// Decimal notation holds neither `:` nor `_`.
proof fn lemma_decimal_lacks_separators(n: nat)
    ensures
        !decimal_text_of(n).contains(':'),
        !decimal_text_of(n).contains('_'),
{
    lemma_decimal_text(n);
    let d = decimal_text_of(n);
    if d.contains(':') {
        let k = choose|k: int| 0 <= k < d.len() && d[k] == ':';
        assert(is_digit(d[k]));
    }
    if d.contains('_') {
        let k = choose|k: int| 0 <= k < d.len() && d[k] == '_';
        assert(is_digit(d[k]));
    }
}

/// The first two fields of a C2PA URN: `urn` and `c2pa`, neither holding a
/// `:`.
proof fn lemma_urn_head()
    ensures
        "urn:c2pa:"@ == "urn"@ + seq![':'] + "c2pa"@ + seq![':'],
        !"urn"@.contains(':'),
        !"c2pa"@.contains(':'),
{
    reveal_strlit("urn:c2pa:");
    reveal_strlit("urn");
    reveal_strlit("c2pa");
    assert("urn:c2pa:"@ =~= "urn"@ + seq![':'] + "c2pa"@ + seq![':']);
    assert forall|i: int| 0 <= i < 3 implies "urn"@[i] != ':' by {}
    assert forall|i: int| 0 <= i < 4 implies "c2pa"@[i] != ':' by {}
}

/// A C2PA URN built from a UUID and further text splits into `urn`,
/// `c2pa`, the UUID's text and the fields of the further text.
proof fn lemma_uuid_urn_split(uuid: u128, rest: Seq<char>)
    ensures
        urn_fields("urn:c2pa:"@ + uuid_text_of(uuid) + rest) == seq![
            "urn"@,
            "c2pa"@,
        ] + split_fields(uuid_text_of(uuid) + rest, ':'),
{
    lemma_urn_head();
    let t = uuid_text_of(uuid) + rest;
    assert("urn:c2pa:"@ + uuid_text_of(uuid) + rest =~= "urn"@ + seq![':'] + ("c2pa"@ + seq![':']
        + t));
    lemma_split_concat("urn"@, "c2pa"@ + seq![':'] + t, ':');
    lemma_split_concat("c2pa"@, t, ':');
    lemma_split_single("urn"@, ':');
    lemma_split_single("c2pa"@, ':');
    assert(seq!["urn"@] + (seq!["c2pa"@] + split_fields(t, ':')) =~= seq!["urn"@, "c2pa"@]
        + split_fields(t, ':'));
}

/// The URN of a plain identifier, `urn:c2pa:` and a UUID's text, has the
/// fields `urn`, `c2pa` and the UUID's text, which parses back to the UUID.
pub proof fn lemma_uuid_urn_fields(uuid: u128)
    ensures
        urn_fields("urn:c2pa:"@ + uuid_text_of(uuid)) == seq![
            "urn"@,
            "c2pa"@,
            uuid_text_of(uuid),
        ],
        uuid_parsed(uuid_text_of(uuid)) == Some(uuid),
{
    lemma_uuid_urn_split(uuid, Seq::empty());
    assert(uuid_text_of(uuid) + Seq::<char>::empty() =~= uuid_text_of(uuid));
    assert("urn:c2pa:"@ + uuid_text_of(uuid) + Seq::<char>::empty() =~= "urn:c2pa:"@
        + uuid_text_of(uuid));
    lemma_uuid_text_shape(uuid);
    lemma_split_single(uuid_text_of(uuid), ':');
    assert(seq!["urn"@, "c2pa"@] + seq![uuid_text_of(uuid)] =~= seq![
        "urn"@,
        "c2pa"@,
        uuid_text_of(uuid),
    ]);
    lemma_uuid_parse_text(uuid);
}

/// The version and reason field of a versioned URN.
pub open spec fn version_reason_text(version: u32, reason: u32) -> Seq<char> {
    decimal_text_of(version as nat) + "_"@ + decimal_text_of(reason as nat)
}

/// A versioned URN has the fields `urn`, `c2pa`, the UUID's text, the
/// claim generator and `VERSION_REASON`, which splits at `_` into the two
/// numbers; so it parses back to its UUID, generator and version.
pub proof fn lemma_versioned_urn_fields(uuid: u128, generator: Seq<char>, version: u32, reason: u32)
    requires
        !generator.contains(':'),
    ensures
        urn_fields(versioned_urn(uuid, generator, version, reason)) == seq![
            "urn"@,
            "c2pa"@,
            uuid_text_of(uuid),
            generator,
            version_reason_text(version, reason),
        ],
        split_fields(version_reason_text(version, reason), '_') == seq![
            decimal_text_of(version as nat),
            decimal_text_of(reason as nat),
        ],
        uuid_parsed(uuid_text_of(uuid)) == Some(uuid),
        u32_from_decimal(decimal_text_of(version as nat)) == Some(version),
        u32_from_decimal(decimal_text_of(reason as nat)) == Some(reason),
{
    reveal_strlit(":");
    reveal_strlit("_");
    let t = uuid_text_of(uuid);
    let dv = decimal_text_of(version as nat);
    let dr = decimal_text_of(reason as nat);
    let vr = version_reason_text(version, reason);
    lemma_decimal_lacks_separators(version as nat);
    lemma_decimal_lacks_separators(reason as nat);
    lemma_decimal_roundtrip(version);
    lemma_decimal_roundtrip(reason);
    lemma_uuid_text_shape(uuid);
    lemma_uuid_parse_text(uuid);
    // VERSION_REASON splits at `_` and holds no `:`.
    assert(vr =~= dv + seq!['_'] + dr);
    lemma_split_concat(dv, dr, '_');
    lemma_split_single(dv, '_');
    lemma_split_single(dr, '_');
    assert(seq![dv] + seq![dr] =~= seq![dv, dr]);
    assert(!vr.contains(':')) by {
        if vr.contains(':') {
            let k = choose|k: int| 0 <= k < vr.len() && vr[k] == ':';
            if k < dv.len() {
                assert(dv[k] == ':');
            } else if k > dv.len() {
                assert(dr[k - dv.len() - 1] == ':');
            }
        }
    }
    // The fields after `urn:c2pa:`.
    let rest = seq![':'] + generator + seq![':'] + vr;
    assert(versioned_urn(uuid, generator, version, reason) =~= "urn:c2pa:"@ + t + rest);
    lemma_uuid_urn_split(uuid, rest);
    assert(t + rest =~= t + seq![':'] + (generator + seq![':'] + vr));
    lemma_split_concat(t, generator + seq![':'] + vr, ':');
    lemma_split_concat(generator, vr, ':');
    lemma_split_single(t, ':');
    lemma_split_single(generator, ':');
    lemma_split_single(vr, ':');
    assert(seq!["urn"@, "c2pa"@] + (seq![t] + (seq![generator] + seq![vr])) =~= seq![
        "urn"@,
        "c2pa"@,
        t,
        generator,
        vr,
    ]);
}

} // verus!
