//! The batch dispatcher: maps a requested identifier kind to its generator.
//!
//! One entry point takes the kind, the optional string parameters and the
//! batch count, and returns the batch. Its contract states the length law
//! once for every kind: the batch has exactly the requested length, except
//! that the name-based kinds yield the empty batch for an empty name; and
//! only the kinds whose library can refuse (ULID, Sonyflake) ever report an
//! error.

use crate::batch::IdError;
use crate::batch::all_text_lens;
use crate::batch::all_texts_are;
use crate::batch::base36_lower_text;
use crate::batch::base62_text;
use crate::batch::crockford_text;
use crate::batch::is_lower_char;
use crate::batch::lex_sorted_distinct;
use crate::batch::lower_hex_text;
use crate::batch::url_safe_text;
use crate::other_ids::dec_text_of_some_i64;
use crate::other_ids::dec_text_of_some_u64;
use crate::other_ids::monotonic_sonyflake_batch;
use crate::other_ids::monotonic_ulid_batch;
use crate::other_ids::gen_cuid;
use crate::other_ids::gen_cuid2;
use crate::other_ids::gen_nano_id;
use crate::other_ids::gen_nuid;
use crate::other_ids::gen_object_id;
use crate::other_ids::gen_scru128;
use crate::other_ids::gen_short_uuid;
use crate::other_ids::gen_snowflake;
use crate::other_ids::gen_sonyflake;
use crate::other_ids::gen_tsid;
use crate::other_ids::gen_ulid;
use crate::other_ids::gen_upid;
use crate::uuid_ids::gen_max_uuid;
use crate::uuid_ids::gen_nil_uuid;
use crate::uuid_ids::gen_uuid_v1;
use crate::uuid_ids::gen_uuid_v3;
use crate::uuid_ids::gen_uuid_v4;
use crate::uuid_ids::gen_uuid_v5;
use crate::uuid_ids::gen_uuid_v6;
use crate::uuid_ids::gen_uuid_v7;
use crate::uuid_ids::fixed_node_group_text;
use crate::uuid_ids::max_uuid_text;
use crate::uuid_ids::nil_uuid_text;
use crate::uuid_ids::uuid_hyphenated;
use crate::uuid_ids::uuid_parse;
use crate::uuid_ids::uuid_text_with_version;
use crate::uuid_ids::uuid_v3_value;
use crate::uuid_ids::uuid_v5_value;
use crate::uuid_ids::v3_of_some_namespace;
use crate::uuid_ids::v5_of_some_namespace;
use vstd::prelude::*;

verus! {

/// The identifier kinds the dispatcher serves.
#[derive(Clone, Copy, Debug, PartialEq, Eq, Structural)]
pub enum IdKind {
    UuidV1,
    UuidV3,
    UuidV4,
    UuidV5,
    UuidV6,
    UuidV7,
    ShortUuid,
    NilUuid,
    MaxUuid,
    NanoId,
    Ulid,
    Cuid,
    Cuid2,
    Nuid,
    Snowflake,
    Sonyflake,
    Upid,
    Tsid,
    ObjectId,
    Scru128,
}

/// The kinds that derive the identifier from a name and a namespace.
pub open spec fn uses_name(kind: IdKind) -> bool {
    kind == IdKind::UuidV3 || kind == IdKind::UuidV5
}

/// The kinds whose library can refuse to produce an identifier.
pub open spec fn may_fail(kind: IdKind) -> bool {
    kind == IdKind::Ulid || kind == IdKind::Sonyflake
}

/// The length every successful batch has: the requested count, except that
/// a name-based request with an empty name yields the empty batch.
pub open spec fn expected_len(kind: IdKind, name: Seq<char>, n: u32) -> nat {
    if uses_name(kind) && name.len() == 0 {
        0
    } else {
        n as nat
    }
}

/// What a successful batch of each kind guarantees of its elements, beyond
/// its length: the per-kind shape, charset and derivation clauses of the
/// kind's own generator.
pub open spec fn batch_meets_kind(
    kind: IdKind,
    namespace: Seq<char>,
    name: Seq<char>,
    v: Seq<String>,
) -> bool {
    match kind {
        IdKind::UuidV1 => forall|i: int|
            0 <= i < v.len() ==> uuid_text_with_version((#[trigger] v[i])@, 1)
                && fixed_node_group_text(v[i]@),
        IdKind::UuidV3 => (forall|i: int|
            0 <= i < v.len() ==> uuid_text_with_version((#[trigger] v[i])@, 3)
                && v3_of_some_namespace(v[i]@, name)) && (uuid_parse(namespace) matches Some(ns)
            ==> all_texts_are(v, uuid_hyphenated(uuid_v3_value(ns, name)))),
        IdKind::UuidV4 => forall|i: int|
            0 <= i < v.len() ==> uuid_text_with_version((#[trigger] v[i])@, 4),
        IdKind::UuidV5 => (forall|i: int|
            0 <= i < v.len() ==> uuid_text_with_version((#[trigger] v[i])@, 5)
                && v5_of_some_namespace(v[i]@, name)) && (uuid_parse(namespace) matches Some(ns)
            ==> all_texts_are(v, uuid_hyphenated(uuid_v5_value(ns, name)))),
        IdKind::UuidV6 => forall|i: int|
            0 <= i < v.len() ==> uuid_text_with_version((#[trigger] v[i])@, 6)
                && fixed_node_group_text(v[i]@),
        IdKind::UuidV7 => forall|i: int|
            0 <= i < v.len() ==> uuid_text_with_version((#[trigger] v[i])@, 7),
        IdKind::ShortUuid => all_text_lens(v, 22),
        IdKind::NilUuid => all_texts_are(v, nil_uuid_text()),
        IdKind::MaxUuid => all_texts_are(v, max_uuid_text()),
        IdKind::NanoId => all_text_lens(v, 21) && forall|i: int|
            0 <= i < v.len() ==> url_safe_text((#[trigger] v[i])@),
        IdKind::Ulid => all_text_lens(v, 26) && monotonic_ulid_batch(v) && lex_sorted_distinct(
            v,
        ) && forall|i: int| 0 <= i < v.len() ==> crockford_text((#[trigger] v[i])@),
        IdKind::Cuid => forall|i: int|
            0 <= i < v.len() ==> (#[trigger] v[i])@.len() >= 1 && v[i]@[0] == 'c'
                && base36_lower_text(v[i]@),
        IdKind::Cuid2 => forall|i: int|
            0 <= i < v.len() ==> 1 <= (#[trigger] v[i])@.len() <= 24 && is_lower_char(v[i]@[0])
                && base36_lower_text(v[i]@),
        IdKind::Nuid => all_text_lens(v, 22) && forall|i: int|
            0 <= i < v.len() ==> base62_text((#[trigger] v[i])@),
        IdKind::Snowflake => forall|i: int|
            0 <= i < v.len() ==> dec_text_of_some_i64((#[trigger] v[i])@) && v[i]@.len() >= 1,
        IdKind::Sonyflake => monotonic_sonyflake_batch(v) && forall|i: int|
            0 <= i < v.len() ==> dec_text_of_some_u64((#[trigger] v[i])@) && v[i]@.len() >= 1,
        IdKind::Upid => all_text_lens(v, 27),
        IdKind::Tsid => all_text_lens(v, 13) && forall|i: int|
            0 <= i < v.len() ==> crockford_text((#[trigger] v[i])@),
        IdKind::ObjectId => all_text_lens(v, 24) && forall|i: int|
            0 <= i < v.len() ==> lower_hex_text((#[trigger] v[i])@),
        IdKind::Scru128 => all_text_lens(v, 25) && forall|i: int|
            0 <= i < v.len() ==> base36_lower_text((#[trigger] v[i])@),
    }
}

/// Produces one batch of the requested kind.
///
/// The namespace and name are read only by the name-based kinds, the prefix
/// only by the prefixed kind; the rest ignore them.
pub fn generate(kind: IdKind, namespace: &str, name: &str, prefix: &str, n: u32) -> (r: Result<
    Vec<String>,
    IdError,
>)
    ensures
        r matches Ok(v) ==> v@.len() == expected_len(kind, name@, n) && batch_meets_kind(
            kind,
            namespace@,
            name@,
            v@,
        ),
        r matches Err(_) ==> may_fail(kind),
        n == 0 && kind != IdKind::Sonyflake ==> r is Ok,
{
    match kind {
        IdKind::UuidV1 => Ok(gen_uuid_v1(n)),
        IdKind::UuidV3 => Ok(gen_uuid_v3(namespace, name, n)),
        IdKind::UuidV4 => Ok(gen_uuid_v4(n)),
        IdKind::UuidV5 => Ok(gen_uuid_v5(namespace, name, n)),
        IdKind::UuidV6 => Ok(gen_uuid_v6(n)),
        IdKind::UuidV7 => Ok(gen_uuid_v7(n)),
        IdKind::ShortUuid => Ok(gen_short_uuid(n)),
        IdKind::NilUuid => Ok(gen_nil_uuid(n)),
        IdKind::MaxUuid => Ok(gen_max_uuid(n)),
        IdKind::NanoId => Ok(gen_nano_id(n)),
        IdKind::Ulid => gen_ulid(n),
        IdKind::Cuid => Ok(gen_cuid(n)),
        IdKind::Cuid2 => Ok(gen_cuid2(n)),
        IdKind::Nuid => Ok(gen_nuid(n)),
        IdKind::Snowflake => Ok(gen_snowflake(n)),
        IdKind::Sonyflake => gen_sonyflake(n),
        IdKind::Upid => Ok(gen_upid(prefix, n)),
        IdKind::Tsid => Ok(gen_tsid(n)),
        IdKind::ObjectId => Ok(gen_object_id(n)),
        IdKind::Scru128 => Ok(gen_scru128(n)),
    }
}

} // verus!
