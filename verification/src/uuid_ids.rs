//! UUID batch generators.
//!
//! The two constant kinds (nil, max) are pure. The name-based kinds (v3, v5)
//! validate their parameters here and delegate the derivation itself to the
//! uuid crate behind trusted wrappers; their determinism under a valid
//! namespace is part of their contract. The time-based and random kinds (v1,
//! v4, v6, v7) promise the shape of each element — the hyphenated lowercase
//! hex text, its version and variant characters, and for v1/v6 the node
//! group — and nothing of the rest of its value.

use crate::batch::all_texts_are;
use crate::batch::is_lower_hex_char;
use vstd::prelude::*;
use vstd::string::StringExecFns;

verus! {

/// The character text of the nil UUID: all bits zero, hyphenated.
pub open spec fn nil_uuid_text() -> Seq<char> {
    seq!['0', '0', '0', '0', '0', '0', '0', '0', '-', '0', '0', '0', '0', '-', '0', '0', '0', '0', '-', '0', '0', '0', '0', '-', '0', '0', '0', '0', '0', '0', '0', '0', '0', '0', '0', '0']
}

/// The character text of the max UUID: all bits one, hyphenated.
pub open spec fn max_uuid_text() -> Seq<char> {
    seq!['F', 'F', 'F', 'F', 'F', 'F', 'F', 'F', '-', 'F', 'F', 'F', 'F', '-', 'F', 'F', 'F', 'F', '-', 'F', 'F', 'F', 'F', '-', 'F', 'F', 'F', 'F', 'F', 'F', 'F', 'F', 'F', 'F', 'F', 'F']
}

/// The lowercase hex character for one digit value.
pub open spec fn hex_char(d: nat) -> char {
    if d == 0 {
        '0'
    } else if d == 1 {
        '1'
    } else if d == 2 {
        '2'
    } else if d == 3 {
        '3'
    } else if d == 4 {
        '4'
    } else if d == 5 {
        '5'
    } else if d == 6 {
        '6'
    } else if d == 7 {
        '7'
    } else if d == 8 {
        '8'
    } else if d == 9 {
        '9'
    } else if d == 10 {
        'a'
    } else if d == 11 {
        'b'
    } else if d == 12 {
        'c'
    } else if d == 13 {
        'd'
    } else if d == 14 {
        'e'
    } else {
        'f'
    }
}

/// The hex character for the four bits of `b` starting at bit `shift`.
pub open spec fn nibble_char(b: u128, shift: u128) -> char {
    hex_char((((b >> shift) & 0xf) as nat))
}

/// The hyphenated 8-4-4-4-12 text of a 128-bit UUID value: its 32 nibbles
/// as lowercase hex characters, most significant first, with hyphens after
/// the 8th, 12th, 16th and 20th.
pub open spec fn uuid_hyphenated(b: u128) -> Seq<char> {
    seq![
        nibble_char(b, 124),
        nibble_char(b, 120),
        nibble_char(b, 116),
        nibble_char(b, 112),
        nibble_char(b, 108),
        nibble_char(b, 104),
        nibble_char(b, 100),
        nibble_char(b, 96),
        '-',
        nibble_char(b, 92),
        nibble_char(b, 88),
        nibble_char(b, 84),
        nibble_char(b, 80),
        '-',
        nibble_char(b, 76),
        nibble_char(b, 72),
        nibble_char(b, 68),
        nibble_char(b, 64),
        '-',
        nibble_char(b, 60),
        nibble_char(b, 56),
        nibble_char(b, 52),
        nibble_char(b, 48),
        '-',
        nibble_char(b, 44),
        nibble_char(b, 40),
        nibble_char(b, 36),
        nibble_char(b, 32),
        nibble_char(b, 28),
        nibble_char(b, 24),
        nibble_char(b, 20),
        nibble_char(b, 16),
        nibble_char(b, 12),
        nibble_char(b, 8),
        nibble_char(b, 4),
        nibble_char(b, 0),
    ]
}

/// The text has the hyphenated UUID shape: 36 characters, hyphens at
/// positions 8, 13, 18 and 23, lowercase hex digits everywhere else.
pub open spec fn hyphenated_uuid_text(t: Seq<char>) -> bool {
    &&& t.len() == 36
    &&& t[8] == '-'
    &&& t[13] == '-'
    &&& t[18] == '-'
    &&& t[23] == '-'
    &&& forall|j: int|
        0 <= j < 36 && j != 8 && j != 13 && j != 18 && j != 23 ==> is_lower_hex_char(
            #[trigger] t[j],
        )
}

/// The text has the hyphenated UUID shape, its version character is the hex
/// digit `v`, and its variant character marks the RFC variant.
pub open spec fn uuid_text_with_version(t: Seq<char>, v: nat) -> bool {
    &&& hyphenated_uuid_text(t)
    &&& t[14] == hex_char(v)
    &&& (t[19] == '8' || t[19] == '9' || t[19] == 'a' || t[19] == 'b')
}

/// The last twelve characters of the text spell the fixed node id bytes 1
/// through 6 of the time-based generators.
pub open spec fn fixed_node_group_text(t: Seq<char>) -> bool {
    &&& t.len() == 36
    &&& t[24] == '0'
    &&& t[25] == '1'
    &&& t[26] == '0'
    &&& t[27] == '2'
    &&& t[28] == '0'
    &&& t[29] == '3'
    &&& t[30] == '0'
    &&& t[31] == '4'
    &&& t[32] == '0'
    &&& t[33] == '5'
    &&& t[34] == '0'
    &&& t[35] == '6'
}

/// The 48-bit value spelled by six node id bytes, most significant first.
pub open spec fn node_bits(node: Seq<u8>) -> int {
    (node[0] as int) * 0x100_0000_0000 + (node[1] as int) * 0x1_0000_0000 + (node[2] as int)
        * 0x100_0000 + (node[3] as int) * 0x1_0000 + (node[4] as int) * 0x100 + (node[5] as int)
}

/// Every lowercase hex character is in the lowercase hex charset.
proof fn lemma_hex_char_is_lower_hex()
    ensures
        forall|d: nat| is_lower_hex_char(#[trigger] hex_char(d)),
{
}

/// The hyphenated text of any UUID value has the hyphenated shape, and its
/// version, variant and node-group characters are the hex digits of the
/// corresponding nibbles of the value.
#[verifier::rlimit(100)]
pub proof fn lemma_uuid_hyphenated_shape(b: u128)
    ensures
        hyphenated_uuid_text(uuid_hyphenated(b)),
        uuid_hyphenated(b)[14] == hex_char((((b >> 76) & 0xf) as nat)),
        uuid_hyphenated(b)[19] == hex_char((((b >> 60) & 0xf) as nat)),
        uuid_hyphenated(b)[24] == hex_char((((b >> 44) & 0xf) as nat)),
        uuid_hyphenated(b)[25] == hex_char((((b >> 40) & 0xf) as nat)),
        uuid_hyphenated(b)[26] == hex_char((((b >> 36) & 0xf) as nat)),
        uuid_hyphenated(b)[27] == hex_char((((b >> 32) & 0xf) as nat)),
        uuid_hyphenated(b)[28] == hex_char((((b >> 28) & 0xf) as nat)),
        uuid_hyphenated(b)[29] == hex_char((((b >> 24) & 0xf) as nat)),
        uuid_hyphenated(b)[30] == hex_char((((b >> 20) & 0xf) as nat)),
        uuid_hyphenated(b)[31] == hex_char((((b >> 16) & 0xf) as nat)),
        uuid_hyphenated(b)[32] == hex_char((((b >> 12) & 0xf) as nat)),
        uuid_hyphenated(b)[33] == hex_char((((b >> 8) & 0xf) as nat)),
        uuid_hyphenated(b)[34] == hex_char((((b >> 4) & 0xf) as nat)),
        uuid_hyphenated(b)[35] == hex_char((((b >> 0) & 0xf) as nat)),
{
    lemma_hex_char_is_lower_hex();
    let t = uuid_hyphenated(b);
    assert forall|j: int|
        0 <= j < 36 && j != 8 && j != 13 && j != 18 && j != 23 implies is_lower_hex_char(
        t[j],
    ) by {
        assert(is_lower_hex_char(t[j]));
    }
}

/// The 128-bit value a string parses to as a UUID, when it parses at all.
pub uninterp spec fn uuid_parse(s: Seq<char>) -> Option<u128>;

/// The 128-bit value of the version-3 (MD5, name-based) UUID derived from a
/// namespace value and a name.
pub uninterp spec fn uuid_v3_value(ns: u128, name: Seq<char>) -> u128;

/// The 128-bit value of the version-5 (SHA-1, name-based) UUID derived from
/// a namespace value and a name.
pub uninterp spec fn uuid_v5_value(ns: u128, name: Seq<char>) -> u128;

/// The text is the hyphenated form of some UUID value.
pub open spec fn hyphenated_of_some(t: Seq<char>) -> bool {
    exists|b: u128| t == uuid_hyphenated(b)
}

/// The text is the hyphenated v3 UUID of `name` under some namespace value.
pub open spec fn v3_of_some_namespace(t: Seq<char>, name: Seq<char>) -> bool {
    exists|b: u128| t == uuid_hyphenated(uuid_v3_value(b, name))
}

/// The text is the hyphenated v5 UUID of `name` under some namespace value.
pub open spec fn v5_of_some_namespace(t: Seq<char>, name: Seq<char>) -> bool {
    exists|b: u128| t == uuid_hyphenated(uuid_v5_value(b, name))
}

/// Relies on uuid::Uuid::try_parse: whether a string parses as a UUID, and
/// the 128-bit value parsed, depend on the string alone.
#[verifier::external_body]
fn parse_uuid_value(s: &str) -> (r: Option<u128>)
    ensures
        r == uuid_parse(s@),
{
    match uuid::Uuid::try_parse(s) {
        Ok(u) => Some(u.as_u128()),
        Err(_) => None,
    }
}

/// Relies on uuid::Uuid::new_v4: a freshly generated random UUID. Nothing is
/// promised of its value beyond the bits new_v4 masks on every outcome: the
/// version nibble is 4 and the variant bits are the RFC variant.
#[verifier::external_body]
fn random_uuid_value() -> (r: u128)
    ensures
        (r >> 76) & 0xf == 4,
        (r >> 62) & 0x3 == 2,
{
    uuid::Uuid::new_v4().as_u128()
}

/// Relies on uuid::Uuid::new_v3: the MD5 name-based UUID, a function of the
/// namespace value and the name alone; its version nibble is 3 and its
/// variant bits are the RFC variant.
#[verifier::external_body]
fn v3_value(ns: u128, name: &str) -> (r: u128)
    ensures
        r == uuid_v3_value(ns, name@),
        (r >> 76) & 0xf == 3,
        (r >> 62) & 0x3 == 2,
{
    uuid::Uuid::new_v3(&uuid::Uuid::from_u128(ns), name.as_bytes()).as_u128()
}

/// Relies on uuid::Uuid::new_v5: the SHA-1 name-based UUID, a function of
/// the namespace value and the name alone; its version nibble is 5 and its
/// variant bits are the RFC variant.
#[verifier::external_body]
fn v5_value(ns: u128, name: &str) -> (r: u128)
    ensures
        r == uuid_v5_value(ns, name@),
        (r >> 76) & 0xf == 5,
        (r >> 62) & 0x3 == 2,
{
    uuid::Uuid::new_v5(&uuid::Uuid::from_u128(ns), name.as_bytes()).as_u128()
}

/// Relies on uuid::fmt::Hyphenated's Display: the lowercase hyphenated
/// 8-4-4-4-12 hex text of the UUID value, exactly as `uuid_hyphenated`
/// spells it.
#[verifier::external_body]
fn hyphenate_value(bits: u128) -> (r: String)
    ensures
        r@ == uuid_hyphenated(bits),
{
    uuid::Uuid::from_u128(bits).hyphenated().to_string()
}

/// Relies on uuid::Uuid::now_v1: a Gregorian-time UUID from the system clock
/// and the given node id. Its value depends on the clock; on every outcome
/// the version nibble is 1, the variant bits are the RFC variant, and the
/// low 48 bits are the node id bytes.
#[verifier::external_body]
fn now_v1_value(node_id: &[u8; 6]) -> (r: u128)
    ensures
        (r >> 76) & 0xf == 1,
        (r >> 62) & 0x3 == 2,
        r & 0xffff_ffff_ffff == node_bits(node_id@),
{
    uuid::Uuid::now_v1(node_id).as_u128()
}

/// Relies on uuid::Uuid::now_v6: a reordered Gregorian-time UUID from the
/// system clock and the given node id. Its value depends on the clock; on
/// every outcome the version nibble is 6, the variant bits are the RFC
/// variant, and the low 48 bits are the node id bytes.
#[verifier::external_body]
fn now_v6_value(node_id: &[u8; 6]) -> (r: u128)
    ensures
        (r >> 76) & 0xf == 6,
        (r >> 62) & 0x3 == 2,
        r & 0xffff_ffff_ffff == node_bits(node_id@),
{
    uuid::Uuid::now_v6(node_id).as_u128()
}

/// Relies on uuid::Uuid::now_v7: a Unix-time UUID from the system clock and
/// random bits. Its value depends on both; on every outcome the version
/// nibble is 7 and the variant bits are the RFC variant.
#[verifier::external_body]
fn now_v7_value() -> (r: u128)
    ensures
        (r >> 76) & 0xf == 7,
        (r >> 62) & 0x3 == 2,
{
    uuid::Uuid::now_v7().as_u128()
}

/// From the RFC variant bits, the variant nibble is one of 8 through 11, so
/// the variant character is '8', '9', 'a' or 'b'.
proof fn lemma_variant_nibble(b: u128)
    requires
        (b >> 62) & 0x3 == 2,
    ensures
        (b >> 60) & 0xf == 8 || (b >> 60) & 0xf == 9 || (b >> 60) & 0xf == 10 || (b >> 60) & 0xf
            == 11,
{
    assert((b >> 62) & 0x3 == 2 ==> ((b >> 60) & 0xf == 8 || (b >> 60) & 0xf == 9 || (b >> 60)
        & 0xf == 10 || (b >> 60) & 0xf == 11)) by (bit_vector);
}

/// A value whose low 48 bits are 0x010203040506 renders its node group as
/// the characters 010203040506.
proof fn lemma_fixed_node_nibbles(b: u128)
    requires
        b & 0xffff_ffff_ffff == 0x0102_0304_0506,
    ensures
        (b >> 44) & 0xf == 0,
        (b >> 40) & 0xf == 1,
        (b >> 36) & 0xf == 0,
        (b >> 32) & 0xf == 2,
        (b >> 28) & 0xf == 0,
        (b >> 24) & 0xf == 3,
        (b >> 20) & 0xf == 0,
        (b >> 16) & 0xf == 4,
        (b >> 12) & 0xf == 0,
        (b >> 8) & 0xf == 5,
        (b >> 4) & 0xf == 0,
        (b >> 0) & 0xf == 6,
{
    assert(b & 0xffff_ffff_ffff == 0x0102_0304_0506 ==> ((b >> 44) & 0xf == 0 && (b >> 40) & 0xf
        == 1 && (b >> 36) & 0xf == 0 && (b >> 32) & 0xf == 2 && (b >> 28) & 0xf == 0 && (b >> 24)
        & 0xf == 3 && (b >> 20) & 0xf == 0 && (b >> 16) & 0xf == 4 && (b >> 12) & 0xf == 0 && (b
        >> 8) & 0xf == 5 && (b >> 4) & 0xf == 0 && (b >> 0) & 0xf == 6)) by (bit_vector);
}

/// The element text of a time-based v1/v6 draw: version `v`, RFC variant,
/// and the fixed node group, established from the wrapper's bit facts.
proof fn lemma_v1_v6_element(b: u128, v: nat)
    requires
        (b >> 76) & 0xf == v,
        (b >> 62) & 0x3 == 2,
        b & 0xffff_ffff_ffff == 0x0102_0304_0506,
    ensures
        uuid_text_with_version(uuid_hyphenated(b), v),
        fixed_node_group_text(uuid_hyphenated(b)),
{
    lemma_uuid_hyphenated_shape(b);
    lemma_variant_nibble(b);
    lemma_fixed_node_nibbles(b);
}

/// The element text of a versioned draw: version `v` and RFC variant,
/// established from the wrapper's bit facts.
proof fn lemma_versioned_element(b: u128, v: nat)
    requires
        (b >> 76) & 0xf == v,
        (b >> 62) & 0x3 == 2,
    ensures
        uuid_text_with_version(uuid_hyphenated(b), v),
{
    lemma_uuid_hyphenated_shape(b);
    lemma_variant_nibble(b);
}

/// Produces `n` copies of the nil UUID's text.
pub fn gen_nil_uuid(n: u32) -> (r: Vec<String>)
    ensures
        r@.len() == n as nat,
        all_texts_are(r@, nil_uuid_text()),
{
    let id = "00000000-0000-0000-0000-000000000000".to_owned();
    proof {
        reveal_strlit("00000000-0000-0000-0000-000000000000");
        assert(id@ =~= nil_uuid_text());
    }
    let mut list: Vec<String> = Vec::new();
    let mut k: u32 = 0;
    while k < n
        invariant
            k <= n,
            list@.len() == k as nat,
            id@ == nil_uuid_text(),
            all_texts_are(list@, nil_uuid_text()),
        decreases n - k,
    {
        list.push(id.clone());
        k = k + 1;
    }
    list
}

/// Produces `n` copies of the max UUID's text.
pub fn gen_max_uuid(n: u32) -> (r: Vec<String>)
    ensures
        r@.len() == n as nat,
        all_texts_are(r@, max_uuid_text()),
{
    let id = "FFFFFFFF-FFFF-FFFF-FFFF-FFFFFFFFFFFF".to_owned();
    proof {
        reveal_strlit("FFFFFFFF-FFFF-FFFF-FFFF-FFFFFFFFFFFF");
        assert(id@ =~= max_uuid_text());
    }
    let mut list: Vec<String> = Vec::new();
    let mut k: u32 = 0;
    while k < n
        invariant
            k <= n,
            list@.len() == k as nat,
            id@ == max_uuid_text(),
            all_texts_are(list@, max_uuid_text()),
        decreases n - k,
    {
        list.push(id.clone());
        k = k + 1;
    }
    list
}

/// Produces `n` fresh time-based (version 1) UUID texts, using the fixed
/// six-byte node id 1 through 6.
pub fn gen_uuid_v1(n: u32) -> (r: Vec<String>)
    ensures
        r@.len() == n as nat,
        forall|i: int| 0 <= i < r@.len() ==> uuid_text_with_version((#[trigger] r@[i])@, 1),
        forall|i: int| 0 <= i < r@.len() ==> fixed_node_group_text((#[trigger] r@[i])@),
        forall|i: int| 0 <= i < r@.len() ==> hyphenated_of_some((#[trigger] r@[i])@),
{
    let node_id: [u8; 6] = [1, 2, 3, 4, 5, 6];
    proof {
        assert(node_bits(node_id@) == 0x0102_0304_0506);
    }
    let mut list: Vec<String> = Vec::new();
    let mut k: u32 = 0;
    while k < n
        invariant
            k <= n,
            list@.len() == k as nat,
            node_bits(node_id@) == 0x0102_0304_0506,
            forall|i: int|
                0 <= i < list@.len() ==> uuid_text_with_version((#[trigger] list@[i])@, 1),
            forall|i: int|
                0 <= i < list@.len() ==> fixed_node_group_text((#[trigger] list@[i])@),
            forall|i: int| 0 <= i < list@.len() ==> hyphenated_of_some((#[trigger] list@[i])@),
        decreases n - k,
    {
        let b = now_v1_value(&node_id);
        let id = hyphenate_value(b);
        proof {
            lemma_v1_v6_element(b, 1);
            assert(hyphenated_of_some(id@));
        }
        list.push(id);
        k = k + 1;
    }
    list
}

/// Produces `n` fresh random (version 4) UUID texts.
pub fn gen_uuid_v4(n: u32) -> (r: Vec<String>)
    ensures
        r@.len() == n as nat,
        forall|i: int| 0 <= i < r@.len() ==> uuid_text_with_version((#[trigger] r@[i])@, 4),
        forall|i: int| 0 <= i < r@.len() ==> hyphenated_of_some((#[trigger] r@[i])@),
{
    let mut list: Vec<String> = Vec::new();
    let mut k: u32 = 0;
    while k < n
        invariant
            k <= n,
            list@.len() == k as nat,
            forall|i: int|
                0 <= i < list@.len() ==> uuid_text_with_version((#[trigger] list@[i])@, 4),
            forall|i: int| 0 <= i < list@.len() ==> hyphenated_of_some((#[trigger] list@[i])@),
        decreases n - k,
    {
        let b = random_uuid_value();
        let id = hyphenate_value(b);
        proof {
            lemma_versioned_element(b, 4);
            assert(hyphenated_of_some(id@));
        }
        list.push(id);
        k = k + 1;
    }
    list
}

/// Produces `n` fresh reordered time-based (version 6) UUID texts, using
/// the fixed six-byte node id 1 through 6.
pub fn gen_uuid_v6(n: u32) -> (r: Vec<String>)
    ensures
        r@.len() == n as nat,
        forall|i: int| 0 <= i < r@.len() ==> uuid_text_with_version((#[trigger] r@[i])@, 6),
        forall|i: int| 0 <= i < r@.len() ==> fixed_node_group_text((#[trigger] r@[i])@),
        forall|i: int| 0 <= i < r@.len() ==> hyphenated_of_some((#[trigger] r@[i])@),
{
    let node_id: [u8; 6] = [1, 2, 3, 4, 5, 6];
    proof {
        assert(node_bits(node_id@) == 0x0102_0304_0506);
    }
    let mut list: Vec<String> = Vec::new();
    let mut k: u32 = 0;
    while k < n
        invariant
            k <= n,
            list@.len() == k as nat,
            node_bits(node_id@) == 0x0102_0304_0506,
            forall|i: int|
                0 <= i < list@.len() ==> uuid_text_with_version((#[trigger] list@[i])@, 6),
            forall|i: int|
                0 <= i < list@.len() ==> fixed_node_group_text((#[trigger] list@[i])@),
            forall|i: int| 0 <= i < list@.len() ==> hyphenated_of_some((#[trigger] list@[i])@),
        decreases n - k,
    {
        let b = now_v6_value(&node_id);
        let id = hyphenate_value(b);
        proof {
            lemma_v1_v6_element(b, 6);
            assert(hyphenated_of_some(id@));
        }
        list.push(id);
        k = k + 1;
    }
    list
}

/// Produces `n` fresh Unix-time (version 7) UUID texts.
pub fn gen_uuid_v7(n: u32) -> (r: Vec<String>)
    ensures
        r@.len() == n as nat,
        forall|i: int| 0 <= i < r@.len() ==> uuid_text_with_version((#[trigger] r@[i])@, 7),
        forall|i: int| 0 <= i < r@.len() ==> hyphenated_of_some((#[trigger] r@[i])@),
{
    let mut list: Vec<String> = Vec::new();
    let mut k: u32 = 0;
    while k < n
        invariant
            k <= n,
            list@.len() == k as nat,
            forall|i: int|
                0 <= i < list@.len() ==> uuid_text_with_version((#[trigger] list@[i])@, 7),
            forall|i: int| 0 <= i < list@.len() ==> hyphenated_of_some((#[trigger] list@[i])@),
        decreases n - k,
    {
        let b = now_v7_value();
        let id = hyphenate_value(b);
        proof {
            lemma_versioned_element(b, 7);
            assert(hyphenated_of_some(id@));
        }
        list.push(id);
        k = k + 1;
    }
    list
}

/// Produces `n` name-based MD5 (version 3) UUID texts.
///
/// An empty name yields the empty batch. Otherwise, under a namespace that
/// parses as a UUID the batch holds `n` copies of the one derived text;
/// under a namespace that does not parse, each element is derived from its
/// own freshly generated random namespace. Every element is a version-3
/// hyphenated text.
pub fn gen_uuid_v3(namespace: &str, name: &str, n: u32) -> (r: Vec<String>)
    ensures
        name@.len() == 0 ==> r@.len() == 0,
        name@.len() > 0 ==> r@.len() == n as nat,
        forall|i: int| 0 <= i < r@.len() ==> uuid_text_with_version((#[trigger] r@[i])@, 3),
        forall|i: int| 0 <= i < r@.len() ==> v3_of_some_namespace((#[trigger] r@[i])@, name@),
        uuid_parse(namespace@) matches Some(ns) ==> all_texts_are(
            r@,
            uuid_hyphenated(uuid_v3_value(ns, name@)),
        ),
{
    let mut list: Vec<String> = Vec::new();
    if name.is_empty() {
        return list;
    }
    let parsed = parse_uuid_value(namespace);
    let mut k: u32 = 0;
    match parsed {
        Some(ns) => {
            let ghost nsv: u128 = ns;
            let id = hyphenate_value(v3_value(ns, name));
            proof {
                lemma_versioned_element(uuid_v3_value(nsv, name@), 3);
            }
            while k < n
                invariant
                    k <= n,
                    list@.len() == k as nat,
                    id@ == uuid_hyphenated(uuid_v3_value(nsv, name@)),
                    uuid_text_with_version(id@, 3),
                    all_texts_are(list@, id@),
                    forall|i: int|
                        0 <= i < list@.len() ==> uuid_text_with_version(
                            (#[trigger] list@[i])@,
                            3,
                        ),
                decreases n - k,
            {
                list.push(id.clone());
                k = k + 1;
            }
            proof {
                assert forall|i: int| 0 <= i < list@.len() implies v3_of_some_namespace(
                    (#[trigger] list@[i])@,
                    name@,
                ) by {
                    assert(list@[i]@ == uuid_hyphenated(uuid_v3_value(nsv, name@)));
                }
            }
        },
        None => {
            while k < n
                invariant
                    k <= n,
                    list@.len() == k as nat,
                    forall|i: int|
                        0 <= i < list@.len() ==> uuid_text_with_version(
                            (#[trigger] list@[i])@,
                            3,
                        ),
                    forall|i: int|
                        0 <= i < list@.len() ==> v3_of_some_namespace(
                            (#[trigger] list@[i])@,
                            name@,
                        ),
                decreases n - k,
            {
                let b = random_uuid_value();
                let id = hyphenate_value(v3_value(b, name));
                proof {
                    lemma_versioned_element(uuid_v3_value(b, name@), 3);
                    assert(id@ == uuid_hyphenated(uuid_v3_value(b, name@)));
                    assert(v3_of_some_namespace(id@, name@));
                }
                list.push(id);
                k = k + 1;
            }
        },
    }
    list
}

/// Produces `n` name-based SHA-1 (version 5) UUID texts.
///
/// An empty name yields the empty batch. Otherwise, under a namespace that
/// parses as a UUID the batch holds `n` copies of the one derived text;
/// under a namespace that does not parse, each element is derived from its
/// own freshly generated random namespace. Every element is a version-5
/// hyphenated text.
pub fn gen_uuid_v5(namespace: &str, name: &str, n: u32) -> (r: Vec<String>)
    ensures
        name@.len() == 0 ==> r@.len() == 0,
        name@.len() > 0 ==> r@.len() == n as nat,
        forall|i: int| 0 <= i < r@.len() ==> uuid_text_with_version((#[trigger] r@[i])@, 5),
        forall|i: int| 0 <= i < r@.len() ==> v5_of_some_namespace((#[trigger] r@[i])@, name@),
        uuid_parse(namespace@) matches Some(ns) ==> all_texts_are(
            r@,
            uuid_hyphenated(uuid_v5_value(ns, name@)),
        ),
{
    let mut list: Vec<String> = Vec::new();
    if name.is_empty() {
        return list;
    }
    let parsed = parse_uuid_value(namespace);
    let mut k: u32 = 0;
    match parsed {
        Some(ns) => {
            let ghost nsv: u128 = ns;
            let id = hyphenate_value(v5_value(ns, name));
            proof {
                lemma_versioned_element(uuid_v5_value(nsv, name@), 5);
            }
            while k < n
                invariant
                    k <= n,
                    list@.len() == k as nat,
                    id@ == uuid_hyphenated(uuid_v5_value(nsv, name@)),
                    uuid_text_with_version(id@, 5),
                    all_texts_are(list@, id@),
                    forall|i: int|
                        0 <= i < list@.len() ==> uuid_text_with_version(
                            (#[trigger] list@[i])@,
                            5,
                        ),
                decreases n - k,
            {
                list.push(id.clone());
                k = k + 1;
            }
            proof {
                assert forall|i: int| 0 <= i < list@.len() implies v5_of_some_namespace(
                    (#[trigger] list@[i])@,
                    name@,
                ) by {
                    assert(list@[i]@ == uuid_hyphenated(uuid_v5_value(nsv, name@)));
                }
            }
        },
        None => {
            while k < n
                invariant
                    k <= n,
                    list@.len() == k as nat,
                    forall|i: int|
                        0 <= i < list@.len() ==> uuid_text_with_version(
                            (#[trigger] list@[i])@,
                            5,
                        ),
                    forall|i: int|
                        0 <= i < list@.len() ==> v5_of_some_namespace(
                            (#[trigger] list@[i])@,
                            name@,
                        ),
                decreases n - k,
            {
                let b = random_uuid_value();
                let id = hyphenate_value(v5_value(b, name));
                proof {
                    lemma_versioned_element(uuid_v5_value(b, name@), 5);
                    assert(id@ == uuid_hyphenated(uuid_v5_value(b, name@)));
                    assert(v5_of_some_namespace(id@, name@));
                }
                list.push(id);
                k = k + 1;
            }
        },
    }
    list
}

} // verus!
