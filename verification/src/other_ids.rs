//! Batch generators for the non-UUID identifier kinds.
//!
//! Every kind here is time-based or random: each element's value depends on
//! the clock, on random bits or on a private counter of its library, so the
//! contracts state the batch's length, the shape and charset each library
//! gives its text, and — for the monotonic generators (ULID, Sonyflake) —
//! that the batch renders strictly increasing values. The numeric kinds
//! (Snowflake, Sonyflake) hand back machine words, which verified code
//! renders in base 10.

use crate::batch::IdError;
use crate::batch::all_text_lens;
use crate::batch::is_crockford_char;
use crate::batch::lex_less;
use crate::batch::lex_sorted_distinct;
use crate::batch::base36_lower_text;
use crate::batch::base62_text;
use crate::batch::crockford_text;
use crate::batch::is_lower_char;
use crate::batch::lower_hex_text;
use crate::batch::url_safe_text;
use crate::decimal::dec_text;
use crate::decimal::dec_text_signed;
use crate::decimal::i64_dec_string;
use crate::decimal::lemma_dec_text_nonempty;
use crate::decimal::lemma_dec_text_signed_nonempty;
use crate::decimal::u64_dec_string;
use vstd::prelude::*;

verus! {

/// The text is the base-10 rendering of some 64-bit word.
pub open spec fn dec_text_of_some_u64(t: Seq<char>) -> bool {
    exists|x: u64| t == dec_text(x as nat)
}

/// The text is the signed base-10 rendering of some 64-bit word.
pub open spec fn dec_text_of_some_i64(t: Seq<char>) -> bool {
    exists|x: i64| t == dec_text_signed(x as int)
}

#[verifier::external_type_specification]
#[verifier::external_body]
pub struct ExUlidGenerator(ulid::Generator);

#[verifier::external_type_specification]
#[verifier::external_body]
pub struct ExNuid(nuid::NUID);

#[verifier::external_type_specification]
#[verifier::external_body]
pub struct ExSnowflakeIdGenerator(snowflake::SnowflakeIdGenerator);

#[verifier::external_type_specification]
#[verifier::external_body]
pub struct ExSonyflake(sonyflake::Sonyflake);

/// Relies on nanoid::format with the crate's default URL-safe 64-character
/// alphabet and default size of 21, exactly as the crate's plain macro form
/// expands to: a random 21-character identifier over digits, latin letters,
/// underscore and hyphen.
#[verifier::external_body]
fn nanoid_string() -> (r: String)
    ensures
        r@.len() == 21,
        url_safe_text(r@),
{
    nanoid::format(nanoid::rngs::default, &nanoid::alphabet::SAFE, 21)
}

/// The 128-bit value of the last ULID a generator handed out; zero for a
/// fresh generator, whose last value is the nil ULID.
pub uninterp spec fn ulid_generator_prev(g: ulid::Generator) -> u128;

/// The Crockford base32 digit character for one five-bit value.
pub open spec fn crockford_digit(d: nat) -> char {
    if d == 0 {
        '0'
    } else if d == 1 {
        '1'
    } else if d == 2 {
        '2'
    } else if d == 3 {
        '3'
    } else if d == 4 {
        '4'
    } else if d == 5 {
        '5'
    } else if d == 6 {
        '6'
    } else if d == 7 {
        '7'
    } else if d == 8 {
        '8'
    } else if d == 9 {
        '9'
    } else if d == 10 {
        'A'
    } else if d == 11 {
        'B'
    } else if d == 12 {
        'C'
    } else if d == 13 {
        'D'
    } else if d == 14 {
        'E'
    } else if d == 15 {
        'F'
    } else if d == 16 {
        'G'
    } else if d == 17 {
        'H'
    } else if d == 18 {
        'J'
    } else if d == 19 {
        'K'
    } else if d == 20 {
        'M'
    } else if d == 21 {
        'N'
    } else if d == 22 {
        'P'
    } else if d == 23 {
        'Q'
    } else if d == 24 {
        'R'
    } else if d == 25 {
        'S'
    } else if d == 26 {
        'T'
    } else if d == 27 {
        'V'
    } else if d == 28 {
        'W'
    } else if d == 29 {
        'X'
    } else if d == 30 {
        'Y'
    } else {
        'Z'
    }
}

/// The low `count` five-bit groups of `v` as Crockford digits, most
/// significant first.
pub open spec fn crockford_groups(v: u128, count: nat) -> Seq<char>
    decreases count,
{
    if count == 0 {
        Seq::empty()
    } else {
        crockford_groups(v / 32, (count - 1) as nat) + seq![crockford_digit((v % 32) as nat)]
    }
}

/// The 26-character Crockford base32 text of a 128-bit ULID value: its
/// twenty-six five-bit groups as digits, most significant first; the top
/// group holds the value's top three bits.
pub open spec fn ulid_text_of(v: u128) -> Seq<char> {
    crockford_groups(v, 26)
}

/// Powers of 32.
pub open spec fn pow32(n: nat) -> int
    decreases n,
{
    if n == 0 {
        1
    } else {
        32 * pow32((n - 1) as nat)
    }
}

proof fn lemma_crockford_groups_len(v: u128, count: nat)
    ensures
        crockford_groups(v, count).len() == count,
    decreases count,
{
    if count > 0 {
        lemma_crockford_groups_len(v / 32, (count - 1) as nat);
    }
}

/// Every Crockford digit character is in the Crockford charset.
proof fn lemma_crockford_digit_charset(d: nat)
    ensures
        is_crockford_char(crockford_digit(d)),
{
}

/// The Crockford digit characters ascend with the five-bit values.
proof fn lemma_crockford_digit_order(d1: nat, d2: nat)
    requires
        d1 < d2 < 32,
    ensures
        crockford_digit(d1) < crockford_digit(d2),
{
}

proof fn lemma_crockford_groups_charset(v: u128, count: nat)
    ensures
        crate::batch::crockford_text(crockford_groups(v, count)),
    decreases count,
{
    if count > 0 {
        let cm1 = (count - 1) as nat;
        lemma_crockford_groups_charset(v / 32, cm1);
        lemma_crockford_groups_len(v / 32, cm1);
        let p = crockford_groups(v / 32, cm1);
        let t = crockford_groups(v, count);
        assert(t == p + seq![crockford_digit((v % 32) as nat)]);
        assert forall|j: int| 0 <= j < t.len() implies is_crockford_char(#[trigger] t[j]) by {
            if j < p.len() {
                assert(t[j] == p[j]);
                assert(is_crockford_char(p[j]));
            } else {
                assert(t[j] == crockford_digit((v % 32) as nat));
                lemma_crockford_digit_charset((v % 32) as nat);
            }
        }
    }
}

/// A smaller value's fixed-width Crockford text precedes a larger one's:
/// the most-significant-first base32 rendering preserves numeric order.
proof fn lemma_crockford_groups_order(a: u128, b: u128, count: nat)
    requires
        a < b,
        (b as int) < pow32(count),
    ensures
        lex_less(crockford_groups(a, count), crockford_groups(b, count)),
    decreases count,
{
    if count == 0 {
        assert(pow32(0) == 1);
        assert(false);
    } else {
        let cm1 = (count - 1) as nat;
        let pa = crockford_groups(a / 32, cm1);
        let pb = crockford_groups(b / 32, cm1);
        let da = crockford_digit((a % 32) as nat);
        let db = crockford_digit((b % 32) as nat);
        lemma_crockford_groups_len(a / 32, cm1);
        lemma_crockford_groups_len(b / 32, cm1);
        assert(crockford_groups(a, count) == pa + seq![da]);
        assert(crockford_groups(b, count) == pb + seq![db]);
        assert(a == 32 * (a / 32) + a % 32);
        assert(b == 32 * (b / 32) + b % 32);
        if a / 32 == b / 32 {
            assert(a % 32 < b % 32);
            lemma_crockford_digit_order((a % 32) as nat, (b % 32) as nat);
            let j = cm1 as int;
            assert((pa + seq![da])[j] == da);
            assert((pb + seq![db])[j] == db);
            assert forall|k: int| 0 <= k < j implies (pa + seq![da])[k] == (pb + seq![db])[k] by {
                assert((pa + seq![da])[k] == pa[k]);
                assert((pb + seq![db])[k] == pb[k]);
            }
            assert(lex_less(pa + seq![da], pb + seq![db]));
        } else {
            assert(a / 32 < b / 32);
            assert(pow32(count) == 32 * pow32(cm1));
            assert(((b / 32) as int) < pow32(cm1));
            lemma_crockford_groups_order(a / 32, b / 32, cm1);
            let j = choose|j: int|
                #![trigger pa[j], pb[j]]
                0 <= j < pa.len() && j < pb.len() && (forall|k: int| 0 <= k < j ==> pa[k]
                    == pb[k]) && pa[j] < pb[j];
            assert((pa + seq![da])[j] == pa[j]);
            assert((pb + seq![db])[j] == pb[j]);
            assert forall|k: int| 0 <= k < j implies (pa + seq![da])[k] == (pb + seq![db])[k] by {
                assert((pa + seq![da])[k] == pa[k]);
                assert((pb + seq![db])[k] == pb[k]);
            }
            assert(lex_less(pa + seq![da], pb + seq![db]));
        }
    }
}

/// A smaller ULID value's text precedes a larger one's in lexicographic
/// order, and the two texts differ.
pub proof fn lemma_ulid_text_order(a: u128, b: u128)
    requires
        a < b,
    ensures
        lex_less(ulid_text_of(a), ulid_text_of(b)),
        ulid_text_of(a) != ulid_text_of(b),
{
    assert((b as int) < pow32(26)) by {
        reveal_with_fuel(pow32, 27);
    }
    lemma_crockford_groups_order(a, b, 26);
    let ta = ulid_text_of(a);
    let tb = ulid_text_of(b);
    assert(ta != tb) by {
        let j = choose|j: int|
            #![trigger ta[j], tb[j]]
            0 <= j < ta.len() && j < tb.len() && (forall|k: int| 0 <= k < j ==> ta[k] == tb[k])
                && ta[j] < tb[j];
        assert(ta[j] != tb[j]);
    }
}

/// Relies on ulid::Generator::new: a fresh generator for monotonically
/// ordered ULIDs, whose last value is the nil ULID.
#[verifier::external_body]
fn ulid_generator_new() -> (r: ulid::Generator)
    ensures
        ulid_generator_prev(r) == 0,
{
    ulid::Generator::new()
}

/// Relies on ulid::Generator::generate: the next ULID value, drawn from the
/// clock and random bits and on every outcome strictly larger than the last
/// one the generator handed out, which it becomes; or nothing when the
/// random bits would overflow.
#[verifier::external_body]
fn ulid_generate_value(g: &mut ulid::Generator) -> (r: Option<u128>)
    ensures
        r matches Some(v) ==> v > ulid_generator_prev(*old(g)) && ulid_generator_prev(
            *final (g),
        ) == v,
{
    match g.generate() {
        Ok(u) => Some(u.0),
        Err(_) => None,
    }
}

/// Relies on ulid::Ulid's Display: the 26-character Crockford base32 text of
/// the value, most significant five-bit group first, exactly as
/// `ulid_text_of` spells it.
#[verifier::external_body]
fn ulid_value_text(v: u128) -> (r: String)
    ensures
        r@ == ulid_text_of(v),
{
    ulid::Ulid(v).to_string()
}

/// Relies on cuid::cuid1: a CUID built from the clock, a counter, a host
/// fingerprint and random blocks, every part rendered in lowercase base36;
/// its text always starts with the letter 'c'.
#[verifier::external_body]
fn cuid1_string() -> (r: String)
    ensures
        r@.len() >= 1,
        r@[0] == 'c',
        base36_lower_text(r@),
{
    cuid::cuid1()
}

/// Relies on cuid::cuid2: a CUID2 of the crate's default length, a starting
/// lowercase letter followed by up to 23 lowercase base36 digits of a hash.
#[verifier::external_body]
fn cuid2_string() -> (r: String)
    ensures
        1 <= r@.len() <= 24,
        is_lower_char(r@[0]),
        base36_lower_text(r@),
{
    cuid::cuid2()
}

/// Relies on nuid::NUID::new: a fresh NUID generator; its prefix is seeded
/// on the first draw.
#[verifier::external_body]
fn nuid_new() -> (r: nuid::NUID) {
    nuid::NUID::new()
}

/// Relies on nuid::NUID::next: the next NUID, 12 random characters followed
/// by 10 sequential ones, 22 base62 characters in all.
#[verifier::external_body]
fn nuid_next(g: &mut nuid::NUID) -> (r: String)
    ensures
        r@.len() == 22,
        base62_text(r@),
{
    g.next().as_str().to_owned()
}

/// Relies on snowflake::SnowflakeIdGenerator::new: a generator for the given
/// machine and node ids, against the Unix epoch.
#[verifier::external_body]
fn snowflake_generator_new(machine_id: i32, node_id: i32) -> (r:
    snowflake::SnowflakeIdGenerator) {
    snowflake::SnowflakeIdGenerator::new(machine_id, node_id)
}

/// Relies on snowflake::SnowflakeIdGenerator::generate: the next snowflake
/// id, a 64-bit word built from the clock, the machine and node ids and a
/// counter. The word's sign bit is clear only while the epoch milliseconds
/// fit in 41 bits, which the source does not bound, so no sign is promised.
#[verifier::external_body]
fn snowflake_generate(g: &mut snowflake::SnowflakeIdGenerator) -> (r: i64) {
    g.generate()
}

/// A Sonyflake generator paired with the last id it handed out. The
/// library's elapsed-time and sequence state sits behind a mutex inside
/// `inner`; the `last` field records the last id drawn from it and is set
/// only by the trusted draw below.
pub struct SonyflakeGen {
    inner: sonyflake::Sonyflake,
    last: Option<u64>,
}

/// Relies on sonyflake::Sonyflake::new: a generator with the crate's default
/// settings and no id handed out yet; or nothing when the machine id or the
/// start time cannot be determined.
#[verifier::external_body]
fn sonyflake_gen_new() -> (r: Option<SonyflakeGen>)
    ensures
        r matches Some(g) ==> g.last is None,
{
    match sonyflake::Sonyflake::new() {
        Ok(inner) => Some(SonyflakeGen { inner, last: None }),
        Err(_) => None,
    }
}

impl SonyflakeGen {
    /// Relies on sonyflake::Sonyflake::next_id: the next id as a 64-bit word
    /// built from elapsed time, a sequence counter and the machine id. The
    /// mutex-held elapsed-time never decreases and the (elapsed-time,
    /// sequence) pair strictly advances on every success, so each id
    /// strictly exceeds the one drawn before it; or nothing once the
    /// generator's time limit is exceeded or its lock is poisoned.
    #[verifier::external_body]
    fn next_id(&mut self) -> (r: Option<u64>)
        ensures
            r matches Some(v) ==> (old(self).last matches Some(p) ==> v > p) && final (self).last
                == Some(v),
    {
        match self.inner.next_id() {
            Ok(id) => {
                let v = id.to_u64();
                self.last = Some(v);
                Some(v)
            },
            Err(_) => None,
        }
    }
}

/// Relies on upid::Upid::new and Upid::to_string: an id from the prefix, the
/// current time and random bits, rendered as 27 characters: four prefix
/// characters, an underscore, and 22 base32 characters of time, randomness
/// and version.
#[verifier::external_body]
fn upid_string(prefix: &str) -> (r: String)
    ensures
        r@.len() == 27,
{
    upid::Upid::new(prefix).to_string()
}

/// Relies on tsid::create_tsid and TSID's Display: the next id from the
/// crate's shared factory, rendered as exactly 13 Crockford base32
/// characters.
#[verifier::external_body]
fn tsid_string() -> (r: String)
    ensures
        r@.len() == 13,
        crockford_text(r@),
{
    tsid::create_tsid().to_string()
}

/// Relies on bson::oid::ObjectId::new and ObjectId::to_hex: a fresh 12-byte
/// object id from the time, a process-random value and a counter, as 24 hex
/// characters.
#[verifier::external_body]
fn object_id_hex() -> (r: String)
    ensures
        r@.len() == 24,
        lower_hex_text(r@),
{
    bson::oid::ObjectId::new().to_hex()
}

/// Relies on scru128::new_string: the next SCRU128 id from the process-wide
/// generator, 25 base36 digits.
#[verifier::external_body]
fn scru128_string() -> (r: String)
    ensures
        r@.len() == 25,
        base36_lower_text(r@),
{
    scru128::new_string()
}

/// Relies on short_uuid::ShortUuid::generate and its Display: a fresh random
/// UUID converted to flickrBase58 text, padded to its fixed width of 22
/// characters.
#[verifier::external_body]
fn short_uuid_string() -> (r: String)
    ensures
        r@.len() == 22,
{
    short_uuid::ShortUuid::generate().to_string()
}

/// Produces `n` fresh NanoIDs of the default 21-character URL-safe form.
pub fn gen_nano_id(n: u32) -> (r: Vec<String>)
    ensures
        r@.len() == n as nat,
        all_text_lens(r@, 21),
        forall|i: int| 0 <= i < r@.len() ==> url_safe_text((#[trigger] r@[i])@),
{
    let mut list: Vec<String> = Vec::new();
    let mut k: u32 = 0;
    while k < n
        invariant
            k <= n,
            list@.len() == k as nat,
            all_text_lens(list@, 21),
            forall|i: int| 0 <= i < list@.len() ==> url_safe_text((#[trigger] list@[i])@),
        decreases n - k,
    {
        list.push(nanoid_string());
        k = k + 1;
    }
    list
}

/// The batch renders a strictly increasing sequence of ULID values: the
/// generator's monotonic order, element by element.
pub open spec fn monotonic_ulid_batch(v: Seq<String>) -> bool {
    exists|vals: Seq<u128>|
        #![trigger vals.len()]
        vals.len() == v.len() && (forall|i: int|
            0 <= i < vals.len() ==> (#[trigger] v[i])@ == ulid_text_of(vals[i])) && (forall|
            i: int,
        |
            0 < i < vals.len() ==> vals[i - 1] < #[trigger] vals[i])
}

/// Produces `n` monotonically ordered ULID texts, or reports the overflow of
/// the generator's random bits. The texts render strictly increasing values
/// and are themselves strictly ascending lexicographically, with no
/// duplicates.
pub fn gen_ulid(n: u32) -> (r: Result<Vec<String>, IdError>)
    ensures
        r matches Ok(v) ==> v@.len() == n as nat && all_text_lens(v@, 26) && (forall|i: int|
            0 <= i < v@.len() ==> crockford_text((#[trigger] v@[i])@)) && monotonic_ulid_batch(
            v@,
        ) && lex_sorted_distinct(v@),
        r matches Err(e) ==> e == IdError::RandomOverflow,
        n == 0 ==> r is Ok,
{
    let mut list: Vec<String> = Vec::new();
    let mut g = ulid_generator_new();
    let ghost mut vals: Seq<u128> = Seq::empty();
    let mut k: u32 = 0;
    while k < n
        invariant
            k <= n,
            list@.len() == k as nat,
            all_text_lens(list@, 26),
            forall|i: int| 0 <= i < list@.len() ==> crockford_text((#[trigger] list@[i])@),
            vals.len() == list@.len(),
            forall|i: int| 0 <= i < vals.len() ==> (#[trigger] list@[i])@ == ulid_text_of(
                vals[i],
            ),
            forall|i: int, j: int|
                #![trigger vals[i], vals[j]]
                0 <= i < j < vals.len() ==> vals[i] < vals[j],
            ulid_generator_prev(g) == if vals.len() == 0 {
                0u128
            } else {
                vals.last()
            },
        decreases n - k,
    {
        match ulid_generate_value(&mut g) {
            Some(v) => {
                let id = ulid_value_text(v);
                proof {
                    lemma_crockford_groups_len(v, 26);
                    lemma_crockford_groups_charset(v, 26);
                }
                list.push(id);
                proof {
                    let old_vals = vals;
                    vals = vals.push(v);
                    assert forall|i: int, j: int|
                        #![trigger vals[i], vals[j]]
                        0 <= i < j < vals.len() implies vals[i] < vals[j] by {
                        if j < vals.len() - 1 {
                            assert(vals[i] == old_vals[i] && vals[j] == old_vals[j]);
                        } else {
                            assert(vals[j] == v);
                            if i < old_vals.len() - 1 {
                                assert(vals[i] == old_vals[i]);
                                assert(old_vals[i] < old_vals[old_vals.len() - 1]);
                            } else {
                                assert(vals[i] == old_vals[old_vals.len() - 1]);
                            }
                        }
                    }
                }
            },
            None => {
                return Err(IdError::RandomOverflow);
            },
        }
        k = k + 1;
    }
    proof {
        assert(monotonic_ulid_batch(list@)) by {
            assert(vals.len() == list@.len() && (forall|i: int|
                0 <= i < vals.len() ==> (#[trigger] list@[i])@ == ulid_text_of(vals[i])) && (
            forall|i: int| 0 < i < vals.len() ==> vals[i - 1] < #[trigger] vals[i]));
        }
        assert forall|i: int, j: int|
            #![trigger list@[i], list@[j]]
            0 <= i < j < list@.len() implies lex_less((list@[i])@, (list@[j])@) && (list@[i])@
            != (list@[j])@ by {
            assert(vals[i] < vals[j]);
            lemma_ulid_text_order(vals[i], vals[j]);
            assert((list@[i])@ == ulid_text_of(vals[i]));
            assert((list@[j])@ == ulid_text_of(vals[j]));
        }
        assert(lex_sorted_distinct(list@));
    }
    Ok(list)
}

/// Produces `n` fresh CUIDs; each is non-empty lowercase base36 text that
/// starts with the letter 'c'.
pub fn gen_cuid(n: u32) -> (r: Vec<String>)
    ensures
        r@.len() == n as nat,
        forall|i: int|
            0 <= i < r@.len() ==> (#[trigger] r@[i])@.len() >= 1 && r@[i]@[0] == 'c'
                && base36_lower_text(r@[i]@),
{
    let mut list: Vec<String> = Vec::new();
    let mut k: u32 = 0;
    while k < n
        invariant
            k <= n,
            list@.len() == k as nat,
            forall|i: int|
                0 <= i < list@.len() ==> (#[trigger] list@[i])@.len() >= 1 && list@[i]@[0]
                    == 'c' && base36_lower_text(list@[i]@),
        decreases n - k,
    {
        list.push(cuid1_string());
        k = k + 1;
    }
    list
}

/// Produces `n` fresh CUID2s of the default form: each at most 24
/// characters, never empty, lowercase base36, starting with a letter.
pub fn gen_cuid2(n: u32) -> (r: Vec<String>)
    ensures
        r@.len() == n as nat,
        forall|i: int|
            0 <= i < r@.len() ==> 1 <= (#[trigger] r@[i])@.len() <= 24 && is_lower_char(
                r@[i]@[0],
            ) && base36_lower_text(r@[i]@),
{
    let mut list: Vec<String> = Vec::new();
    let mut k: u32 = 0;
    while k < n
        invariant
            k <= n,
            list@.len() == k as nat,
            forall|i: int|
                0 <= i < list@.len() ==> 1 <= (#[trigger] list@[i])@.len() <= 24
                    && is_lower_char(list@[i]@[0]) && base36_lower_text(list@[i]@),
        decreases n - k,
    {
        list.push(cuid2_string());
        k = k + 1;
    }
    list
}

/// Produces `n` fresh 22-character base62 NUIDs from one generator.
pub fn gen_nuid(n: u32) -> (r: Vec<String>)
    ensures
        r@.len() == n as nat,
        all_text_lens(r@, 22),
        forall|i: int| 0 <= i < r@.len() ==> base62_text((#[trigger] r@[i])@),
{
    let mut list: Vec<String> = Vec::new();
    let mut g = nuid_new();
    let mut k: u32 = 0;
    while k < n
        invariant
            k <= n,
            list@.len() == k as nat,
            all_text_lens(list@, 22),
            forall|i: int| 0 <= i < list@.len() ==> base62_text((#[trigger] list@[i])@),
        decreases n - k,
    {
        list.push(nuid_next(&mut g));
        k = k + 1;
    }
    list
}

/// Produces `n` snowflake ids from one generator for machine 1, node 1, each
/// rendered in base 10.
pub fn gen_snowflake(n: u32) -> (r: Vec<String>)
    ensures
        r@.len() == n as nat,
        forall|i: int| 0 <= i < r@.len() ==> dec_text_of_some_i64((#[trigger] r@[i])@),
        forall|i: int| 0 <= i < r@.len() ==> (#[trigger] r@[i])@.len() >= 1,
{
    let mut list: Vec<String> = Vec::new();
    let mut g = snowflake_generator_new(1, 1);
    let mut k: u32 = 0;
    while k < n
        invariant
            k <= n,
            list@.len() == k as nat,
            forall|i: int| 0 <= i < list@.len() ==> dec_text_of_some_i64((#[trigger] list@[i])@),
            forall|i: int| 0 <= i < list@.len() ==> (#[trigger] list@[i])@.len() >= 1,
        decreases n - k,
    {
        let x = snowflake_generate(&mut g);
        let id = i64_dec_string(x);
        proof {
            assert(dec_text_of_some_i64(id@));
            lemma_dec_text_signed_nonempty(x as int);
        }
        list.push(id);
        k = k + 1;
    }
    list
}

/// The batch renders a strictly increasing sequence of 64-bit words in base
/// 10: the generator's monotonic order, element by element.
pub open spec fn monotonic_sonyflake_batch(v: Seq<String>) -> bool {
    exists|vals: Seq<u64>|
        #![trigger vals.len()]
        vals.len() == v.len() && (forall|i: int|
            0 <= i < vals.len() ==> (#[trigger] v[i])@ == dec_text(vals[i] as nat)) && (forall|
            i: int,
            j: int,
        |
            #![trigger vals[i], vals[j]]
            0 <= i < j < vals.len() ==> vals[i] < vals[j])
}

/// Produces `n` sonyflake ids from one generator with default settings, each
/// rendered in base 10; the batch renders strictly increasing values. Or
/// reports that the generator was unavailable or exhausted.
pub fn gen_sonyflake(n: u32) -> (r: Result<Vec<String>, IdError>)
    ensures
        r matches Ok(v) ==> v@.len() == n as nat && (forall|i: int|
            0 <= i < v@.len() ==> dec_text_of_some_u64((#[trigger] v@[i])@)
                && v@[i]@.len() >= 1) && monotonic_sonyflake_batch(v@),
        r matches Err(e) ==> e == IdError::TimeUnavailable,
{
    let mut g = match sonyflake_gen_new() {
        Some(g) => g,
        None => {
            return Err(IdError::TimeUnavailable);
        },
    };
    let mut list: Vec<String> = Vec::new();
    let ghost mut vals: Seq<u64> = Seq::empty();
    let mut k: u32 = 0;
    while k < n
        invariant
            k <= n,
            list@.len() == k as nat,
            forall|i: int|
                0 <= i < list@.len() ==> dec_text_of_some_u64((#[trigger] list@[i])@)
                    && list@[i]@.len() >= 1,
            vals.len() == list@.len(),
            forall|i: int|
                0 <= i < vals.len() ==> (#[trigger] list@[i])@ == dec_text(vals[i] as nat),
            forall|i: int, j: int|
                #![trigger vals[i], vals[j]]
                0 <= i < j < vals.len() ==> vals[i] < vals[j],
            vals.len() == 0 ==> g.last is None,
            vals.len() > 0 ==> g.last == Some(vals.last()),
        decreases n - k,
    {
        let x = match g.next_id() {
            Some(x) => x,
            None => {
                return Err(IdError::TimeUnavailable);
            },
        };
        let id = u64_dec_string(x);
        proof {
            assert(dec_text_of_some_u64(id@));
            lemma_dec_text_nonempty(x as nat);
        }
        list.push(id);
        proof {
            let old_vals = vals;
            vals = vals.push(x);
            assert forall|i: int, j: int|
                #![trigger vals[i], vals[j]]
                0 <= i < j < vals.len() implies vals[i] < vals[j] by {
                if j < vals.len() - 1 {
                    assert(vals[i] == old_vals[i] && vals[j] == old_vals[j]);
                } else {
                    assert(vals[j] == x);
                    if i < old_vals.len() - 1 {
                        assert(vals[i] == old_vals[i]);
                        assert(old_vals[i] < old_vals[old_vals.len() - 1]);
                    } else {
                        assert(vals[i] == old_vals[old_vals.len() - 1]);
                    }
                }
            }
        }
        k = k + 1;
    }
    proof {
        assert(monotonic_sonyflake_batch(list@)) by {
            assert(vals.len() == list@.len() && (forall|i: int|
                0 <= i < vals.len() ==> (#[trigger] list@[i])@ == dec_text(vals[i] as nat)) && (
            forall|i: int, j: int|
                #![trigger vals[i], vals[j]]
                0 <= i < j < vals.len() ==> vals[i] < vals[j]));
        }
    }
    Ok(list)
}

/// Produces `n` fresh UPIDs carrying the given prefix, each 27 characters.
/// The prefix is handed to the library unvalidated, as given.
pub fn gen_upid(prefix: &str, n: u32) -> (r: Vec<String>)
    ensures
        r@.len() == n as nat,
        all_text_lens(r@, 27),
{
    let mut list: Vec<String> = Vec::new();
    let mut k: u32 = 0;
    while k < n
        invariant
            k <= n,
            list@.len() == k as nat,
            all_text_lens(list@, 27),
        decreases n - k,
    {
        list.push(upid_string(prefix));
        k = k + 1;
    }
    list
}

/// Produces `n` fresh TSIDs, each 13 Crockford base32 characters.
pub fn gen_tsid(n: u32) -> (r: Vec<String>)
    ensures
        r@.len() == n as nat,
        all_text_lens(r@, 13),
        forall|i: int| 0 <= i < r@.len() ==> crockford_text((#[trigger] r@[i])@),
{
    let mut list: Vec<String> = Vec::new();
    let mut k: u32 = 0;
    while k < n
        invariant
            k <= n,
            list@.len() == k as nat,
            all_text_lens(list@, 13),
            forall|i: int| 0 <= i < list@.len() ==> crockford_text((#[trigger] list@[i])@),
        decreases n - k,
    {
        list.push(tsid_string());
        k = k + 1;
    }
    list
}

/// Produces `n` fresh ObjectIds, each 24 lowercase hex characters.
pub fn gen_object_id(n: u32) -> (r: Vec<String>)
    ensures
        r@.len() == n as nat,
        all_text_lens(r@, 24),
        forall|i: int| 0 <= i < r@.len() ==> lower_hex_text((#[trigger] r@[i])@),
{
    let mut list: Vec<String> = Vec::new();
    let mut k: u32 = 0;
    while k < n
        invariant
            k <= n,
            list@.len() == k as nat,
            all_text_lens(list@, 24),
            forall|i: int| 0 <= i < list@.len() ==> lower_hex_text((#[trigger] list@[i])@),
        decreases n - k,
    {
        list.push(object_id_hex());
        k = k + 1;
    }
    list
}

/// Produces `n` fresh SCRU128 ids, each 25 lowercase base36 digits.
pub fn gen_scru128(n: u32) -> (r: Vec<String>)
    ensures
        r@.len() == n as nat,
        all_text_lens(r@, 25),
        forall|i: int| 0 <= i < r@.len() ==> base36_lower_text((#[trigger] r@[i])@),
{
    let mut list: Vec<String> = Vec::new();
    let mut k: u32 = 0;
    while k < n
        invariant
            k <= n,
            list@.len() == k as nat,
            all_text_lens(list@, 25),
            forall|i: int| 0 <= i < list@.len() ==> base36_lower_text((#[trigger] list@[i])@),
        decreases n - k,
    {
        list.push(scru128_string());
        k = k + 1;
    }
    list
}

/// Produces `n` fresh short UUIDs in flickrBase58 text, each 22 characters.
pub fn gen_short_uuid(n: u32) -> (r: Vec<String>)
    ensures
        r@.len() == n as nat,
        all_text_lens(r@, 22),
{
    let mut list: Vec<String> = Vec::new();
    let mut k: u32 = 0;
    while k < n
        invariant
            k <= n,
            list@.len() == k as nat,
            all_text_lens(list@, 22),
        decreases n - k,
    {
        list.push(short_uuid_string());
        k = k + 1;
    }
    list
}

} // verus!
