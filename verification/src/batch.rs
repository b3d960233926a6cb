//! Shared vocabulary of the batch generators: the error type, spec
//! predicates over identifier texts and batches, the law that a batch of one
//! fixed text is constant, and the verified joining of a batch into lines.

use vstd::prelude::*;
use vstd::string::StringExecFns;

verus! {

/// A batch generation failure surfaced from an identifier library instead of
/// aborting the call.
#[derive(Clone, Copy, Debug, PartialEq, Eq, Structural)]
pub enum IdError {
    /// The random bits of a monotonic generator overflowed within one tick.
    RandomOverflow,
    /// A generator could not be built or could not read its time source.
    TimeUnavailable,
}

/// The character is a decimal digit.
pub open spec fn is_digit_char(c: char) -> bool {
    '0' <= c && c <= '9'
}

/// The character is a lowercase latin letter.
pub open spec fn is_lower_char(c: char) -> bool {
    'a' <= c && c <= 'z'
}

/// The character is an uppercase latin letter.
pub open spec fn is_upper_char(c: char) -> bool {
    'A' <= c && c <= 'Z'
}

/// The character is in the base62 alphabet: digits and latin letters.
pub open spec fn is_base62_char(c: char) -> bool {
    is_digit_char(c) || is_lower_char(c) || is_upper_char(c)
}

/// The character is a lowercase base36 digit.
pub open spec fn is_base36_lower_char(c: char) -> bool {
    is_digit_char(c) || is_lower_char(c)
}

/// The character is a lowercase hexadecimal digit.
pub open spec fn is_lower_hex_char(c: char) -> bool {
    is_digit_char(c) || ('a' <= c && c <= 'f')
}

/// The character is in the URL-safe alphabet: digits, latin letters,
/// underscore and hyphen.
pub open spec fn is_url_safe_char(c: char) -> bool {
    is_base62_char(c) || c == '_' || c == '-'
}

/// The character is a Crockford base32 digit: a decimal digit or an
/// uppercase letter other than I, L, O and U.
pub open spec fn is_crockford_char(c: char) -> bool {
    is_digit_char(c) || (is_upper_char(c) && c != 'I' && c != 'L' && c != 'O' && c != 'U')
}

/// Every character of the text is in the base62 alphabet.
pub open spec fn base62_text(t: Seq<char>) -> bool {
    forall|j: int| 0 <= j < t.len() ==> is_base62_char(#[trigger] t[j])
}

/// Every character of the text is a lowercase base36 digit.
pub open spec fn base36_lower_text(t: Seq<char>) -> bool {
    forall|j: int| 0 <= j < t.len() ==> is_base36_lower_char(#[trigger] t[j])
}

/// Every character of the text is a lowercase hexadecimal digit.
pub open spec fn lower_hex_text(t: Seq<char>) -> bool {
    forall|j: int| 0 <= j < t.len() ==> is_lower_hex_char(#[trigger] t[j])
}

/// Every character of the text is in the URL-safe alphabet.
pub open spec fn url_safe_text(t: Seq<char>) -> bool {
    forall|j: int| 0 <= j < t.len() ==> is_url_safe_char(#[trigger] t[j])
}

/// Every character of the text is a Crockford base32 digit.
pub open spec fn crockford_text(t: Seq<char>) -> bool {
    forall|j: int| 0 <= j < t.len() ==> is_crockford_char(#[trigger] t[j])
}

/// The first text precedes the second in lexicographic order: at some
/// position both texts have, all earlier characters agree and the first
/// text's character is smaller.
pub open spec fn lex_less(a: Seq<char>, b: Seq<char>) -> bool {
    exists|j: int|
        #![trigger a[j], b[j]]
        0 <= j < a.len() && j < b.len() && (forall|k: int| 0 <= k < j ==> a[k] == b[k]) && a[j]
            < b[j]
}

/// The batch's texts strictly ascend in lexicographic order, and so are
/// pairwise distinct.
pub open spec fn lex_sorted_distinct(v: Seq<String>) -> bool {
    forall|i: int, j: int|
        #![trigger v[i], v[j]]
        0 <= i < j < v.len() ==> lex_less(v[i]@, v[j]@) && v[i]@ != v[j]@
}

/// Every element of the batch carries the one fixed text `id`.
pub open spec fn all_texts_are(r: Seq<String>, id: Seq<char>) -> bool {
    forall|i: int| 0 <= i < r.len() ==> (#[trigger] r[i])@ == id
}

/// Every element of the batch has a text of exactly `k` characters.
pub open spec fn all_text_lens(r: Seq<String>, k: nat) -> bool {
    forall|i: int| 0 <= i < r.len() ==> (#[trigger] r[i])@.len() == k
}

/// A batch whose elements all carry one fixed text is constant: any two of
/// its elements are equal. This is the shape of every deterministic kind:
/// the constant kinds, and the name-based kinds under a valid namespace.
pub proof fn lemma_fixed_batch_pairwise_equal(r: Seq<String>, id: Seq<char>, i: int, j: int)
    requires
        all_texts_are(r, id),
        0 <= i < r.len(),
        0 <= j < r.len(),
    ensures
        r[i]@ == r[j]@,
{
}

/// The elements' texts joined with one newline between neighbours.
pub open spec fn join_texts(v: Seq<String>) -> Seq<char>
    decreases v.len(),
{
    if v.len() == 0 {
        Seq::empty()
    } else if v.len() == 1 {
        v[0]@
    } else {
        join_texts(v.drop_last()) + seq!['\n'] + v.last()@
    }
}

/// Joins a batch into one text, one identifier per line.
pub fn join_lines(v: &Vec<String>) -> (r: String)
    ensures
        r@ == join_texts(v@),
{
    let mut s = String::new();
    let mut i: usize = 0;
    while i < v.len()
        invariant
            i <= v@.len(),
            s@ == join_texts(v@.take(i as int)),
        decreases v@.len() - i,
    {
        if i > 0 {
            s.append("\n");
            proof {
                reveal_strlit("\n");
                assert(s@ =~= join_texts(v@.take(i as int)) + seq!['\n']);
            }
        }
        s.append(v[i].as_str());
        proof {
            let t = v@.take(i as int + 1);
            assert(t.drop_last() =~= v@.take(i as int));
            assert(t.last() == v@[i as int]);
            if i == 0 {
                assert(join_texts(t) == t[0]@);
                assert(s@ =~= join_texts(t));
            } else {
                assert(join_texts(t) == join_texts(v@.take(i as int)) + seq!['\n'] + v@[
                    i as int
                ]@);
                assert(s@ =~= join_texts(t));
            }
        }
        i = i + 1;
    }
    proof {
        assert(v@.take(v@.len() as int) =~= v@);
    }
    s
}

} // verus!
