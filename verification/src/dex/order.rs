//! Lexicographic order: of sequences over an ordered element type, and of
//! strings by the bytes of their UTF-8 form.

use vstd::prelude::*;
use vstd::string::StringSliceAdditionalSpecFns;
use vstd::utf8::{encode_utf8, encode_utf8_decode_utf8};

verus! {

/// How one value stands to another in an order.
#[derive(Clone, Copy, Debug, PartialEq, Eq, Structural)]
pub enum Rank {
    Before,
    Same,
    After,
}

/// `lt` is a strict total order: nothing is below itself, below goes on
/// through a chain, and of two different values one is below the other.
pub open spec fn strict_total<T>(lt: spec_fn(T, T) -> bool) -> bool {
    &&& forall|x: T| !#[trigger] lt(x, x)
    &&& forall|x: T, y: T, z: T| #[trigger] lt(x, y) && #[trigger] lt(y, z) ==> lt(x, z)
    &&& forall|x: T, y: T| #[trigger] lt(x, y) || x == y || lt(y, x)
}

/// `a` comes before `b` in the lexicographic order over `lt`: at the first
/// position where they differ `a` has the lesser element, or `a` ends there
/// and `b` goes on.
pub open spec fn lex_lt<T>(lt: spec_fn(T, T) -> bool, a: Seq<T>, b: Seq<T>) -> bool
    decreases a.len(),
{
    if b.len() == 0 {
        false
    } else if a.len() == 0 {
        true
    } else if a[0] == b[0] {
        lex_lt(lt, a.drop_first(), b.drop_first())
    } else {
        lt(a[0], b[0])
    }
}

/// No sequence comes before itself.
pub proof fn lex_irreflexive<T>(lt: spec_fn(T, T) -> bool, a: Seq<T>)
    ensures
        !lex_lt(lt, a, a),
    decreases a.len(),
{
    if a.len() > 0 {
        lex_irreflexive(lt, a.drop_first());
    }
}

/// The lexicographic order over a strict total order goes on through a chain.
pub proof fn lex_transitive<T>(lt: spec_fn(T, T) -> bool, a: Seq<T>, b: Seq<T>, c: Seq<T>)
    requires
        strict_total(lt),
        lex_lt(lt, a, b),
        lex_lt(lt, b, c),
    ensures
        lex_lt(lt, a, c),
    decreases a.len(),
{
    if a.len() > 0 && a[0] == b[0] && b[0] == c[0] {
        lex_transitive(lt, a.drop_first(), b.drop_first(), c.drop_first());
    }
}

/// Of two different sequences one comes before the other.
pub proof fn lex_total<T>(lt: spec_fn(T, T) -> bool, a: Seq<T>, b: Seq<T>)
    requires
        strict_total(lt),
    ensures
        lex_lt(lt, a, b) || a == b || lex_lt(lt, b, a),
    decreases a.len(),
{
    if a.len() > 0 && b.len() > 0 && a[0] == b[0] {
        lex_total(lt, a.drop_first(), b.drop_first());
        if a.drop_first() == b.drop_first() {
            assert(b =~= seq![b[0]] + b.drop_first());
        }
    }
}

/// Below a common prefix the order of two sequences is that of what follows it.
pub proof fn lex_skips_common_prefix<T>(lt: spec_fn(T, T) -> bool, a: Seq<T>, b: Seq<T>, k: int)
    requires
        0 <= k <= a.len(),
        k <= b.len(),
        a.take(k) == b.take(k),
    ensures
        lex_lt(lt, a, b) == lex_lt(lt, a.skip(k), b.skip(k)),
    decreases k,
{
    if k == 0 {
        assert(a.skip(0) =~= a);
        assert(b.skip(0) =~= b);
    } else {
        assert(b[0] == b.take(k)[0]);
        let a1 = a.drop_first();
        let b1 = b.drop_first();
        assert(a1.take(k - 1) =~= a.take(k).drop_first());
        assert(b1.take(k - 1) =~= b.take(k).drop_first());
        lex_skips_common_prefix(lt, a1, b1, k - 1);
        assert(a1.skip(k - 1) =~= a.skip(k));
        assert(b1.skip(k - 1) =~= b.skip(k));
    }
}

/// The order of bytes by their values.
pub open spec fn byte_lt() -> spec_fn(u8, u8) -> bool {
    |x: u8, y: u8| x < y
}

/// `a` comes before `b` in the order of strings: the lexicographic order of
/// the bytes of their UTF-8 forms.
pub open spec fn str_lt(a: Seq<char>, b: Seq<char>) -> bool {
    lex_lt(byte_lt(), encode_utf8(a), encode_utf8(b))
}

/// The order of strings as a value.
pub open spec fn string_lt() -> spec_fn(Seq<char>, Seq<char>) -> bool {
    |a: Seq<char>, b: Seq<char>| str_lt(a, b)
}

/// The order of bytes is a strict total order.
pub proof fn bytes_are_ordered()
    ensures
        strict_total(byte_lt()),
{
}

/// Two strings with the same UTF-8 form are the same string.
pub proof fn utf8_is_injective(a: Seq<char>, b: Seq<char>)
    requires
        encode_utf8(a) == encode_utf8(b),
    ensures
        a == b,
{
    encode_utf8_decode_utf8(a);
    encode_utf8_decode_utf8(b);
}

/// The order of strings is a strict total order.
pub proof fn strings_are_ordered()
    ensures
        strict_total(string_lt()),
{
    bytes_are_ordered();
    let lt = string_lt();
    assert forall|x: Seq<char>| !#[trigger] lt(x, x) by {
        lex_irreflexive(byte_lt(), encode_utf8(x));
    }
    assert forall|x: Seq<char>, y: Seq<char>, z: Seq<char>| #[trigger]
        lt(x, y) && #[trigger] lt(y, z) implies lt(x, z) by {
        lex_transitive(byte_lt(), encode_utf8(x), encode_utf8(y), encode_utf8(z));
    }
    assert forall|x: Seq<char>, y: Seq<char>| #[trigger] lt(x, y) || x == y || lt(y, x) by {
        lex_total(byte_lt(), encode_utf8(x), encode_utf8(y));
        if encode_utf8(x) == encode_utf8(y) {
            utf8_is_injective(x, y);
        }
    }
}

/// Compares two byte strings lexicographically.
pub fn compare_bytes(a: &[u8], b: &[u8]) -> (r: Rank)
    ensures
        r == Rank::Before <==> lex_lt(byte_lt(), a@, b@),
        r == Rank::Same <==> a@ == b@,
        r == Rank::After <==> lex_lt(byte_lt(), b@, a@),
{
    let mut i: usize = 0;
    while i < a.len() && i < b.len()
        invariant
            i <= a@.len(),
            i <= b@.len(),
            a@.take(i as int) == b@.take(i as int),
        decreases a.len() - i,
    {
        if a[i] != b[i] {
            proof {
                lex_skips_common_prefix(byte_lt(), a@, b@, i as int);
                lex_skips_common_prefix(byte_lt(), b@, a@, i as int);
            }
            if a[i] < b[i] {
                return Rank::Before;
            } else {
                return Rank::After;
            }
        }
        i += 1;
    }
    proof {
        lex_skips_common_prefix(byte_lt(), a@, b@, i as int);
        lex_skips_common_prefix(byte_lt(), b@, a@, i as int);
        if a@.len() == b@.len() {
            assert(a@.take(i as int) =~= a@);
            assert(b@.take(i as int) =~= b@);
            lex_irreflexive(byte_lt(), a@);
        }
    }
    if a.len() < b.len() {
        Rank::Before
    } else if a.len() > b.len() {
        Rank::After
    } else {
        Rank::Same
    }
}

/// Compares two strings in the order of strings.
pub fn compare_strings(a: &str, b: &str) -> (r: Rank)
    ensures
        r == Rank::Before <==> str_lt(a@, b@),
        r == Rank::Same <==> a@ == b@,
        r == Rank::After <==> str_lt(b@, a@),
{
    proof {
        if a.spec_bytes() == b.spec_bytes() {
            utf8_is_injective(a@, b@);
        }
    }
    compare_bytes(a.as_bytes(), b.as_bytes())
}

/// Whether two strings are the same.
pub fn same_string(a: &str, b: &str) -> (r: bool)
    ensures
        r == (a@ == b@),
{
    match compare_strings(a, b) {
        Rank::Same => true,
        _ => false,
    }
}

/// Every element of `s` comes before every later one.
pub open spec fn sorted_by<T>(lt: spec_fn(T, T) -> bool, s: Seq<T>) -> bool {
    forall|i: int, j: int| 0 <= i < j < s.len() ==> lt(#[trigger] s[i], #[trigger] s[j])
}

/// Two sorted sequences with the same elements are the same sequence.
pub proof fn sorted_is_unique<T>(lt: spec_fn(T, T) -> bool, a: Seq<T>, b: Seq<T>)
    requires
        strict_total(lt),
        sorted_by(lt, a),
        sorted_by(lt, b),
        a.to_set() == b.to_set(),
    ensures
        a == b,
    decreases a.len(),
{
    if a.len() == 0 {
        if b.len() > 0 {
            assert(b.to_set().contains(b[0]));
        }
    } else {
        let la = a.len() - 1;
        assert(a.to_set().contains(a[la]));
        let lb = b.len() - 1;
        assert(b.to_set().contains(b[lb]));
        let a0 = a.drop_last();
        let b0 = b.drop_last();
        assert forall|x: T| a0.to_set().contains(x) <==> b0.to_set().contains(x) by {
            if a0.contains(x) {
                assert(a.to_set().contains(x));
                let q = choose|q: int| 0 <= q < b.len() && b[q] == x;
                assert(b0[q] == x);
            }
            if b0.contains(x) {
                assert(b.to_set().contains(x));
                let p = choose|p: int| 0 <= p < a.len() && a[p] == x;
                assert(a0[p] == x);
            }
        }
        assert(a0.to_set() =~= b0.to_set());
        sorted_is_unique(lt, a0, b0);
        assert(b =~= b0.push(b[lb]));
    }
}

} // verus!
