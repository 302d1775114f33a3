//! Byte strings compared without regard to ASCII case.

use std::cmp::Ordering;
use vstd::prelude::*;

verus! {

/// The ASCII lower-case form of one byte: `A`..=`Z` move to `a`..=`z`, every
/// other byte stays.
pub open spec fn lower(b: u8) -> u8 {
    if 65 <= b && b <= 90 {
        (b + 32) as u8
    } else {
        b
    }
}

/// The ASCII lower-case form of a byte string.
pub open spec fn folded(s: Seq<u8>) -> Seq<u8> {
    s.map_values(|b: u8| lower(b))
}

/// `a` and `b` agree on their first `k` bytes, and there `a` has ended while
/// `b` goes on, or holds the smaller byte.
pub open spec fn less_at(a: Seq<u8>, b: Seq<u8>, k: int) -> bool {
    &&& 0 <= k <= a.len()
    &&& k < b.len()
    &&& a.take(k) == b.take(k)
    &&& k < a.len() ==> a[k] < b[k]
}

/// `a` comes strictly before `b` in lexicographic order.
pub open spec fn lex_less(a: Seq<u8>, b: Seq<u8>) -> bool {
    exists|k: int| less_at(a, b, k)
}

/// What a comparison of `a` with `b` without regard to ASCII case yields: the
/// lexicographic order of their lower-case forms.
pub open spec fn compare_folded(a: Seq<u8>, b: Seq<u8>) -> Ordering {
    if folded(a) == folded(b) {
        Ordering::Equal
    } else if lex_less(folded(a), folded(b)) {
        Ordering::Less
    } else {
        Ordering::Greater
    }
}

/// The ASCII lower-case form of `b`.
pub fn lower_byte(b: u8) -> (r: u8)
    ensures
        r == lower(b),
{
    if 65 <= b && b <= 90 {
        b + 32
    } else {
        b
    }
}

/// The length of the longest common prefix of the lower-case forms of `a` and
/// `b`.
pub fn common_prefix_len(a: &[u8], b: &[u8]) -> (k: usize)
    ensures
        k <= a@.len(),
        k <= b@.len(),
        folded(a@).take(k as int) == folded(b@).take(k as int),
        k < a@.len() && k < b@.len() ==> lower(a@[k as int]) != lower(b@[k as int]),
{
    let mut k: usize = 0;
    while k < a.len() && k < b.len() && lower_byte(a[k]) == lower_byte(b[k])
        invariant
            k <= a@.len(),
            k <= b@.len(),
            folded(a@).take(k as int) == folded(b@).take(k as int),
        decreases a@.len() - k,
    {
        assert(folded(a@).take(k + 1) == folded(a@).take(k as int).push(lower(a@[k as int])));
        assert(folded(b@).take(k + 1) == folded(b@).take(k as int).push(lower(b@[k as int])));
        k += 1;
    }
    k
}

/// Where two byte strings first part decides both whether they are equal and
/// which of them comes first.
pub proof fn lemma_first_difference_at(a: Seq<u8>, b: Seq<u8>, k: int)
    requires
        0 <= k <= a.len(),
        k <= b.len(),
        a.take(k) == b.take(k),
        k < a.len() && k < b.len() ==> a[k] != b[k],
    ensures
        a == b <==> k == a.len() && k == b.len(),
        lex_less(a, b) <==> (k == a.len() && k < b.len()) || (k < a.len() && k < b.len() && a[k]
            < b[k]),
{
    if k == a.len() && k == b.len() {
        assert(a.take(k) == a);
        assert(b.take(k) == b);
    }
    if (k == a.len() && k < b.len()) || (k < a.len() && k < b.len() && a[k] < b[k]) {
        assert(less_at(a, b, k));
    }
    if lex_less(a, b) {
        let j = choose|j: int| less_at(a, b, j);
        if j < k {
            assert(a.take(k)[j] == a[j]);
            assert(b.take(k)[j] == b[j]);
            assert(false);
        }
        if j > k {
            assert(a.take(j)[k] == a[k]);
            assert(b.take(j)[k] == b[k]);
            assert(false);
        }
    }
}

/// Where two byte strings first part decides both whether they are equal and
/// which of them comes first; the place is given as a machine index.
pub proof fn lemma_first_difference(a: Seq<u8>, b: Seq<u8>, k: usize)
    requires
        k <= a.len(),
        k <= b.len(),
        a.take(k as int) == b.take(k as int),
        k < a.len() && k < b.len() ==> a[k as int] != b[k as int],
    ensures
        a == b <==> k == a.len() && k == b.len(),
        lex_less(a, b) <==> (k == a.len() && k < b.len()) || (k < a.len() && k < b.len() && a[k as int]
            < b[k as int]),
{
    lemma_first_difference_at(a, b, k as int);
}

/// The number of bytes that `a` and `b` have in common at their beginnings.
pub open spec fn common_prefix(a: Seq<u8>, b: Seq<u8>) -> nat
    decreases a.len(),
{
    if a.len() > 0 && b.len() > 0 && a.first() == b.first() {
        1 + common_prefix(a.drop_first(), b.drop_first())
    } else {
        0
    }
}

proof fn lemma_common_prefix(a: Seq<u8>, b: Seq<u8>)
    ensures
        common_prefix(a, b) <= a.len(),
        common_prefix(a, b) <= b.len(),
        a.take(common_prefix(a, b) as int) == b.take(common_prefix(a, b) as int),
        common_prefix(a, b) < a.len() && common_prefix(a, b) < b.len() ==> a[common_prefix(
            a,
            b,
        ) as int] != b[common_prefix(a, b) as int],
        common_prefix(a, b) == common_prefix(b, a),
    decreases a.len(),
{
    if a.len() > 0 && b.len() > 0 && a.first() == b.first() {
        lemma_common_prefix(a.drop_first(), b.drop_first());
        let k = common_prefix(a.drop_first(), b.drop_first()) as int;
        assert(a.take(k + 1) =~= seq![a.first()] + a.drop_first().take(k));
        assert(b.take(k + 1) =~= seq![b.first()] + b.drop_first().take(k));
    } else {
        assert(a.take(0) =~= b.take(0));
    }
}

/// Of two byte strings, exactly one of three holds: they are the same, the
/// first comes before the second, or the second comes before the first.
pub proof fn lemma_lex_trichotomy(a: Seq<u8>, b: Seq<u8>)
    ensures
        a == b || lex_less(a, b) || lex_less(b, a),
        !(lex_less(a, b) && lex_less(b, a)),
        !lex_less(a, a),
        a == b ==> !lex_less(a, b),
{
    lemma_common_prefix(a, b);
    lemma_common_prefix(b, a);
    let k = common_prefix(a, b) as int;
    lemma_first_difference_at(a, b, k);
    lemma_first_difference_at(b, a, k);
    assert(a.take(a.len() as int) == a);
    lemma_first_difference_at(a, a, a.len() as int);
}

/// The comparison is an order: of two byte strings that differ beyond the
/// case of their ASCII letters, one comes before the other, and then the
/// other comes after the one.
pub proof fn law_comparison_is_an_order(a: Seq<u8>, b: Seq<u8>)
    ensures
        compare_folded(a, b) == Ordering::Greater <==> lex_less(folded(b), folded(a)),
        compare_folded(a, b) == Ordering::Less <==> compare_folded(b, a) == Ordering::Greater,
        compare_folded(a, b) == Ordering::Equal <==> compare_folded(b, a) == Ordering::Equal,
        compare_folded(a, a) == Ordering::Equal,
{
    lemma_lex_trichotomy(folded(a), folded(b));
    lemma_lex_trichotomy(folded(a), folded(a));
}

/// A byte string that is ordered and compared without regard to ASCII case.
#[derive(Debug, Clone)]
pub struct CaseInsensitive<'a>(pub &'a [u8]);

impl<'a> CaseInsensitive<'a> {
    /// The order of the two byte strings once both are brought to ASCII lower
    /// case.
    pub fn cmp(&self, other: &Self) -> (r: Ordering)
        ensures
            r == compare_folded(self.0@, other.0@),
    {
        let k = common_prefix_len(self.0, other.0);
        proof {
            lemma_first_difference(folded(self.0@), folded(other.0@), k);
        }
        if k < self.0.len() && k < other.0.len() {
            if lower_byte(self.0[k]) < lower_byte(other.0[k]) {
                Ordering::Less
            } else {
                Ordering::Greater
            }
        } else if self.0.len() < other.0.len() {
            Ordering::Less
        } else if self.0.len() == other.0.len() {
            Ordering::Equal
        } else {
            Ordering::Greater
        }
    }
}

impl<'a> PartialEq for CaseInsensitive<'a> {
    fn eq(&self, other: &Self) -> (r: bool) {
        match self.cmp(other) {
            Ordering::Equal => true,
            _ => false,
        }
    }
}

impl<'a> vstd::std_specs::cmp::PartialEqSpecImpl for CaseInsensitive<'a> {
    open spec fn obeys_eq_spec() -> bool {
        true
    }

    open spec fn eq_spec(&self, other: &Self) -> bool {
        folded(self.0@) == folded(other.0@)
    }
}

impl<'a> Eq for CaseInsensitive<'a> {

}

impl<'a> PartialOrd for CaseInsensitive<'a> {
    fn partial_cmp(&self, other: &Self) -> (r: Option<Ordering>) {
        Some(self.cmp(other))
    }
}

impl<'a> vstd::std_specs::cmp::PartialOrdSpecImpl for CaseInsensitive<'a> {
    open spec fn obeys_partial_cmp_spec() -> bool {
        true
    }

    open spec fn partial_cmp_spec(&self, other: &Self) -> Option<Ordering> {
        Some(compare_folded(self.0@, other.0@))
    }
}

/// An owned string that is ordered and compared without regard to ASCII
/// case, byte by byte over its UTF-8 encoding.
#[derive(Debug, Clone)]
pub struct CaseInsensitiveString(pub String);

impl CaseInsensitiveString {
    /// The UTF-8 bytes that comparisons of this string go by.
    pub open spec fn bytes(&self) -> Seq<u8> {
        vstd::utf8::encode_utf8(self.0@)
    }

    /// The order of the two strings once both are brought to ASCII lower case.
    pub fn cmp(&self, other: &Self) -> (r: Ordering)
        ensures
            r == compare_folded(self.bytes(), other.bytes()),
    {
        CaseInsensitive(self.0.as_str().as_bytes()).cmp(&CaseInsensitive(other.0.as_str().as_bytes()))
    }
}

impl PartialEq for CaseInsensitiveString {
    fn eq(&self, other: &Self) -> (r: bool) {
        CaseInsensitive(self.0.as_str().as_bytes()) == CaseInsensitive(other.0.as_str().as_bytes())
    }
}

impl vstd::std_specs::cmp::PartialEqSpecImpl for CaseInsensitiveString {
    open spec fn obeys_eq_spec() -> bool {
        true
    }

    open spec fn eq_spec(&self, other: &Self) -> bool {
        folded(self.bytes()) == folded(other.bytes())
    }
}

impl Eq for CaseInsensitiveString {

}

impl PartialOrd for CaseInsensitiveString {
    fn partial_cmp(&self, other: &Self) -> (r: Option<Ordering>) {
        CaseInsensitive(self.0.as_str().as_bytes()).partial_cmp(
            &CaseInsensitive(other.0.as_str().as_bytes()),
        )
    }
}

impl vstd::std_specs::cmp::PartialOrdSpecImpl for CaseInsensitiveString {
    open spec fn obeys_partial_cmp_spec() -> bool {
        true
    }

    open spec fn partial_cmp_spec(&self, other: &Self) -> Option<Ordering> {
        Some(compare_folded(self.bytes(), other.bytes()))
    }
}

} // verus!
