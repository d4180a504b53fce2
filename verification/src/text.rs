//! Small verified helpers on strings and character vectors.

use vstd::prelude::*;

verus! {

/// The characters of a string slice, in order.
pub fn chars_of(s: &str) -> (v: Vec<char>)
    ensures
        v@ == s@,
{
    let n: usize = s.unicode_len();
    let mut v: Vec<char> = Vec::new();
    let mut i: usize = 0;
    while i < n
        invariant
            n == s@.len(),
            i <= n,
            v@ == s@.subrange(0, i as int),
        decreases n - i,
    {
        v.push(s.get_char(i));
        i = i + 1;
    }
    assert(v@ =~= s@);
    v
}

/// Whether the characters `w[from..]` are exactly `p`.
pub fn tail_equals(w: &Vec<char>, from: usize, p: &Vec<char>) -> (r: bool)
    requires
        from <= w.len(),
    ensures
        r == (w@.subrange(from as int, w@.len() as int) == p@),
{
    if w.len() - from != p.len() {
        proof {
            assert(w@.subrange(from as int, w@.len() as int).len() != p@.len());
        }
        return false;
    }
    let mut k: usize = 0;
    while k < p.len()
        invariant
            from <= w.len(),
            w.len() - from == p.len(),
            k <= p.len(),
            forall|j: int| 0 <= j < k ==> w@[from + j] == p@[j],
        decreases p.len() - k,
    {
        if w[from + k] != p[k] {
            proof {
                assert(w@.subrange(from as int, w@.len() as int)[k as int] != p@[k as int]);
            }
            return false;
        }
        k = k + 1;
    }
    assert(w@.subrange(from as int, w@.len() as int) =~= p@);
    true
}

/// Whether `p` is a prefix of `w`.
pub fn starts_with_chars(w: &Vec<char>, p: &Vec<char>) -> (r: bool)
    ensures
        r == p@.is_prefix_of(w@),
{
    if p.len() > w.len() {
        return false;
    }
    let mut k: usize = 0;
    while k < p.len()
        invariant
            p.len() <= w.len(),
            k <= p.len(),
            forall|j: int| 0 <= j < k ==> w@[j] == p@[j],
        decreases p.len() - k,
    {
        if w[k] != p[k] {
            proof {
                assert(w@.subrange(0, p@.len() as int)[k as int] != p@[k as int]);
            }
            return false;
        }
        k = k + 1;
    }
    assert(p@ =~= w@.subrange(0, p@.len() as int));
    true
}

/// Whether two string slices hold the same characters.
pub fn str_eq(a: &str, b: &str) -> (r: bool)
    ensures
        r == (a@ == b@),
{
    let ca = chars_of(a);
    let cb = chars_of(b);
    let r = tail_equals(&ca, 0, &cb);
    proof {
        assert(ca@.subrange(0, ca@.len() as int) =~= ca@);
    }
    r
}

/// The concatenation of two string slices.
pub fn concat2(a: &str, b: &str) -> (r: String)
    ensures
        r@ == a@ + b@,
{
    String::from_str(a).concat(b)
}

/// The concatenation of three string slices.
pub fn concat3(a: &str, b: &str, c: &str) -> (r: String)
    ensures
        r@ == a@ + b@ + c@,
{
    String::from_str(a).concat(b).concat(c)
}

} // verus!

verus! {

/// Lexicographic order by code point on `a[i..]` and `b[i..]` (the order of
/// Rust's `String`, whose UTF-8 bytes compare in the same order).
pub open spec fn chars_le_from(a: Seq<char>, b: Seq<char>, i: int) -> bool
    decreases a.len() - i,
{
    if i < 0 || i >= a.len() {
        true
    } else if i >= b.len() {
        false
    } else if a[i] != b[i] {
        a[i] < b[i]
    } else {
        chars_le_from(a, b, i + 1)
    }
}

/// Lexicographic order by code point.
pub open spec fn chars_le(a: Seq<char>, b: Seq<char>) -> bool {
    chars_le_from(a, b, 0)
}

/// The order is total.
pub proof fn lemma_chars_le_total(a: Seq<char>, b: Seq<char>, i: int)
    requires
        0 <= i,
    ensures
        chars_le_from(a, b, i) || chars_le_from(b, a, i),
    decreases a.len() - i,
{
    if i < a.len() && i < b.len() && a[i] == b[i] {
        lemma_chars_le_total(a, b, i + 1);
    }
}

/// The order is transitive.
pub proof fn lemma_chars_le_transitive(a: Seq<char>, b: Seq<char>, c: Seq<char>, i: int)
    requires
        0 <= i,
        chars_le_from(a, b, i),
        chars_le_from(b, c, i),
    ensures
        chars_le_from(a, c, i),
    decreases a.len() - i,
{
    if i < a.len() && a[i] == b[i] && b[i] == c[i] {
        lemma_chars_le_transitive(a, b, c, i + 1);
    }
}

/// Whether `a` comes before `b` or equals it, by code point.
pub fn chars_le_exec(a: &Vec<char>, b: &Vec<char>) -> (r: bool)
    ensures
        r == chars_le(a@, b@),
{
    let mut i: usize = 0;
    while i < a.len()
        invariant
            i <= a.len(),
            chars_le_from(a@, b@, i as int) == chars_le(a@, b@),
        decreases a.len() - i,
    {
        if i >= b.len() {
            return false;
        }
        if a[i] != b[i] {
            return a[i] < b[i];
        }
        i = i + 1;
    }
    true
}

/// Whether `a` comes before `b` or equals it, by code point.
pub fn str_le(a: &str, b: &str) -> (r: bool)
    ensures
        r == chars_le(a@, b@),
{
    chars_le_exec(&chars_of(a), &chars_of(b))
}

} // verus!

verus! {

proof fn lemma_le_from_lexicographic(a: Seq<char>, b: Seq<char>, i: int)
    requires
        0 <= i <= a.len(),
        i <= b.len(),
        a.subrange(0, i) == b.subrange(0, i),
    ensures
        chars_le_from(a, b, i) <==> (a.is_prefix_of(b) || exists|j: int|
            #![trigger a[j], b[j]]
            i <= j < a.len() && j < b.len() && a.subrange(0, j) == b.subrange(0, j) && a[j] < b[j]),
    decreases a.len() - i,
{
    if i == a.len() {
        assert(a =~= b.subrange(0, a.len() as int)) by {
            assert(a =~= a.subrange(0, i));
        }
    } else if i == b.len() {
        assert(!a.is_prefix_of(b));
    } else if a[i] != b[i] {
        assert(!a.is_prefix_of(b)) by {
            if a.is_prefix_of(b) {
                assert(b.subrange(0, a.len() as int)[i] == b[i]);
            }
        }
        assert forall|j: int| i < j < a.len() && j < b.len() && a.subrange(0, j) == b.subrange(0, j)
            implies false by {
            assert(a.subrange(0, j)[i] == a[i]);
            assert(b.subrange(0, j)[i] == b[i]);
        }
        if a[i] < b[i] {
            assert(a.subrange(0, i) == b.subrange(0, i));
        }
    } else {
        assert(a.subrange(0, i + 1) =~= b.subrange(0, i + 1)) by {
            assert forall|k: int| 0 <= k < i + 1 implies #[trigger] a.subrange(0, i + 1)[k] == b.subrange(
                0,
                i + 1,
            )[k] by {
                if k < i {
                    assert(a.subrange(0, i)[k] == b.subrange(0, i)[k]);
                }
            }
        }
        lemma_le_from_lexicographic(a, b, i + 1);
    }
}

/// The order used to sort names is the full lexicographic order by code
/// point: `a` comes first (or equals `b`) exactly when it is a prefix of `b`,
/// or at the first index where they differ its character is the smaller.
pub proof fn law_chars_le_is_lexicographic(a: Seq<char>, b: Seq<char>)
    ensures
        chars_le(a, b) <==> (a.is_prefix_of(b) || exists|j: int|
            #![trigger a[j], b[j]]
            0 <= j < a.len() && j < b.len() && a.subrange(0, j) == b.subrange(0, j) && a[j] < b[j]),
{
    assert(a.subrange(0, 0) =~= b.subrange(0, 0));
    lemma_le_from_lexicographic(a, b, 0);
}

} // verus!
