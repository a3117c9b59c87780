use vstd::prelude::*;

verus! {

/// Appends one character to a string (`String::push`).
/// Trusted: the string afterwards holds the old characters followed by `c`.
#[verifier::external_body]
pub(crate) fn push_char(s: &mut String, c: char)
    ensures
        final(s)@ == old(s)@.push(c),
{
    s.push(c);
}

/// The characters of `s`, in order.
pub fn chars_of(s: &str) -> (v: Vec<char>)
    ensures
        v@ == s@,
{
    let mut v: Vec<char> = Vec::new();
    for c in it: s.chars()
        invariant
            v@ == it.seq().take(it.index()),
    {
        v.push(c);
    }
    v
}

/// Whether two strings hold the same characters.
pub fn same_text(a: &str, b: &str) -> (r: bool)
    ensures
        r == (a@ == b@),
{
    a.to_owned() == b.to_owned()
}

/// `a` followed by `b`, as a new string.
pub fn concat(a: &str, b: &str) -> (r: String)
    ensures
        r@ == a@ + b@,
{
    let mut r = String::from_str(a);
    r.append(b);
    r
}

/// The parts of `s` before and after the first `sep`, if `sep` occurs.
pub open spec fn split_at_first(s: Seq<char>, sep: char) -> Option<(Seq<char>, Seq<char>)> {
    if exists|i: int| 0 <= i < s.len() && s[i] == sep {
        let i = choose|i: int|
            0 <= i < s.len() && s[i] == sep && forall|j: int| 0 <= j < i ==> s[j] != sep;
        Some((s.take(i), s.skip(i + 1)))
    } else {
        None
    }
}

/// Where `sep` occurs, it has a first position.
pub proof fn lemma_first_sep_exists(s: Seq<char>, sep: char, i: int)
    requires
        0 <= i < s.len(),
        s[i] == sep,
    ensures
        exists|k: int| 0 <= k < s.len() && s[k] == sep && forall|j: int| 0 <= j < k ==> s[j] != sep,
    decreases i,
{
    if exists|j: int| 0 <= j < i && s[j] == sep {
        let j = choose|j: int| 0 <= j < i && s[j] == sep;
        lemma_first_sep_exists(s, sep, j);
    } else {
        assert(forall|j: int| 0 <= j < i ==> s[j] != sep);
    }
}

/// The two parts of a split, with the separator between them, give back
/// the text.
pub proof fn lemma_split_rejoin(s: Seq<char>, sep: char)
    requires
        split_at_first(s, sep) is Some,
    ensures
        ({
            let parts = split_at_first(s, sep)->0;
            &&& s == parts.0 + seq![sep] + parts.1
            &&& !parts.0.contains(sep)
        }),
{
    let i0 = choose|i: int| 0 <= i < s.len() && s[i] == sep;
    lemma_first_sep_exists(s, sep, i0);
    let k = choose|i: int|
        0 <= i < s.len() && s[i] == sep && forall|j: int| 0 <= j < i ==> s[j] != sep;
    assert(s =~= s.take(k) + seq![sep] + s.skip(k + 1));
}

/// Where `sep` first occurs at `k`, `s` splits there.
pub proof fn lemma_split_at_first_is(s: Seq<char>, sep: char, k: int)
    requires
        0 <= k < s.len(),
        s[k] == sep,
        forall|j: int| 0 <= j < k ==> s[j] != sep,
    ensures
        split_at_first(s, sep) == Some((s.take(k), s.skip(k + 1))),
{
    let i = choose|i: int|
        0 <= i < s.len() && s[i] == sep && forall|j: int| 0 <= j < i ==> s[j] != sep;
    assert(0 <= i < s.len() && s[i] == sep && forall|j: int| 0 <= j < i ==> s[j] != sep);
    if i < k {
        assert(s[i] != sep);
    } else if i > k {
        assert(s[k] != sep);
    }
}

/// Splits `s` at the first `sep`, as `str::split_once` does.
pub fn split_once(s: &str, sep: char) -> (r: Option<(String, String)>)
    ensures
        match r {
            Some((a, b)) => split_at_first(s@, sep) == Some((a@, b@)),
            None => split_at_first(s@, sep) is None,
        },
{
    let cs = chars_of(s);
    let n = cs.len();
    let mut i: usize = 0;
    while i < n
        invariant
            n == cs@.len(),
            cs@ == s@,
            i <= n,
            forall|j: int| 0 <= j < i ==> cs@[j] != sep,
        decreases n - i,
    {
        if cs[i] == sep {
            let ghost k = choose|k: int|
                0 <= k < s@.len() && s@[k] == sep && forall|j: int| 0 <= j < k ==> s@[j] != sep;
            assert(0 <= i < s@.len() && s@[i as int] == sep && forall|j: int| 0 <= j < i ==> s@[j] != sep);
            assert(k == i) by {
                if k < i {
                } else if k > i {
                }
            }
            let a = String::from_str(s.substring_char(0, i));
            let b = String::from_str(s.substring_char(i + 1, n));
            assert(s@.subrange(i + 1, n as int) =~= s@.skip(i + 1));
            assert(s@.subrange(0, i as int) =~= s@.take(i as int));
            return Some((a, b));
        }
        i = i + 1;
    }
    None
}

/// Whether `s` begins with `prefix`.
pub open spec fn has_prefix(s: Seq<char>, prefix: Seq<char>) -> bool {
    prefix.len() <= s.len() && s.take(prefix.len() as int) == prefix
}

/// Whether `s` begins with `prefix`.
pub fn starts_with(s: &str, prefix: &str) -> (r: bool)
    ensures
        r == has_prefix(s@, prefix@),
{
    let a = chars_of(s);
    let b = chars_of(prefix);
    if b.len() > a.len() {
        return false;
    }
    let mut i: usize = 0;
    while i < b.len()
        invariant
            a@ == s@,
            b@ == prefix@,
            b@.len() <= a@.len(),
            i <= b@.len(),
            forall|j: int| 0 <= j < i ==> a@[j] == b@[j],
        decreases b@.len() - i,
    {
        if a[i] != b[i] {
            assert(s@.take(prefix@.len() as int)[i as int] != prefix@[i as int]);
            return false;
        }
        i = i + 1;
    }
    assert(s@.take(prefix@.len() as int) =~= prefix@);
    true
}

/// The ASCII digit for a value below ten.
pub open spec fn digit_char(d: int) -> char {
    (d + ('0' as int)) as char
}

/// The decimal digits of a number, without leading zeros.
pub open spec fn decimal_text(n: nat) -> Seq<char>
    decreases n,
{
    if n < 10 {
        seq![digit_char(n as int)]
    } else {
        decimal_text(n / 10).push(digit_char((n % 10) as int))
    }
}

/// The decimal digits of a number.
pub fn decimal(n: u64) -> (r: String)
    ensures
        r@ == decimal_text(n as nat),
    decreases n,
{
    let d = ((n % 10) as u8 + 48u8) as char;
    assert(d == digit_char((n % 10) as int));
    if n < 10 {
        let mut r = String::new();
        push_char(&mut r, d);
        assert(r@ =~= seq![d]);
        r
    } else {
        let mut r = decimal(n / 10);
        push_char(&mut r, d);
        r
    }
}

} // verus!
