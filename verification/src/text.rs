use vstd::prelude::*;
use vstd::std_specs::iter::IteratorSpec;

verus! {

/// The characters of an optional string.
pub open spec fn opt_view(o: Option<String>) -> Option<Seq<char>> {
    match o {
        Some(s) => Some(s@),
        None => None,
    }
}

/// The characters of `s`, in order.
pub fn chars_of(s: &str) -> (chars: Vec<char>)
    ensures
        chars@ == s@,
{
    let mut it = s.chars();
    let mut chars: Vec<char> = Vec::new();
    proof {
        broadcast use vstd::string::group_string_axioms;
        assert(it.remaining() == s@);
    }
    loop
        invariant
            chars@ + it.remaining() == s@,
            it.obeys_prophetic_iter_laws(),
            it.decrease() is Some,
        ensures
            chars@ == s@,
        decreases it.decrease()->0,
    {
        match it.next() {
            Some(c) => {
                proof {
                    broadcast use vstd::string::group_string_axioms;
                }
                chars.push(c);
            },
            None => {
                break ;
            },
        }
    }
    chars
}

/// A string holding exactly `chars`: std's `Iterator::collect` of the
/// characters into a `String`, which appends each character in order.
#[verifier::external_body]
pub fn string_from_chars(chars: &Vec<char>) -> (s: String)
    ensures
        s@ == chars@,
{
    chars.iter().collect()
}

/// What std's `Debug` formatting writes for a string slice: the text in
/// double quotes, with quotes, backslashes and non-printable characters
/// escaped.
pub uninterp spec fn debug_quoted(s: Seq<char>) -> Seq<char>;

/// std's `Debug` rendering of `s`, as `format!("{:?}", s)` writes it. The
/// result is named, not described: it is [`debug_quoted`] of `s`.
#[verifier::external_body]
pub(crate) fn str_debug(s: &str) -> (quoted: String)
    ensures
        quoted@ == debug_quoted(s@),
{
    format!("{:?}", s)
}

/// The ASCII digit for `d`, which is below ten.
pub open spec fn digit_char(d: nat) -> char {
    (48 + d) as char
}

/// The decimal representation of `n`, most significant digit first, without
/// leading zeros (`0` is `"0"`).
pub open spec fn decimal(n: nat) -> Seq<char>
    decreases n,
{
    if n < 10 {
        seq![digit_char(n)]
    } else {
        decimal(n / 10).push(digit_char(n % 10))
    }
}

/// Appends the decimal representation of `n` to `out`.
pub fn decimal_push(n: u64, out: &mut Vec<char>)
    ensures
        final(out)@ == old(out)@ + decimal(n as nat),
    decreases n,
{
    if n >= 10 {
        decimal_push(n / 10, out);
    }
    let d: u8 = (n % 10) as u8;
    let c: char = (48u8 + d) as char;
    out.push(c);
    proof {
        assert(c == digit_char((n % 10) as nat));
        if n >= 10 {
            assert(old(out)@ + decimal((n / 10) as nat) + seq![c] =~= old(out)@ + decimal(n as nat));
        } else {
            assert(old(out)@.push(c) =~= old(out)@ + decimal(n as nat));
        }
    }
}

/// A decimal representation is never empty, and has a single digit exactly
/// for the numbers below ten.
pub proof fn lemma_decimal_len(n: nat)
    ensures
        decimal(n).len() >= 1,
        decimal(n).len() == 1 <==> n < 10,
    decreases n,
{
    if n >= 10 {
        lemma_decimal_len(n / 10);
    }
}

/// Distinct numbers have distinct decimal representations.
pub proof fn lemma_decimal_injective(a: nat, b: nat)
    ensures
        decimal(a) == decimal(b) ==> a == b,
    decreases a,
{
    if decimal(a) == decimal(b) {
        lemma_decimal_len(a);
        lemma_decimal_len(b);
        if a < 10 {
            assert(b < 10);
            assert(decimal(a)[0] == decimal(b)[0]);
        } else {
            assert(b >= 10);
            let pa = decimal(a / 10);
            let pb = decimal(b / 10);
            assert(decimal(a).drop_last() =~= pa);
            assert(decimal(b).drop_last() =~= pb);
            assert(decimal(a).last() == decimal(b).last());
            lemma_decimal_injective(a / 10, b / 10);
        }
    }
}

/// The pieces of `parts` joined by `sep`.
pub open spec fn join(parts: Seq<Seq<char>>, sep: Seq<char>) -> Seq<char>
    decreases parts.len(),
{
    if parts.len() == 0 {
        Seq::empty()
    } else if parts.len() == 1 {
        parts[0]
    } else {
        join(parts.drop_last(), sep) + sep + parts.last()
    }
}

/// Appending one more piece extends the joined text by the separator and the
/// piece, or starts it.
pub proof fn lemma_join_push(parts: Seq<Seq<char>>, sep: Seq<char>, last: Seq<char>)
    ensures
        join(parts.push(last), sep) == if parts.len() == 0 {
            last
        } else {
            join(parts, sep) + sep + last
        },
{
    assert(parts.push(last).drop_last() =~= parts);
}

/// The character views of `strings`.
pub open spec fn string_views(strings: Seq<String>) -> Seq<Seq<char>> {
    strings.map_values(|s: String| s@)
}

/// Whether `c` is an ASCII letter or digit.
pub open spec fn is_ascii_alnum(c: char) -> bool {
    ('0' <= c && c <= '9') || ('a' <= c && c <= 'z') || ('A' <= c && c <= 'Z')
}

/// Whether `c` is an ASCII letter or digit.
pub fn ascii_alnum(c: char) -> (b: bool)
    ensures
        b == is_ascii_alnum(c),
{
    ('0' <= c && c <= '9') || ('a' <= c && c <= 'z') || ('A' <= c && c <= 'Z')
}

/// Whether `s` begins with `prefix`.
pub open spec fn has_prefix(s: Seq<char>, prefix: Seq<char>) -> bool {
    prefix.len() <= s.len() && s.take(prefix.len() as int) == prefix
}

/// Whether the characters `s` begin with `prefix`.
pub fn starts_with(s: &Vec<char>, prefix: &Vec<char>) -> (b: bool)
    ensures
        b == has_prefix(s@, prefix@),
{
    if prefix.len() > s.len() {
        return false;
    }
    let mut i: usize = 0;
    while i < prefix.len()
        invariant
            prefix@.len() <= s@.len(),
            i <= prefix@.len(),
            forall|k: int| 0 <= k < i ==> s@[k] == prefix@[k],
        decreases prefix.len() - i,
    {
        if s[i] != prefix[i] {
            assert(s@.take(prefix@.len() as int)[i as int] != prefix@[i as int]);
            return false;
        }
        i = i + 1;
    }
    assert(s@.take(prefix@.len() as int) =~= prefix@);
    true
}

/// Whether the characters `a` and `b` are the same.
pub fn chars_eq(a: &Vec<char>, b: &Vec<char>) -> (same: bool)
    ensures
        same == (a@ == b@),
{
    if a.len() != b.len() {
        return false;
    }
    let same = starts_with(a, b);
    proof {
        assert(a@ =~= a@.take(b@.len() as int));
    }
    same
}

/// Whether `pattern` occurs in `s` at position `at`.
pub open spec fn occurs_at(s: Seq<char>, pattern: Seq<char>, at: int) -> bool {
    0 <= at && at + pattern.len() <= s.len() && s.subrange(at, at + pattern.len()) == pattern
}

/// `s` with every occurrence of the non-empty `pattern` replaced by `with`,
/// scanning left to right over non-overlapping occurrences.
pub open spec fn replace_all(s: Seq<char>, pattern: Seq<char>, with: Seq<char>) -> Seq<char>
    decreases s.len(),
{
    if pattern.len() == 0 || s.len() < pattern.len() {
        s
    } else if s.take(pattern.len() as int) == pattern {
        with + replace_all(s.skip(pattern.len() as int), pattern, with)
    } else {
        seq![s[0]] + replace_all(s.skip(1), pattern, with)
    }
}

/// Whether `pattern` occurs in `s` at position `at`.
pub fn matches_at(s: &Vec<char>, pattern: &Vec<char>, at: usize) -> (b: bool)
    requires
        at <= s@.len(),
    ensures
        b == occurs_at(s@, pattern@, at as int),
{
    if pattern.len() > s.len() - at {
        return false;
    }
    let slen = s.len();
    let mut k: usize = 0;
    while k < pattern.len()
        invariant
            slen == s@.len(),
            at <= s@.len(),
            at + pattern@.len() <= s@.len(),
            k <= pattern@.len(),
            forall|j: int| 0 <= j < k ==> s@[at + j] == pattern@[j],
        decreases pattern.len() - k,
    {
        assert(at + k < s@.len());
        let pos: usize = at + k;
        if s[pos] != pattern[k] {
            assert(s@.subrange(at as int, at + pattern@.len())[k as int] != pattern@[k as int]);
            return false;
        }
        k = k + 1;
    }
    assert(s@.subrange(at as int, at + pattern@.len()) =~= pattern@);
    true
}

/// `s` with every occurrence of the non-empty `pattern` replaced by `with`.
pub fn replace(s: &Vec<char>, pattern: &Vec<char>, with: &Vec<char>) -> (out: Vec<char>)
    requires
        pattern@.len() > 0,
    ensures
        out@ == replace_all(s@, pattern@, with@),
{
    let mut out: Vec<char> = Vec::new();
    let mut i: usize = 0;
    assert(s@.skip(0) =~= s@);
    assert(out@ + replace_all(s@, pattern@, with@) =~= replace_all(s@, pattern@, with@));
    while i < s.len()
        invariant
            pattern@.len() > 0,
            i <= s@.len(),
            out@ + replace_all(s@.skip(i as int), pattern@, with@) == replace_all(
                s@,
                pattern@,
                with@,
            ),
        decreases s.len() - i,
    {
        let ghost rest = s@.skip(i as int);
        if matches_at(s, pattern, i) {
            proof {
                assert(rest.take(pattern@.len() as int) =~= s@.subrange(
                    i as int,
                    i + pattern@.len(),
                ));
                assert(rest.skip(pattern@.len() as int) =~= s@.skip(i + pattern@.len()));
            }
            let ghost before = out@;
            let mut k: usize = 0;
            while k < with.len()
                invariant
                    k <= with@.len(),
                    out@ == before + with@.take(k as int),
                decreases with.len() - k,
            {
                out.push(with[k]);
                proof {
                    assert(before + with@.take(k + 1) =~= (before + with@.take(k as int)).push(
                        with@[k as int],
                    ));
                }
                k = k + 1;
            }
            proof {
                assert(with@.take(with@.len() as int) =~= with@);
                assert(before + with@ + replace_all(s@.skip(i + pattern@.len()), pattern@, with@)
                    =~= before + (with@ + replace_all(
                    s@.skip(i + pattern@.len()),
                    pattern@,
                    with@,
                )));
            }
            i = i + pattern.len();
        } else {
            proof {
                if rest.len() >= pattern@.len() {
                    assert(rest.take(pattern@.len() as int) =~= s@.subrange(
                        i as int,
                        i + pattern@.len(),
                    ));
                }
                assert(rest.skip(1) =~= s@.skip(i + 1));
            }
            let ghost before = out@;
            out.push(s[i]);
            proof {
                assert(before.push(s@[i as int]) + replace_all(s@.skip(i + 1), pattern@, with@)
                    =~= before + (seq![s@[i as int]] + replace_all(
                    s@.skip(i + 1),
                    pattern@,
                    with@,
                )));
            }
            i = i + 1;
        }
    }
    assert(s@.skip(i as int) =~= Seq::<char>::empty());
    out
}

/// Whether `pattern` occurs anywhere in `s`.
pub open spec fn contains_pattern(s: Seq<char>, pattern: Seq<char>) -> bool {
    exists|at: int| occurs_at(s, pattern, at)
}

/// Whether `pattern` occurs anywhere in `s`.
pub fn contains(s: &Vec<char>, pattern: &Vec<char>) -> (b: bool)
    ensures
        b == contains_pattern(s@, pattern@),
{
    let mut at: usize = 0;
    while at < s.len()
        invariant
            at <= s@.len(),
            forall|k: int| 0 <= k < at ==> !occurs_at(s@, pattern@, k),
        decreases s@.len() - at,
    {
        if matches_at(s, pattern, at) {
            return true;
        }
        at = at + 1;
    }
    if matches_at(s, pattern, at) {
        return true;
    }
    assert forall|k: int| !occurs_at(s@, pattern@, k) by {
        if 0 <= k && k < at {
        } else if k == at {
        } else {
        }
    }
    false
}

/// Whether `a` and `b` hold the same characters.
pub fn str_eq(a: &str, b: &str) -> (same: bool)
    ensures
        same == (a@ == b@),
{
    chars_eq(&chars_of(a), &chars_of(b))
}

/// Whether `deps` holds a string with the characters of `dep`.
pub fn strings_contain(deps: &Vec<String>, dep: &String) -> (b: bool)
    ensures
        b == string_views(deps@).contains(dep@),
{
    let mut k: usize = 0;
    while k < deps.len()
        invariant
            k <= deps@.len(),
            forall|j: int| 0 <= j < k ==> deps@[j]@ != dep@,
        decreases deps.len() - k,
    {
        if deps[k] == *dep {
            assert(string_views(deps@)[k as int] == dep@);
            return true;
        }
        k = k + 1;
    }
    assert forall|j: int| 0 <= j < string_views(deps@).len() implies string_views(deps@)[j]
        != dep@ by {
        assert(string_views(deps@)[j] == deps@[j]@);
    }
    false
}

} // verus!
