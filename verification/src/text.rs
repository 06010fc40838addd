//! Character-level text primitives shared by the case conversions and the
//! template renderer: ASCII character classes, ASCII case folding, and
//! appending a single character to a `String`.

use vstd::prelude::*;

verus! {

/// Relies on `String::push` from std: appends the given character to the
/// end of the string.
pub assume_specification[ String::push ](s: &mut String, ch: char)
    ensures
        final(s)@ == old(s)@.push(ch),
;

/// An ASCII uppercase letter.
pub open spec fn is_upper_char(c: char) -> bool {
    65 <= c as u32 <= 90
}

/// An ASCII lowercase letter.
pub open spec fn is_lower_char(c: char) -> bool {
    97 <= c as u32 <= 122
}

/// ASCII case folding to lowercase; other characters are unchanged.
pub open spec fn lower_char_spec(c: char) -> char {
    if is_upper_char(c) {
        (((c as u32) + 32) as u8) as char
    } else {
        c
    }
}

/// ASCII case folding to uppercase; other characters are unchanged.
pub open spec fn upper_char_spec(c: char) -> char {
    if is_lower_char(c) {
        (((c as u32) - 32) as u8) as char
    } else {
        c
    }
}

/// `s` begins with `p`.
pub open spec fn spec_starts_with(s: Seq<char>, p: Seq<char>) -> bool {
    s.len() >= p.len() && s.take(p.len() as int) == p
}

/// `s` ends with `p`.
pub open spec fn spec_ends_with(s: Seq<char>, p: Seq<char>) -> bool {
    s.len() >= p.len() && s.skip((s.len() - p.len()) as int) == p
}

/// `s` holds `p` as a contiguous substring.
pub open spec fn spec_contains_sub(s: Seq<char>, p: Seq<char>) -> bool {
    exists|i: int|
        0 <= i <= s.len() - p.len() && #[trigger] s.subrange(i, i + p.len() as int) == p
}

/// The file name of a `/`-separated path: the suffix after the last `/`,
/// or the whole path if it has none.
pub open spec fn file_name_of(p: Seq<char>) -> Seq<char>
    decreases p.len(),
{
    if p.len() == 0 {
        Seq::empty()
    } else if p.last() == '/' {
        Seq::empty()
    } else {
        file_name_of(p.drop_last()).push(p.last())
    }
}

/// Appending slash-free text to a path appends it to the path's file
/// name.
pub proof fn lemma_file_name_concat(s: Seq<char>, t: Seq<char>)
    requires
        forall|i: int| 0 <= i < t.len() ==> t[i] != '/',
    ensures
        file_name_of(s + t) == file_name_of(s) + t,
    decreases t.len(),
{
    if t.len() == 0 {
        assert(s + t =~= s);
        assert(file_name_of(s) + t =~= file_name_of(s));
    } else {
        let t0 = t.drop_last();
        assert(s + t =~= (s + t0).push(t.last()));
        lemma_file_name_concat(s, t0);
        assert((s + t0).push(t.last()).drop_last() =~= s + t0);
        assert(file_name_of(s) + t =~= (file_name_of(s) + t0).push(t.last()));
    }
}

/// Decides `spec_starts_with` on strings.
pub fn str_starts_with(s: &str, p: &str) -> (r: bool)
    ensures
        r == spec_starts_with(s@, p@),
{
    let n = s.unicode_len();
    let m = p.unicode_len();
    if m > n {
        return false;
    }
    let prefix = s.substring_char(0, m);
    proof {
        assert(prefix@ =~= s@.take(m as int));
    }
    str_eq(prefix, p)
}

/// Decides `spec_ends_with` on strings.
pub fn str_ends_with(s: &str, p: &str) -> (r: bool)
    ensures
        r == spec_ends_with(s@, p@),
{
    let n = s.unicode_len();
    let m = p.unicode_len();
    if m > n {
        return false;
    }
    let suffix = s.substring_char(n - m, n);
    proof {
        assert(suffix@ =~= s@.skip((s@.len() - p@.len()) as int));
    }
    str_eq(suffix, p)
}

/// Decides `spec_contains_sub` on strings.
pub fn str_contains(s: &str, p: &str) -> (r: bool)
    ensures
        r == spec_contains_sub(s@, p@),
{
    let n = s.unicode_len();
    let m = p.unicode_len();
    if m > n {
        return false;
    }
    if m == 0 {
        proof {
            assert(s@.subrange(0, 0 + p@.len() as int) =~= p@);
        }
        return true;
    }
    let mut i: usize = 0;
    while i <= n - m
        invariant
            0 <= i <= n - m + 1,
            0 < m <= n,
            n == s@.len(),
            m == p@.len(),
            forall|k: int| 0 <= k < i ==> #[trigger] s@.subrange(k, k + p@.len() as int) != p@,
        decreases n - m - i + 1,
    {
        let window = s.substring_char(i, i + m);
        if str_eq(window, p) {
            proof {
                assert(s@.subrange(i as int, i + p@.len() as int) == p@);
            }
            return true;
        }
        i = i + 1;
    }
    proof {
        if spec_contains_sub(s@, p@) {
            let k = choose|k: int|
                0 <= k <= s@.len() - p@.len() && #[trigger] s@.subrange(k, k + p@.len() as int)
                    == p@;
            assert(s@.subrange(k, k + p@.len() as int) != p@);
        }
    }
    false
}

/// The file name of a `/`-separated path.
pub fn file_name(p: &str) -> (r: String)
    ensures
        r@ == file_name_of(p@),
{
    let n = p.unicode_len();
    let mut k: usize = n;
    while k > 0 && p.get_char(k - 1) != '/'
        invariant
            0 <= k <= n,
            n == p@.len(),
            forall|j: int| k <= j < n ==> p@[j] != '/',
        decreases k,
    {
        k = k - 1;
    }
    proof {
        lemma_file_name_index(p@, k as int);
    }
    let name = p.substring_char(k, n);
    proof {
        assert(name@ =~= p@.skip(k as int));
    }
    name.to_owned()
}

proof fn lemma_file_name_index(p: Seq<char>, k: int)
    requires
        0 <= k <= p.len(),
        forall|j: int| k <= j < p.len() ==> p[j] != '/',
        k > 0 ==> p[k - 1] == '/',
    ensures
        file_name_of(p) == p.skip(k),
    decreases p.len(),
{
    if k == p.len() {
        if p.len() > 0 {
            assert(p.last() == '/');
        }
        assert(p.skip(k) =~= Seq::<char>::empty());
    } else {
        assert(p.last() != '/');
        lemma_file_name_index(p.drop_last(), k);
        assert(p.drop_last().skip(k).push(p.last()) =~= p.skip(k));
    }
}

/// `s` with every ASCII letter folded to lowercase.
pub open spec fn spec_ascii_lower(s: Seq<char>) -> Seq<char>
    decreases s.len(),
{
    if s.len() == 0 {
        Seq::empty()
    } else {
        spec_ascii_lower(s.drop_last()).push(lower_char_spec(s.last()))
    }
}

/// Folds every ASCII letter of `s` to lowercase.
pub fn ascii_lower(s: &str) -> (r: String)
    ensures
        r@ == spec_ascii_lower(s@),
{
    let n = s.unicode_len();
    let mut out = String::new();
    let mut i: usize = 0;
    while i < n
        invariant
            0 <= i <= n,
            n == s@.len(),
            out@ == spec_ascii_lower(s@.take(i as int)),
        decreases n - i,
    {
        proof {
            assert(s@.take(i + 1).drop_last() =~= s@.take(i as int));
            assert(s@.take(i + 1).last() == s@[i as int]);
        }
        out.push(lower_char(s.get_char(i)));
        i = i + 1;
    }
    proof {
        assert(s@.take(n as int) =~= s@);
    }
    out
}

/// Compares two string slices character by character.
pub fn str_eq(a: &str, b: &str) -> (r: bool)
    ensures
        r == (a@ == b@),
{
    let na = a.unicode_len();
    let nb = b.unicode_len();
    if na != nb {
        return false;
    }
    let mut i: usize = 0;
    while i < na
        invariant
            0 <= i <= na,
            na == a@.len(),
            na == b@.len(),
            forall|j: int| 0 <= j < i ==> a@[j] == b@[j],
        decreases na - i,
    {
        if a.get_char(i) != b.get_char(i) {
            return false;
        }
        i = i + 1;
    }
    proof {
        assert(a@ =~= b@);
    }
    true
}

/// Folds one character to ASCII lowercase.
pub fn lower_char(c: char) -> (r: char)
    ensures
        r == lower_char_spec(c),
{
    let u = c as u32;
    if 65 <= u && u <= 90 {
        ((u + 32) as u8) as char
    } else {
        c
    }
}

/// Folds one character to ASCII uppercase.
pub fn upper_char(c: char) -> (r: char)
    ensures
        r == upper_char_spec(c),
{
    let u = c as u32;
    if 97 <= u && u <= 122 {
        ((u - 32) as u8) as char
    } else {
        c
    }
}

} // verus!
