//! The pure core of environment probing: parsing the version numbers out
//! of a toolchain's version line and deciding whether they meet the
//! minimum each language requires.  Running the toolchains and reading
//! their output is left to the surrounding application, which hands the
//! output text in.

use vstd::prelude::*;

use crate::render::{spec_nat_text, u64_text};
use crate::text::{spec_starts_with, str_starts_with};

verus! {

/// An ASCII decimal digit.
pub open spec fn is_digit(c: char) -> bool {
    48 <= c as u32 <= 57
}

/// The maximal digit prefix of `s`.
pub open spec fn spec_digit_run(s: Seq<char>) -> Seq<char>
    decreases s.len(),
{
    if s.len() > 0 && is_digit(s[0]) {
        seq![s[0]] + spec_digit_run(s.skip(1))
    } else {
        Seq::empty()
    }
}

/// The value of a digit sequence.
pub open spec fn spec_digits_value(s: Seq<char>) -> nat
    decreases s.len(),
{
    if s.len() == 0 {
        0
    } else {
        (spec_digits_value(s.drop_last()) * 10 + (s.last() as u32 - 48)) as nat
    }
}

/// The first `major.minor` pair in `s`: from the first digit on, the
/// digit run is the major number, and it must be followed by a dot and a
/// second digit run, the minor number.
pub open spec fn spec_parse_version(s: Seq<char>) -> Option<(nat, nat)>
    decreases s.len(),
{
    if s.len() == 0 {
        None
    } else if !is_digit(s[0]) {
        spec_parse_version(s.skip(1))
    } else {
        let d1 = spec_digit_run(s);
        let rest = s.skip(d1.len() as int);
        if rest.len() >= 2 && rest[0] == '.' && is_digit(rest[1]) {
            let d2 = spec_digit_run(rest.skip(1));
            Some((spec_digits_value(d1), spec_digits_value(d2)))
        } else {
            None
        }
    }
}

proof fn lemma_digit_run_index(s: Seq<char>, e: int)
    requires
        0 <= e <= s.len(),
        forall|k: int| 0 <= k < e ==> is_digit(#[trigger] s[k]),
        e < s.len() ==> !is_digit(s[e]),
    ensures
        spec_digit_run(s) == s.take(e),
    decreases e,
{
    if e == 0 {
        assert(s.take(0) =~= Seq::<char>::empty());
    } else {
        assert(is_digit(s[0]));
        lemma_digit_run_index(s.skip(1), e - 1);
        assert(seq![s[0]] + s.skip(1).take(e - 1) =~= s.take(e));
    }
}

proof fn lemma_parse_version_skip(s: Seq<char>, d: int)
    requires
        0 <= d <= s.len(),
        forall|k: int| 0 <= k < d ==> !is_digit(#[trigger] s[k]),
    ensures
        spec_parse_version(s) == spec_parse_version(s.skip(d)),
    decreases d,
{
    if d == 0 {
        assert(s.skip(0) =~= s);
    } else {
        assert(!is_digit(s[0]));
        lemma_parse_version_skip(s.skip(1), d - 1);
        assert(s.skip(1).skip(d - 1) =~= s.skip(d));
    }
}

/// The probe of the toolchains a generation run may call.
#[derive(Debug)]
pub struct EnvironmentChecker {}

impl EnvironmentChecker {
    /// An environment checker.
    pub fn new() -> (r: EnvironmentChecker) {
        EnvironmentChecker {  }
    }

    /// Parses the first `major.minor` version out of a toolchain's
    /// version line.  Returns nothing when the line holds no such pair,
    /// or when a number does not fit the result type.
    pub fn parse_version_numbers(&self, s: &str) -> (r: Option<(u32, u32)>)
        ensures
            match r {
                Some(p) => spec_parse_version(s@) == Some((p.0 as nat, p.1 as nat)),
                None => spec_parse_version(s@) is None || (spec_parse_version(s@) matches Some(q)
                    && (q.0 > u32::MAX || q.1 > u32::MAX)),
            },
    {
        let n = s.unicode_len();
        // Find the first digit.
        let mut i: usize = 0;
        while i < n && !digit_value(s.get_char(i)).is_some()
            invariant
                0 <= i <= n,
                n == s@.len(),
                forall|k: int| 0 <= k < i ==> !is_digit(#[trigger] s@[k]),
            decreases n - i,
        {
            i = i + 1;
        }
        proof {
            lemma_parse_version_skip(s@, i as int);
        }
        if i == n {
            proof {
                assert(s@.skip(n as int).len() == 0);
            }
            return None;
        }
        let ghost suffix = s@.skip(i as int);
        proof {
            assert(suffix[0] == s@[i as int]);
            assert(is_digit(suffix[0]));
        }
        // Parse the major number.
        let (major, j) = match self.parse_digit_run(s, i) {
            Some(p) => p,
            None => {
                return None;
            },
        };
        proof {
            assert(suffix.skip(spec_digit_run(suffix).len() as int) =~= s@.skip(j as int));
        }
        // Expect a dot and a second digit.
        if !(j < n - 1 && s.get_char(j) == '.' && digit_value(s.get_char(j + 1)).is_some()) {
            proof {
                let rest = s@.skip(j as int);
                if rest.len() >= 2 {
                    assert(rest[0] == s@[j as int]);
                    assert(rest[1] == s@[j + 1]);
                }
            }
            return None;
        }
        let ghost rest = s@.skip(j as int);
        proof {
            assert(rest[0] == s@[j as int]);
            assert(rest[1] == s@[j + 1]);
            assert(rest.skip(1) =~= s@.skip(j + 1));
        }
        let (minor, _k) = match self.parse_digit_run(s, j + 1) {
            Some(p) => p,
            None => {
                return None;
            },
        };
        Some((major, minor))
    }

    /// Parses the digit run starting at `from`, returning its value and
    /// the position after it; nothing when the value does not fit.
    fn parse_digit_run(&self, s: &str, from: usize) -> (r: Option<(u32, usize)>)
        requires
            from < s@.len(),
            is_digit(s@[from as int]),
        ensures
            match r {
                Some(p) => {
                    &&& from < p.1 <= s@.len()
                    &&& spec_digit_run(s@.skip(from as int)) == s@.subrange(from as int, p.1 as int)
                    &&& spec_digits_value(s@.subrange(from as int, p.1 as int)) == p.0 as nat
                },
                None => spec_digits_value(spec_digit_run(s@.skip(from as int))) > u32::MAX,
            },
    {
        let n = s.unicode_len();
        let mut j = from;
        let mut value: u32 = 0;
        let mut overflow = false;
        while j < n && digit_value(s.get_char(j)).is_some()
            invariant
                from <= j <= n,
                n == s@.len(),
                j > from || is_digit(s@[from as int]),
                forall|k: int| from <= k < j ==> is_digit(#[trigger] s@[k]),
                !overflow ==> value as nat == spec_digits_value(
                    s@.subrange(from as int, j as int),
                ),
                overflow ==> spec_digits_value(s@.subrange(from as int, j as int)) > u32::MAX,
            decreases n - j,
        {
            let c = s.get_char(j);
            let d = match digit_value(c) {
                Some(d) => d,
                None => 0,
            };
            let ghost prev = s@.subrange(from as int, j as int);
            proof {
                assert(s@.subrange(from as int, j + 1).drop_last() =~= prev);
                assert(s@.subrange(from as int, j + 1).last() == s@[j as int]);
            }
            if overflow || value > (u32::MAX - (d as u32)) / 10 {
                proof {
                    if !overflow {
                        assert(spec_digits_value(s@.subrange(from as int, j + 1))
                            == spec_digits_value(prev) * 10 + (s@[j as int] as u32 - 48));
                    }
                }
                overflow = true;
            } else {
                value = value * 10 + (d as u32);
            }
            j = j + 1;
        }
        proof {
            lemma_digit_run_index(s@.skip(from as int), j - from);
            assert(s@.skip(from as int).take(j - from) =~= s@.subrange(from as int, j as int));
            assert(forall|k: int|
                0 <= k < j - from ==> s@.skip(from as int)[k] == s@[from + k]);
            if j < n {
                assert(s@.skip(from as int)[j - from] == s@[j as int]);
            }
        }
        if overflow {
            None
        } else {
            Some((value, j))
        }
    }

    /// Whether a Go toolchain is recent enough: 1.24 or later.
    pub fn go_version_supported(&self, major: u32, minor: u32) -> (r: bool)
        ensures
            r == (major > 1 || (major == 1 && minor >= 24)),
    {
        major > 1 || (major == 1 && minor >= 24)
    }

    /// Whether a Rust toolchain is recent enough: 1.88 or later.
    pub fn rust_version_supported(&self, major: u32, minor: u32) -> (r: bool)
        ensures
            r == (major > 1 || (major == 1 && minor >= 88)),
    {
        major > 1 || (major == 1 && minor >= 88)
    }

    /// Whether a Python interpreter is recent enough: 3.12 or later.
    pub fn python_version_supported(&self, major: u32, minor: u32) -> (r: bool)
        ensures
            r == (major > 3 || (major == 3 && minor >= 12)),
    {
        major > 3 || (major == 3 && minor >= 12)
    }

    /// Writes a parsed version back as `major.minor`.
    pub fn format_version(&self, major: u32, minor: u32) -> (r: String)
        ensures
            r@ == spec_nat_text(major as nat) + seq!['.'] + spec_nat_text(minor as nat),
    {
        let mut out = u64_text(major as u64);
        out.push('.');
        let minor_text = u64_text(minor as u64);
        out.append(minor_text.as_str());
        proof {
            assert(out@ =~= spec_nat_text(major as nat) + seq!['.'] + spec_nat_text(
                minor as nat,
            ));
        }
        out
    }

    /// Strips the leading `uv ` of the package manager's version line.
    pub fn strip_uv_prefix<'a>(&self, s: &'a str) -> (r: &'a str)
        ensures
            spec_starts_with(s@, "uv "@) ==> r@ == s@.skip(3),
            !spec_starts_with(s@, "uv "@) ==> r@ == s@,
    {
        if str_starts_with(s, "uv ") {
            proof {
                reveal_strlit("uv ");
            }
            s.substring_char(3, s.unicode_len())
        } else {
            s
        }
    }
}

/// The value of one digit character.
fn digit_value(c: char) -> (r: Option<u8>)
    ensures
        match r {
            Some(d) => is_digit(c) && d as u32 == c as u32 - 48,
            None => !is_digit(c),
        },
{
    let u = c as u32;
    if 48 <= u && u <= 57 {
        Some((u - 48) as u8)
    } else {
        None
    }
}

} // verus!
