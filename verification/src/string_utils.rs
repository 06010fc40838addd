//! Case conversions of identifier-like names.
//!
//! `to_pascal_case` turns hyphen-, underscore- or camel-delimited names
//! into `PascalCase`; `to_snake_case` and `to_kebab_case` insert a
//! separator before every interior uppercase letter and fold the rest to
//! lowercase.  All folding is ASCII; other characters pass through
//! unchanged.

use vstd::prelude::*;

use crate::text::{is_upper_char, lower_char, lower_char_spec, upper_char, upper_char_spec};

verus! {

/// The separator-insertion conversion behind `to_snake_case` and
/// `to_kebab_case`: every character is folded to lowercase, and `sep` is
/// written before each uppercase letter that is not the first character.
pub open spec fn spec_sep_case(s: Seq<char>, sep: char) -> Seq<char>
    decreases s.len(),
{
    if s.len() == 0 {
        Seq::empty()
    } else {
        let prefix = spec_sep_case(s.drop_last(), sep);
        let c = s.last();
        if is_upper_char(c) && s.len() > 1 {
            prefix + seq![sep, lower_char_spec(c)]
        } else {
            prefix + seq![lower_char_spec(c)]
        }
    }
}

/// What `to_snake_case` returns.
pub open spec fn spec_snake_case(s: Seq<char>) -> Seq<char> {
    spec_sep_case(s, '_')
}

/// What `to_kebab_case` returns.
pub open spec fn spec_kebab_case(s: Seq<char>) -> Seq<char> {
    spec_sep_case(s, '-')
}

/// What `to_pascal_case` returns, scanning `s` with the state of the
/// conversion: `cap` says whether the next letter starts a word, and
/// `nonempty` whether any character has been written so far.
pub open spec fn spec_pascal_rec(s: Seq<char>, cap: bool, nonempty: bool) -> Seq<char>
    decreases s.len(),
{
    if s.len() == 0 {
        Seq::empty()
    } else {
        let c = s[0];
        let rest = s.skip(1);
        if c == '_' || c == '-' {
            spec_pascal_rec(rest, true, nonempty)
        } else if is_upper_char(c) && nonempty {
            seq![c] + spec_pascal_rec(rest, false, true)
        } else if cap {
            seq![upper_char_spec(c)] + spec_pascal_rec(rest, false, true)
        } else {
            seq![lower_char_spec(c)] + spec_pascal_rec(rest, false, true)
        }
    }
}

/// What `to_pascal_case` returns.
pub open spec fn spec_pascal_case(s: Seq<char>) -> Seq<char> {
    spec_pascal_rec(s, true, false)
}

fn sep_case(s: &str, sep: char) -> (r: String)
    ensures
        r@ == spec_sep_case(s@, sep),
{
    let n = s.unicode_len();
    let mut out = String::new();
    let mut i: usize = 0;
    while i < n
        invariant
            0 <= i <= n,
            n == s@.len(),
            out@ == spec_sep_case(s@.take(i as int), sep),
        decreases n - i,
    {
        let c = s.get_char(i);
        let u = c as u32;
        proof {
            assert(s@.take(i + 1).drop_last() =~= s@.take(i as int));
            assert(s@.take(i + 1).last() == s@[i as int]);
        }
        if 65 <= u && u <= 90 && i > 0 {
            out.push(sep);
            out.push(lower_char(c));
            proof {
                assert(out@ =~= spec_sep_case(s@.take(i as int), sep) + seq![
                    sep,
                    lower_char_spec(s@[i as int]),
                ]);
            }
        } else {
            out.push(lower_char(c));
            proof {
                assert(out@ =~= spec_sep_case(s@.take(i as int), sep) + seq![
                    lower_char_spec(s@[i as int]),
                ]);
            }
        }
        i = i + 1;
    }
    proof {
        assert(s@.take(n as int) =~= s@);
    }
    out
}

/// Converts a name to `snake_case`: a `_` is written before every interior
/// ASCII uppercase letter, and every letter is folded to lowercase.
pub fn to_snake_case(s: &str) -> (r: String)
    ensures
        r@ == spec_snake_case(s@),
{
    sep_case(s, '_')
}

/// Converts a name to `kebab-case`: a `-` is written before every interior
/// ASCII uppercase letter, and every letter is folded to lowercase.
pub fn to_kebab_case(s: &str) -> (r: String)
    ensures
        r@ == spec_kebab_case(s@),
{
    sep_case(s, '-')
}

/// Converts a name to `PascalCase`: `-` and `_` are dropped and the letter
/// after each of them (and the first letter) is capitalized; an interior
/// uppercase letter starts a new word and is kept as it stands.
pub fn to_pascal_case(s: &str) -> (r: String)
    ensures
        r@ == spec_pascal_case(s@),
{
    let n = s.unicode_len();
    let mut out = String::new();
    let mut cap = true;
    let mut nonempty = false;
    let mut i: usize = 0;
    proof {
        assert(s@.skip(0) =~= s@);
        assert(out@ + spec_pascal_rec(s@, true, false) =~= spec_pascal_rec(s@, true, false));
    }
    while i < n
        invariant
            0 <= i <= n,
            n == s@.len(),
            nonempty == (out@.len() > 0),
            out@ + spec_pascal_rec(s@.skip(i as int), cap, nonempty) == spec_pascal_case(s@),
        decreases n - i,
    {
        let c = s.get_char(i);
        let u = c as u32;
        proof {
            assert(s@.skip(i as int).len() > 0);
            assert(s@.skip(i as int)[0] == s@[i as int]);
            assert(s@.skip(i as int).skip(1) =~= s@.skip(i + 1));
        }
        let ghost prev_out = out@;
        let ghost suffix = s@.skip(i as int);
        if c == '_' || c == '-' {
            cap = true;
        } else if 65 <= u && u <= 90 && nonempty {
            out.push(c);
            cap = false;
            proof {
                assert(prev_out + (seq![c] + spec_pascal_rec(s@.skip(i + 1), false, true))
                    == spec_pascal_case(s@));
                assert(out@ + spec_pascal_rec(s@.skip(i + 1), false, true) =~= prev_out + (seq![c]
                    + spec_pascal_rec(s@.skip(i + 1), false, true)));
            }
            nonempty = true;
        } else if cap {
            out.push(upper_char(c));
            cap = false;
            proof {
                assert(prev_out + (seq![upper_char_spec(c)] + spec_pascal_rec(
                    s@.skip(i + 1),
                    false,
                    true,
                )) == spec_pascal_case(s@));
                assert(out@ + spec_pascal_rec(s@.skip(i + 1), false, true) =~= prev_out + (seq![
                    upper_char_spec(c),
                ] + spec_pascal_rec(s@.skip(i + 1), false, true)));
            }
            nonempty = true;
        } else {
            out.push(lower_char(c));
            proof {
                assert(prev_out + (seq![lower_char_spec(c)] + spec_pascal_rec(
                    s@.skip(i + 1),
                    false,
                    true,
                )) == spec_pascal_case(s@));
                assert(out@ + spec_pascal_rec(s@.skip(i + 1), false, true) =~= prev_out + (seq![
                    lower_char_spec(c),
                ] + spec_pascal_rec(s@.skip(i + 1), false, true)));
            }
            nonempty = true;
        }
        i = i + 1;
    }
    proof {
        assert(s@.skip(n as int).len() == 0);
        assert(out@ + spec_pascal_rec(s@.skip(n as int), cap, nonempty) =~= out@);
    }
    out
}

} // verus!
