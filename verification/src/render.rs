//! The template renderer.
//!
//! A template is plain text with `{{...}}` placeholders.  A placeholder
//! holds a context key, or a helper name and a key separated by spaces.
//! Rendering substitutes each placeholder with the text of the key's
//! value; a key absent from the context is an error, never a silent blank.
//! The two helpers, `to_camel_case` and `to_snake_case`, transform the
//! value's text.  A `{{` with no following `}}` is an error; a `}}` on its
//! own is ordinary text.

use vstd::prelude::*;

use crate::context::{CtxValue, CtxValueV, RenderContext};
use crate::errors::RenderError;
use crate::text::{lower_char, lower_char_spec, upper_char, upper_char_spec};

verus! {

/// The decimal digit character for `d`.
pub open spec fn spec_digit_char(d: int) -> char {
    ((48 + d) as u8) as char
}

/// The decimal text of `n`.
pub open spec fn spec_nat_text(n: nat) -> Seq<char>
    decreases n,
{
    if n < 10 {
        seq![spec_digit_char(n as int)]
    } else {
        spec_nat_text(n / 10) + seq![spec_digit_char((n % 10) as int)]
    }
}

/// Writes `n` in decimal.
pub fn u64_text(n: u64) -> (r: String)
    ensures
        r@ == spec_nat_text(n as nat),
    decreases n,
{
    if n < 10 {
        let mut s = String::new();
        s.push(((48 + (n as u8)) as u8) as char);
        proof {
            assert(s@ =~= seq![spec_digit_char(n as int)]);
        }
        s
    } else {
        let mut s = u64_text(n / 10);
        s.push((48 + ((n % 10) as u8)) as char);
        proof {
            assert(s@ =~= spec_nat_text((n / 10) as nat) + seq![
                spec_digit_char((n % 10) as int),
            ]);
            assert((n as nat) / 10 == (n / 10) as nat);
            assert((n as nat) % 10 == (n % 10) as nat);
        }
        s
    }
}

/// The elements of `l` joined with a comma.
pub open spec fn spec_join_comma(l: Seq<Seq<char>>) -> Seq<char>
    decreases l.len(),
{
    if l.len() == 0 {
        Seq::empty()
    } else if l.len() == 1 {
        l[0]
    } else {
        spec_join_comma(l.drop_last()) + seq![','] + l.last()
    }
}

/// Joins the strings of `l` with a comma.
pub fn join_comma(l: &Vec<String>) -> (r: String)
    ensures
        r@ == spec_join_comma(l.deep_view()),
{
    let n = l.len();
    let mut out = String::new();
    let mut i: usize = 0;
    while i < n
        invariant
            0 <= i <= n,
            n == l@.len(),
            out@ == spec_join_comma(l.deep_view().take(i as int)),
        decreases n - i,
    {
        proof {
            assert(l.deep_view().take(i + 1).drop_last() =~= l.deep_view().take(i as int));
            assert(l.deep_view().take(i + 1).last() == l.deep_view()[i as int]);
            assert(l.deep_view()[i as int] == l@[i as int]@);
        }
        if i > 0 {
            out.push(',');
        }
        out.append(l[i].as_str());
        proof {
            if i == 0 {
                assert(out@ =~= l.deep_view().take(1)[0]);
            } else {
                assert(out@ =~= spec_join_comma(l.deep_view().take(i as int)) + seq![',']
                    + l.deep_view()[i as int]);
            }
        }
        i = i + 1;
    }
    proof {
        assert(l.deep_view().take(n as int) =~= l.deep_view());
    }
    out
}

/// The text a context value renders as: a string as it stands, a boolean
/// as `true` or `false`, an integer in decimal, a list comma-joined.
pub open spec fn spec_value_text(v: CtxValueV) -> Seq<char> {
    match v {
        CtxValueV::Str(s) => s,
        CtxValueV::Bool(b) => if b {
            "true"@
        } else {
            "false"@
        },
        CtxValueV::Int(n) => spec_nat_text(n as nat),
        CtxValueV::StrList(l) => spec_join_comma(l),
    }
}

/// Writes a context value as text.
pub fn value_text(v: &CtxValue) -> (r: String)
    ensures
        r@ == spec_value_text(v@),
{
    match v {
        CtxValue::Str(s) => s.clone(),
        CtxValue::Bool(b) => {
            if *b {
                "true".to_owned()
            } else {
                "false".to_owned()
            }
        },
        CtxValue::Int(n) => u64_text(*n),
        CtxValue::StrList(l) => join_comma(l),
    }
}

/// The `to_snake_case` helper: hyphens become underscores and every
/// letter is folded to ASCII lowercase.
pub open spec fn spec_helper_snake(s: Seq<char>) -> Seq<char>
    decreases s.len(),
{
    if s.len() == 0 {
        Seq::empty()
    } else {
        let c = s.last();
        spec_helper_snake(s.drop_last()) + seq![
            if c == '-' {
                '_'
            } else {
                lower_char_spec(c)
            },
        ]
    }
}

/// Applies the `to_snake_case` helper.
pub fn helper_snake(s: &str) -> (r: String)
    ensures
        r@ == spec_helper_snake(s@),
{
    let n = s.unicode_len();
    let mut out = String::new();
    let mut i: usize = 0;
    while i < n
        invariant
            0 <= i <= n,
            n == s@.len(),
            out@ == spec_helper_snake(s@.take(i as int)),
        decreases n - i,
    {
        let c = s.get_char(i);
        proof {
            assert(s@.take(i + 1).drop_last() =~= s@.take(i as int));
            assert(s@.take(i + 1).last() == s@[i as int]);
        }
        if c == '-' {
            out.push('_');
        } else {
            out.push(lower_char(c));
        }
        proof {
            assert(out@ =~= spec_helper_snake(s@.take(i + 1)));
        }
        i = i + 1;
    }
    proof {
        assert(s@.take(n as int) =~= s@);
    }
    out
}

/// The `to_camel_case` helper, scanning with the word-start state: the
/// input is split on hyphens and underscores; the first word is folded
/// to lowercase, and each later word's first letter is uppercased with
/// the rest lowercased.
pub open spec fn spec_helper_camel_rec(s: Seq<char>, cap: bool) -> Seq<char>
    decreases s.len(),
{
    if s.len() == 0 {
        Seq::empty()
    } else {
        let c = s[0];
        let rest = s.skip(1);
        if c == '-' || c == '_' {
            spec_helper_camel_rec(rest, true)
        } else if cap {
            seq![upper_char_spec(c)] + spec_helper_camel_rec(rest, false)
        } else {
            seq![lower_char_spec(c)] + spec_helper_camel_rec(rest, false)
        }
    }
}

/// The `to_camel_case` helper: hyphen- or underscore-delimited text
/// becomes camelCase.
pub open spec fn spec_helper_camel(s: Seq<char>) -> Seq<char> {
    spec_helper_camel_rec(s, false)
}

/// Applies the `to_camel_case` helper.
pub fn helper_camel(s: &str) -> (r: String)
    ensures
        r@ == spec_helper_camel(s@),
{
    let n = s.unicode_len();
    let mut out = String::new();
    let mut cap = false;
    let mut i: usize = 0;
    proof {
        assert(s@.skip(0) =~= s@);
        assert(out@ + spec_helper_camel_rec(s@, false) =~= spec_helper_camel_rec(s@, false));
    }
    while i < n
        invariant
            0 <= i <= n,
            n == s@.len(),
            out@ + spec_helper_camel_rec(s@.skip(i as int), cap) == spec_helper_camel(s@),
        decreases n - i,
    {
        let c = s.get_char(i);
        proof {
            assert(s@.skip(i as int)[0] == s@[i as int]);
            assert(s@.skip(i as int).skip(1) =~= s@.skip(i + 1));
        }
        let ghost prev_out = out@;
        if c == '-' || c == '_' {
            cap = true;
        } else if cap {
            out.push(upper_char(c));
            cap = false;
            proof {
                assert(out@ + spec_helper_camel_rec(s@.skip(i + 1), false) =~= prev_out + (seq![
                    upper_char_spec(c),
                ] + spec_helper_camel_rec(s@.skip(i + 1), false)));
            }
        } else {
            out.push(lower_char(c));
            proof {
                assert(out@ + spec_helper_camel_rec(s@.skip(i + 1), false) =~= prev_out + (seq![
                    lower_char_spec(c),
                ] + spec_helper_camel_rec(s@.skip(i + 1), false)));
            }
        }
        i = i + 1;
    }
    proof {
        assert(out@ + spec_helper_camel_rec(s@.skip(n as int), cap) =~= out@);
    }
    out
}

/// `s` without leading spaces.
pub open spec fn spec_trim_front(s: Seq<char>) -> Seq<char>
    decreases s.len(),
{
    if s.len() > 0 && s[0] == ' ' {
        spec_trim_front(s.skip(1))
    } else {
        s
    }
}

/// `s` without trailing spaces.
pub open spec fn spec_trim_back(s: Seq<char>) -> Seq<char>
    decreases s.len(),
{
    if s.len() > 0 && s.last() == ' ' {
        spec_trim_back(s.drop_last())
    } else {
        s
    }
}

/// `s` without leading and trailing spaces.
pub open spec fn spec_trim(s: Seq<char>) -> Seq<char> {
    spec_trim_back(spec_trim_front(s))
}

/// The prefix of `s` up to the first space.
pub open spec fn spec_first_word(s: Seq<char>) -> Seq<char>
    decreases s.len(),
{
    if s.len() == 0 || s[0] == ' ' {
        Seq::empty()
    } else {
        seq![s[0]] + spec_first_word(s.skip(1))
    }
}

/// Whether `s` holds a space.
pub open spec fn has_space(s: Seq<char>) -> bool {
    exists|i: int| 0 <= i < s.len() && s[i] == ' '
}

proof fn lemma_trim_front_index(s: Seq<char>, a: int)
    requires
        0 <= a <= s.len(),
        forall|k: int| 0 <= k < a ==> s[k] == ' ',
        a < s.len() ==> s[a] != ' ',
    ensures
        spec_trim_front(s) == s.skip(a),
    decreases a,
{
    if a == 0 {
        assert(s.skip(0) =~= s);
    } else {
        assert(s[0] == ' ');
        lemma_trim_front_index(s.skip(1), a - 1);
        assert(s.skip(1).skip(a - 1) =~= s.skip(a));
    }
}

proof fn lemma_trim_back_index(s: Seq<char>, b: int)
    requires
        0 <= b <= s.len(),
        forall|k: int| b <= k < s.len() ==> s[k] == ' ',
        b > 0 ==> s[b - 1] != ' ',
    ensures
        spec_trim_back(s) == s.take(b),
    decreases s.len(),
{
    if b == s.len() {
        if s.len() > 0 {
            assert(s.last() != ' ');
        }
        assert(s.take(b) =~= s);
    } else {
        assert(s.last() == ' ');
        lemma_trim_back_index(s.drop_last(), b);
        assert(s.drop_last().take(b) =~= s.take(b));
    }
}

proof fn lemma_first_word_index(s: Seq<char>, w: int)
    requires
        0 <= w <= s.len(),
        forall|k: int| 0 <= k < w ==> s[k] != ' ',
        w < s.len() ==> s[w] == ' ',
    ensures
        spec_first_word(s) == s.take(w),
    decreases w,
{
    if w == 0 {
        assert(s.take(0) =~= Seq::<char>::empty());
    } else {
        assert(s[0] != ' ');
        lemma_first_word_index(s.skip(1), w - 1);
        assert(seq![s[0]] + s.skip(1).take(w - 1) =~= s.take(w));
    }
}

/// The text of `key` in `ctx`: its value's text, or the undefined-key
/// error.
pub open spec fn spec_lookup(key: Seq<char>, ctx: Map<Seq<char>, CtxValueV>) -> Result<
    Seq<char>,
    RenderError,
> {
    if ctx.contains_key(key) {
        Ok(spec_value_text(ctx[key]))
    } else {
        Err(RenderError::UndefinedKey)
    }
}

/// What the inside of a `{{...}}` placeholder resolves to: after trimming,
/// either a bare key, or a helper name and a key.
pub open spec fn spec_resolve(inner: Seq<char>, ctx: Map<Seq<char>, CtxValueV>) -> Result<
    Seq<char>,
    RenderError,
> {
    let t = spec_trim(inner);
    if t.len() == 0 {
        Err(RenderError::MalformedPlaceholder)
    } else if !has_space(t) {
        spec_lookup(t, ctx)
    } else {
        let h = spec_first_word(t);
        let rest = spec_trim_front(t.skip(h.len() as int));
        if rest.len() == 0 || has_space(rest) {
            Err(RenderError::MalformedPlaceholder)
        } else if h == "to_camel_case"@ {
            match spec_lookup(rest, ctx) {
                Ok(v) => Ok(spec_helper_camel(v)),
                Err(e) => Err(e),
            }
        } else if h == "to_snake_case"@ {
            match spec_lookup(rest, ctx) {
                Ok(v) => Ok(spec_helper_snake(v)),
                Err(e) => Err(e),
            }
        } else {
            Err(RenderError::UnknownHelper)
        }
    }
}

fn lookup_text(key: &str, ctx: &RenderContext) -> (r: Result<String, RenderError>)
    requires
        ctx.wf(),
    ensures
        match r {
            Ok(s) => spec_lookup(key@, ctx@) == Ok::<Seq<char>, RenderError>(s@),
            Err(e) => spec_lookup(key@, ctx@) == Err::<Seq<char>, RenderError>(e),
        },
{
    match ctx.get(key) {
        Some(v) => Ok(value_text(v)),
        None => Err(RenderError::UndefinedKey),
    }
}

/// Resolves the inside of one placeholder against the context.
fn resolve_placeholder(inner: &str, ctx: &RenderContext) -> (r: Result<String, RenderError>)
    requires
        ctx.wf(),
    ensures
        match r {
            Ok(s) => spec_resolve(inner@, ctx@) == Ok::<Seq<char>, RenderError>(s@),
            Err(e) => spec_resolve(inner@, ctx@) == Err::<Seq<char>, RenderError>(e),
        },
{
    let n = inner.unicode_len();
    // Trim leading and trailing spaces.
    let mut a: usize = 0;
    while a < n && inner.get_char(a) == ' '
        invariant
            0 <= a <= n,
            n == inner@.len(),
            forall|k: int| 0 <= k < a ==> inner@[k] == ' ',
        decreases n - a,
    {
        a = a + 1;
    }
    let mut b: usize = n;
    while b > a && inner.get_char(b - 1) == ' '
        invariant
            a <= b <= n,
            n == inner@.len(),
            forall|k: int| b <= k < n ==> inner@[k] == ' ',
        decreases b,
    {
        b = b - 1;
    }
    let t = inner.substring_char(a, b);
    proof {
        lemma_trim_front_index(inner@, a as int);
        lemma_trim_back_index(inner@.skip(a as int), b - a);
        assert(inner@.skip(a as int).take(b - a) =~= inner@.subrange(a as int, b as int));
        assert(t@ == spec_trim(inner@));
    }
    let m = b - a;
    if m == 0 {
        return Err(RenderError::MalformedPlaceholder);
    }
    // Find the first space of the trimmed text.
    let mut sp: usize = 0;
    while sp < m && t.get_char(sp) != ' '
        invariant
            0 <= sp <= m,
            m == t@.len(),
            forall|k: int| 0 <= k < sp ==> t@[k] != ' ',
        decreases m - sp,
    {
        sp = sp + 1;
    }
    if sp == m {
        // A bare key.
        assert(!has_space(t@));
        return lookup_text(t, ctx);
    }
    assert(t@[sp as int] == ' ');
    assert(has_space(t@));
    let h = t.substring_char(0, sp);
    proof {
        lemma_first_word_index(t@, sp as int);
        assert(t@.subrange(0, sp as int) =~= t@.take(sp as int));
        assert(h@ == spec_first_word(t@));
    }
    // Skip the spaces after the helper name.
    let mut rp: usize = sp;
    while rp < m && t.get_char(rp) == ' '
        invariant
            sp <= rp <= m,
            m == t@.len(),
            forall|k: int| sp <= k < rp ==> t@[k] == ' ',
        decreases m - rp,
    {
        rp = rp + 1;
    }
    let rest = t.substring_char(rp, m);
    proof {
        lemma_trim_front_index(t@.skip(sp as int), rp - sp);
        assert(t@.skip(sp as int).skip(rp - sp) =~= t@.subrange(rp as int, m as int));
        assert(rest@ == spec_trim_front(t@.skip(sp as int)));
    }
    let rl = m - rp;
    if rl == 0 {
        return Err(RenderError::MalformedPlaceholder);
    }
    // The argument must be a single word.
    let mut q: usize = 0;
    while q < rl && rest.get_char(q) != ' '
        invariant
            0 <= q <= rl,
            rl == rest@.len(),
            forall|k: int| 0 <= k < q ==> rest@[k] != ' ',
        decreases rl - q,
    {
        q = q + 1;
    }
    if q < rl {
        assert(has_space(rest@));
        return Err(RenderError::MalformedPlaceholder);
    }
    assert(!has_space(rest@));
    if crate::text::str_eq(h, "to_camel_case") {
        match lookup_text(rest, ctx) {
            Ok(v) => Ok(helper_camel(v.as_str())),
            Err(e) => Err(e),
        }
    } else if crate::text::str_eq(h, "to_snake_case") {
        match lookup_text(rest, ctx) {
            Ok(v) => Ok(helper_snake(v.as_str())),
            Err(e) => Err(e),
        }
    } else {
        Err(RenderError::UnknownHelper)
    }
}

/// A `}}` closer starts at position `k` of `t`.
pub open spec fn close_at(t: Seq<char>, k: int) -> bool {
    0 <= k && k + 2 <= t.len() && t[k] == '}' && t[k + 1] == '}'
}

/// A `{{` opener starts at position `k` of `t`.
pub open spec fn open_at(t: Seq<char>, k: int) -> bool {
    0 <= k && k + 2 <= t.len() && t[k] == '{' && t[k + 1] == '{'
}

/// The position of the first `}}` in `t`, if any.
pub open spec fn spec_find_close(t: Seq<char>) -> Option<nat>
    decreases t.len(),
{
    if t.len() < 2 {
        None
    } else if t[0] == '}' && t[1] == '}' {
        Some(0)
    } else {
        match spec_find_close(t.skip(1)) {
            None => None,
            Some(j) => Some((j + 1) as nat),
        }
    }
}

proof fn lemma_find_close_some(t: Seq<char>, j: int)
    requires
        close_at(t, j),
        forall|k: int| 0 <= k < j ==> !close_at(t, k),
    ensures
        spec_find_close(t) == Some(j as nat),
    decreases j,
{
    if j == 0 {
    } else {
        assert(!close_at(t, 0));
        assert(close_at(t.skip(1), j - 1)) by {
            assert(t.skip(1)[j - 1] == t[j as int]);
            assert(t.skip(1)[j] == t[j + 1]);
        }
        assert forall|k: int| 0 <= k < j - 1 implies !close_at(t.skip(1), k) by {
            if close_at(t.skip(1), k) {
                assert(t.skip(1)[k] == t[k + 1]);
                assert(t.skip(1)[k + 1] == t[k + 2]);
                assert(close_at(t, k + 1));
            }
        }
        lemma_find_close_some(t.skip(1), j - 1);
    }
}

proof fn lemma_find_close_none(t: Seq<char>)
    requires
        forall|k: int| !close_at(t, k),
    ensures
        spec_find_close(t) is None,
    decreases t.len(),
{
    if t.len() >= 2 {
        assert(!close_at(t, 0));
        assert forall|k: int| !close_at(t.skip(1), k) by {
            if close_at(t.skip(1), k) {
                assert(t.skip(1)[k] == t[k + 1]);
                assert(t.skip(1)[k + 1] == t[k + 2]);
                assert(close_at(t, k + 1));
            }
        }
        lemma_find_close_none(t.skip(1));
    }
}

/// What rendering template text `t` against context `ctx` returns: the
/// text with each `{{...}}` placeholder replaced by what it resolves to,
/// or the first error.  A `{{` opener must have a `}}` closer; the first
/// `}}` after the opener closes it.
pub open spec fn spec_render(t: Seq<char>, ctx: Map<Seq<char>, CtxValueV>) -> Result<
    Seq<char>,
    RenderError,
>
    decreases t.len(),
{
    if t.len() == 0 {
        Ok(Seq::empty())
    } else if open_at(t, 0) {
        match spec_find_close(t.skip(2)) {
            None => Err(RenderError::UnbalancedDelimiters),
            Some(j) => if j + 4 <= t.len() {
                let inner = t.subrange(2, 2 + j as int);
                let rest = t.skip(4 + j as int);
                match spec_resolve(inner, ctx) {
                    Err(e) => Err(e),
                    Ok(val) => match spec_render(rest, ctx) {
                        Err(e) => Err(e),
                        Ok(tail) => Ok(val + tail),
                    },
                }
            } else {
                Err(RenderError::UnbalancedDelimiters)
            },
        }
    } else {
        match spec_render(t.skip(1), ctx) {
            Err(e) => Err(e),
            Ok(tail) => Ok(seq![t[0]] + tail),
        }
    }
}

/// Prefixing a rendering result with already-rendered text.
pub open spec fn render_prepend(p: Seq<char>, r: Result<Seq<char>, RenderError>) -> Result<
    Seq<char>,
    RenderError,
> {
    match r {
        Ok(s) => Ok(p + s),
        Err(e) => Err(e),
    }
}

/// Renders template text against a context: each `{{key}}` placeholder
/// becomes the text of the key's value, `{{helper key}}` applies the
/// helper to it; everything else is copied unchanged.
#[verifier::rlimit(60)]
pub fn render(template: &str, ctx: &RenderContext) -> (r: Result<String, RenderError>)
    requires
        ctx.wf(),
    ensures
        match r {
            Ok(s) => spec_render(template@, ctx@) == Ok::<Seq<char>, RenderError>(s@),
            Err(e) => spec_render(template@, ctx@) == Err::<Seq<char>, RenderError>(e),
        },
{
    let n = template.unicode_len();
    let mut out = String::new();
    let mut i: usize = 0;
    proof {
        assert(template@.skip(0) =~= template@);
        assert(render_prepend(out@, spec_render(template@, ctx@)) == spec_render(
            template@,
            ctx@,
        )) by {
            match spec_render(template@, ctx@) {
                Ok(s) => {
                    assert(Seq::<char>::empty() + s =~= s);
                },
                Err(_) => {},
            }
        }
    }
    while i < n
        invariant
            0 <= i <= n,
            n == template@.len(),
            ctx.wf(),
            render_prepend(out@, spec_render(template@.skip(i as int), ctx@)) == spec_render(
                template@,
                ctx@,
            ),
        decreases n - i,
    {
        let ghost suffix = template@.skip(i as int);
        proof {
            assert(suffix.len() == n - i);
            assert(forall|k: int| 0 <= k < suffix.len() ==> suffix[k] == template@[i + k]);
        }
        let c = template.get_char(i);
        if i + 1 < n && c == '{' && template.get_char(i + 1) == '{' {
            proof {
                assert(open_at(suffix, 0));
            }
            // Scan for the first `}}` closer after the opener.
            let mut j: usize = i + 2;
            let mut found: bool = false;
            while j < n - 1 && !found
                invariant
                    i + 2 <= j <= n,
                    n == template@.len(),
                    forall|k: int| i + 2 <= k < j ==> !close_at(template@, k),
                    found ==> close_at(template@, j as int),
                decreases n - j, (if found { 0int } else { 1int }),
            {
                if template.get_char(j) == '}' && template.get_char(j + 1) == '}' {
                    found = true;
                } else {
                    j = j + 1;
                }
            }
            if !found {
                proof {
                    let tail = suffix.skip(2);
                    assert(tail =~= template@.skip(i + 2));
                    assert forall|k: int| !close_at(tail, k) by {
                        if close_at(tail, k) {
                            assert(tail[k] == template@[i + 2 + k]);
                            assert(tail[k + 1] == template@[i + 3 + k]);
                            assert(close_at(template@, i + 2 + k));
                            assert(i + 2 <= i + 2 + k < j);
                        }
                    }
                    lemma_find_close_none(tail);
                }
                return Err(RenderError::UnbalancedDelimiters);
            }
            proof {
                let tail = suffix.skip(2);
                assert(tail =~= template@.skip(i + 2));
                let jrel = j - i - 2;
                assert(close_at(tail, jrel)) by {
                    assert(tail[jrel] == template@[j as int]);
                    assert(tail[jrel + 1] == template@[j + 1]);
                }
                assert forall|k: int| 0 <= k < jrel implies !close_at(tail, k) by {
                    if close_at(tail, k) {
                        assert(tail[k] == template@[i + 2 + k]);
                        assert(tail[k + 1] == template@[i + 3 + k]);
                        assert(close_at(template@, i + 2 + k));
                        assert(i + 2 <= i + 2 + k < j);
                    }
                }
                lemma_find_close_some(tail, jrel);
                assert(spec_find_close(suffix.skip(2)) == Some(jrel as nat));
                assert(jrel + 4 <= suffix.len());
            }
            let inner = template.substring_char(i + 2, j);
            proof {
                assert(inner@ =~= suffix.subrange(2, 2 + (j - i - 2)));
            }
            match resolve_placeholder(inner, ctx) {
                Err(e) => {
                    return Err(e);
                },
                Ok(val) => {
                    let ghost prev_out = out@;
                    out.append(val.as_str());
                    proof {
                        assert(suffix.skip(4 + (j - i - 2)) =~= template@.skip(j + 2));
                        assert(spec_render(suffix, ctx@) == render_prepend(
                            val@,
                            spec_render(template@.skip(j + 2), ctx@),
                        ));
                        match spec_render(template@.skip(j + 2), ctx@) {
                            Ok(tl) => {
                                assert(prev_out + (val@ + tl) =~= (prev_out + val@) + tl);
                            },
                            Err(_) => {},
                        }
                    }
                    i = j + 2;
                },
            }
        } else {
            proof {
                assert(!open_at(suffix, 0)) by {
                    if i + 1 < n {
                        assert(suffix[1] == template@[i + 1]);
                    }
                }
                assert(suffix.skip(1) =~= template@.skip(i + 1));
            }
            let ghost prev_out = out@;
            out.push(c);
            proof {
                assert(suffix[0] == c);
                match spec_render(template@.skip(i + 1), ctx@) {
                    Ok(tl) => {
                        assert(prev_out + (seq![c] + tl) =~= (prev_out.push(c)) + tl);
                    },
                    Err(_) => {},
                }
            }
            i = i + 1;
        }
    }
    proof {
        assert(template@.skip(n as int).len() == 0);
        match spec_render(template@, ctx@) {
            Ok(s) => {
                assert(out@ + Seq::<char>::empty() =~= out@);
            },
            Err(_) => {},
        }
    }
    Ok(out)
}

/// Law: template text with no `{{` opener renders to itself, whatever the
/// context holds.
pub proof fn lemma_static_text_unchanged(t: Seq<char>, ctx: Map<Seq<char>, CtxValueV>)
    requires
        forall|k: int| !open_at(t, k),
    ensures
        spec_render(t, ctx) == Ok::<Seq<char>, RenderError>(t),
    decreases t.len(),
{
    if t.len() == 0 {
        assert(t =~= Seq::<char>::empty());
    } else {
        assert(!open_at(t, 0));
        assert forall|k: int| !open_at(t.skip(1), k) by {
            if open_at(t.skip(1), k) {
                assert(t.skip(1)[k] == t[k + 1]);
                assert(t.skip(1)[k + 1] == t[k + 2]);
                assert(open_at(t, k + 1));
            }
        }
        lemma_static_text_unchanged(t.skip(1), ctx);
        assert(seq![t[0]] + t.skip(1) =~= t);
    }
}

/// The key referenced by the inside of a placeholder, if the placeholder
/// is well-formed.
pub open spec fn spec_inner_key(inner: Seq<char>) -> Option<Seq<char>> {
    let t = spec_trim(inner);
    if t.len() == 0 {
        None
    } else if !has_space(t) {
        Some(t)
    } else {
        let h = spec_first_word(t);
        let rest = spec_trim_front(t.skip(h.len() as int));
        if rest.len() == 0 || has_space(rest) {
            None
        } else if h == "to_camel_case"@ || h == "to_snake_case"@ {
            Some(rest)
        } else {
            None
        }
    }
}

/// The set of context keys the template references through well-formed
/// placeholders.
pub open spec fn spec_template_refs(t: Seq<char>) -> Set<Seq<char>>
    decreases t.len(),
{
    if t.len() == 0 {
        Set::empty()
    } else if open_at(t, 0) {
        match spec_find_close(t.skip(2)) {
            None => Set::empty(),
            Some(j) => if j + 4 <= t.len() {
                let inner = t.subrange(2, 2 + j as int);
                let rest = t.skip(4 + j as int);
                match spec_inner_key(inner) {
                    Some(k) => spec_template_refs(rest).insert(k),
                    None => spec_template_refs(rest),
                }
            } else {
                Set::empty()
            },
        }
    } else {
        spec_template_refs(t.skip(1))
    }
}

/// Law: when rendering succeeds, every key the template references was
/// present in the context.
pub proof fn lemma_render_ok_keys_defined(t: Seq<char>, ctx: Map<Seq<char>, CtxValueV>)
    requires
        spec_render(t, ctx) is Ok,
    ensures
        forall|k: Seq<char>| spec_template_refs(t).contains(k) ==> ctx.contains_key(k),
    decreases t.len(),
{
    if t.len() == 0 {
    } else if open_at(t, 0) {
        match spec_find_close(t.skip(2)) {
            None => {},
            Some(j) => {
                if j + 4 <= t.len() {
                    let inner = t.subrange(2, 2 + j as int);
                    let rest = t.skip(4 + j as int);
                    assert(spec_resolve(inner, ctx) is Ok);
                    assert(spec_render(rest, ctx) is Ok);
                    lemma_render_ok_keys_defined(rest, ctx);
                    match spec_inner_key(inner) {
                        Some(k0) => {
                            assert(ctx.contains_key(k0));
                        },
                        None => {},
                    }
                }
            },
        }
    } else {
        lemma_render_ok_keys_defined(t.skip(1), ctx);
    }
}

/// Law: a template that references a key absent from the context never
/// renders; rendering is strict, with no silent empty substitution.
pub proof fn lemma_undefined_key_rejected(
    t: Seq<char>,
    ctx: Map<Seq<char>, CtxValueV>,
    k: Seq<char>,
)
    requires
        spec_template_refs(t).contains(k),
        !ctx.contains_key(k),
    ensures
        spec_render(t, ctx) is Err,
{
    if spec_render(t, ctx) is Ok {
        lemma_render_ok_keys_defined(t, ctx);
    }
}

/// The rendering engine.  Its helper registry is fixed at construction:
/// `to_camel_case` and `to_snake_case`.  It keeps no per-call state, so
/// one engine may render any number of templates against any contexts.
pub struct TemplateEngine {}

impl TemplateEngine {
    /// An engine with the built-in helpers registered.
    pub fn new() -> (r: TemplateEngine) {
        TemplateEngine {  }
    }

    /// Renders one template text against a context.
    pub fn render_template_content(&self, template_content: &str, context: &RenderContext) -> (r:
        Result<String, RenderError>)
        requires
            context.wf(),
        ensures
            match r {
                Ok(s) => spec_render(template_content@, context@) == Ok::<Seq<char>, RenderError>(
                    s@,
                ),
                Err(e) => spec_render(template_content@, context@) == Err::<Seq<char>, RenderError>(
                    e,
                ),
            },
    {
        render(template_content, context)
    }
}

} // verus!
