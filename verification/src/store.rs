//! The template store: a read-only, addressable collection of template
//! and plain files under `/`-separated relative paths, held in memory and
//! listed in lexical path order.  The surrounding application fills one
//! store per run, from embedded data or from a directory tree; once built
//! it is never mutated, so every walk over it yields the same listing.

use vstd::prelude::*;

use crate::text::str_eq;

verus! {

/// Strict lexical order on character sequences, by code point.
pub open spec fn lex_lt(a: Seq<char>, b: Seq<char>) -> bool
    decreases a.len(),
{
    if b.len() == 0 {
        false
    } else if a.len() == 0 {
        true
    } else if (a[0] as u32) < (b[0] as u32) {
        true
    } else if a[0] == b[0] {
        lex_lt(a.skip(1), b.skip(1))
    } else {
        false
    }
}

/// Compares two strings in lexical order.
pub fn str_lt(a: &str, b: &str) -> (r: bool)
    ensures
        r == lex_lt(a@, b@),
{
    let na = a.unicode_len();
    let nb = b.unicode_len();
    let mut i: usize = 0;
    proof {
        assert(a@.skip(0) =~= a@);
        assert(b@.skip(0) =~= b@);
    }
    while i < na && i < nb
        invariant
            0 <= i <= na,
            0 <= i <= nb,
            na == a@.len(),
            nb == b@.len(),
            lex_lt(a@, b@) == lex_lt(a@.skip(i as int), b@.skip(i as int)),
        decreases na - i,
    {
        let ca = a.get_char(i);
        let cb = b.get_char(i);
        proof {
            assert(a@.skip(i as int)[0] == a@[i as int]);
            assert(b@.skip(i as int)[0] == b@[i as int]);
            assert(a@.skip(i as int).skip(1) =~= a@.skip(i + 1));
            assert(b@.skip(i as int).skip(1) =~= b@.skip(i + 1));
        }
        if (ca as u32) < (cb as u32) {
            return true;
        }
        if ca != cb {
            return false;
        }
        i = i + 1;
    }
    proof {
        assert(a@.skip(i as int).len() == na - i);
        assert(b@.skip(i as int).len() == nb - i);
    }
    i < nb
}

/// One addressable unit of the store: a relative path and its raw text.
#[derive(Debug)]
pub struct TemplateEntry {
    /// The namespace-qualified, `/`-separated relative path.
    pub path: String,
    /// The raw file content.
    pub content: String,
}

/// The mathematical shape of a template entry.
pub struct TemplateEntryV {
    pub path: Seq<char>,
    pub content: Seq<char>,
}

impl View for TemplateEntry {
    type V = TemplateEntryV;

    open spec fn view(&self) -> TemplateEntryV {
        TemplateEntryV { path: self.path@, content: self.content@ }
    }
}

/// Whether `path` lies under the directory `ns`, `ns` itself excluded; an
/// empty namespace holds every path.
pub open spec fn path_under_namespace(path: Seq<char>, ns: Seq<char>) -> bool {
    if ns.len() == 0 {
        true
    } else {
        path.len() > ns.len() + 1 && path.take(ns.len() as int) == ns && path[ns.len() as int]
            == '/'
    }
}

/// Whether `path` is `ns` itself or lies under the directory `ns`.
pub open spec fn path_in_namespace(path: Seq<char>, ns: Seq<char>) -> bool {
    path == ns || path_under_namespace(path, ns)
}

/// Whether the store holds a file at `ns` or under the directory `ns`.
pub open spec fn spec_namespace_present(entries: Seq<TemplateEntryV>, ns: Seq<char>) -> bool {
    exists|i: int| 0 <= i < entries.len() && path_in_namespace(#[trigger] entries[i].path, ns)
}

/// The contents of the first entry at `path`, scanning front to back.
pub open spec fn spec_store_read(entries: Seq<TemplateEntryV>, path: Seq<char>) -> Option<
    Seq<char>,
>
    decreases entries.len(),
{
    if entries.len() == 0 {
        None
    } else if entries[0].path == path {
        Some(entries[0].content)
    } else {
        spec_store_read(entries.skip(1), path)
    }
}

/// The paths of `entries` that lie under `ns`, in their stored order.
pub open spec fn spec_paths_under(entries: Seq<TemplateEntryV>, ns: Seq<char>) -> Seq<Seq<char>>
    decreases entries.len(),
{
    if entries.len() == 0 {
        Seq::empty()
    } else if path_under_namespace(entries.last().path, ns) {
        spec_paths_under(entries.drop_last(), ns).push(entries.last().path)
    } else {
        spec_paths_under(entries.drop_last(), ns)
    }
}

/// The read-only template store.
#[derive(Debug)]
pub struct TemplateStore {
    entries: Vec<TemplateEntry>,
}

impl View for TemplateStore {
    type V = Seq<TemplateEntryV>;

    closed spec fn view(&self) -> Seq<TemplateEntryV> {
        Seq::new(self.entries@.len(), |i: int| self.entries@[i]@)
    }
}

impl TemplateStore {
    /// Entries stand in strictly ascending lexical path order, so every
    /// path addresses at most one entry and every listing is
    /// deterministic.
    pub open spec fn wf(&self) -> bool {
        forall|i: int|
            0 <= i < self@.len() - 1 ==> lex_lt(#[trigger] self@[i].path, self@[i + 1].path)
    }

    /// An empty store.
    pub fn new() -> (r: TemplateStore)
        ensures
            r.wf(),
            r@ == Seq::<TemplateEntryV>::empty(),
    {
        let r = TemplateStore { entries: Vec::new() };
        proof {
            assert(r@ =~= Seq::<TemplateEntryV>::empty());
        }
        r
    }

    /// How many entries the store holds.
    pub fn len(&self) -> (r: usize)
        ensures
            r == self@.len(),
    {
        self.entries.len()
    }

    /// The entry at position `i` of the listing.
    pub fn entry_at(&self, i: usize) -> (r: &TemplateEntry)
        requires
            i < self@.len(),
        ensures
            r@ == self@[i as int],
    {
        &self.entries[i]
    }

    /// Appends an entry; its path must come lexically after every stored
    /// path.  Returns false, leaving the store unchanged, if it does not.
    pub fn add(&mut self, path: String, content: String) -> (ok: bool)
        requires
            old(self).wf(),
        ensures
            final(self).wf(),
            ok ==> final(self)@ == old(self)@.push(
                TemplateEntryV { path: path@, content: content@ },
            ),
            !ok ==> final(self)@ == old(self)@ && old(self)@.len() > 0 && !lex_lt(
                old(self)@.last().path,
                path@,
            ),
    {
        let n = self.entries.len();
        if n > 0 && !str_lt(self.entries[n - 1].path.as_str(), path.as_str()) {
            return false;
        }
        let ghost prev = self@;
        self.entries.push(TemplateEntry { path, content });
        proof {
            assert(self@ =~= prev.push(self.entries@.last()@));
        }
        true
    }

    /// Whether `path` names a stored file or a directory holding one.
    pub fn contains_path(&self, path: &str) -> (r: bool)
        ensures
            r == spec_namespace_present(self@, path@),
    {
        let n = self.entries.len();
        let mut i: usize = 0;
        while i < n
            invariant
                0 <= i <= n,
                n == self@.len(),
                forall|j: int| 0 <= j < i ==> !path_in_namespace(#[trigger] self@[j].path, path@),
            decreases n - i,
        {
            if path_in_namespace_exec(self.entries[i].path.as_str(), path) {
                proof {
                    assert(path_in_namespace(self@[i as int].path, path@));
                }
                return true;
            }
            i = i + 1;
        }
        false
    }

    /// Reads the file at `path`.
    pub fn read(&self, path: &str) -> (r: Option<&String>)
        ensures
            match r {
                Some(c) => spec_store_read(self@, path@) == Some(c@),
                None => spec_store_read(self@, path@) is None,
            },
    {
        let n = self.entries.len();
        let mut i: usize = 0;
        proof {
            assert(self@.skip(0) =~= self@);
        }
        while i < n
            invariant
                0 <= i <= n,
                n == self@.len(),
                spec_store_read(self@, path@) == spec_store_read(self@.skip(i as int), path@),
            decreases n - i,
        {
            proof {
                assert(self@.skip(i as int)[0] == self@[i as int]);
                assert(self@.skip(i as int).skip(1) =~= self@.skip(i + 1));
            }
            if str_eq(self.entries[i].path.as_str(), path) {
                return Some(&self.entries[i].content);
            }
            i = i + 1;
        }
        proof {
            assert(self@.skip(n as int).len() == 0);
        }
        None
    }

    /// Lists the paths under the directory `path`, in lexical order.
    pub fn list_files(&self, path: &str) -> (r: Vec<String>)
        ensures
            r.deep_view() == spec_paths_under(self@, path@),
    {
        let n = self.entries.len();
        let mut out: Vec<String> = Vec::new();
        let mut i: usize = 0;
        while i < n
            invariant
                0 <= i <= n,
                n == self@.len(),
                out.deep_view() == spec_paths_under(self@.take(i as int), path@),
            decreases n - i,
        {
            proof {
                assert(self@.take(i + 1).drop_last() =~= self@.take(i as int));
                assert(self@.take(i + 1).last() == self@[i as int]);
            }
            let ghost prev = out.deep_view();
            if path_under_namespace_exec(self.entries[i].path.as_str(), path) {
                out.push(self.entries[i].path.clone());
                proof {
                    assert(out.deep_view() =~= prev.push(self@[i as int].path));
                }
            }
            i = i + 1;
        }
        proof {
            assert(self@.take(n as int) =~= self@);
        }
        out
    }
}

/// Decides `path_under_namespace` on strings.
pub fn path_under_namespace_exec(path: &str, ns: &str) -> (r: bool)
    ensures
        r == path_under_namespace(path@, ns@),
{
    let m = ns.unicode_len();
    if m == 0 {
        return true;
    }
    let n = path.unicode_len();
    if n <= m || n - m <= 1 {
        return false;
    }
    if path.get_char(m) != '/' {
        return false;
    }
    let prefix = path.substring_char(0, m);
    proof {
        assert(prefix@ =~= path@.take(m as int));
    }
    str_eq(prefix, ns)
}

/// Decides `path_in_namespace` on strings.
pub fn path_in_namespace_exec(path: &str, ns: &str) -> (r: bool)
    ensures
        r == path_in_namespace(path@, ns@),
{
    if str_eq(path, ns) {
        true
    } else {
        path_under_namespace_exec(path, ns)
    }
}

/// Lexical order is irreflexive.
proof fn lemma_lex_lt_irrefl(a: Seq<char>)
    ensures
        !lex_lt(a, a),
    decreases a.len(),
{
    if a.len() > 0 {
        lemma_lex_lt_irrefl(a.skip(1));
    }
}

/// Lexical order is transitive.
proof fn lemma_lex_lt_trans(a: Seq<char>, b: Seq<char>, c: Seq<char>)
    requires
        lex_lt(a, b),
        lex_lt(b, c),
    ensures
        lex_lt(a, c),
    decreases a.len(),
{
    if a.len() > 0 && c.len() > 0 && !((a[0] as u32) < (c[0] as u32)) {
        if a[0] == b[0] && b[0] == c[0] {
            lemma_lex_lt_trans(a.skip(1), b.skip(1), c.skip(1));
        }
    }
}

/// Entries earlier in a well-formed store order strictly below later
/// ones.
proof fn lemma_sorted_chain(s: Seq<TemplateEntryV>, i: int, j: int)
    requires
        forall|k: int| 0 <= k < s.len() - 1 ==> lex_lt(#[trigger] s[k].path, s[k + 1].path),
        0 <= i < j < s.len(),
    ensures
        lex_lt(s[i].path, s[j].path),
    decreases j - i,
{
    if j == i + 1 {
    } else {
        lemma_sorted_chain(s, i, j - 1);
        lemma_lex_lt_trans(s[i].path, s[j - 1].path, s[j].path);
    }
}

impl TemplateStore {
    /// Law: the store's ordering invariant makes paths unique, so every
    /// relative path addresses at most one entry.
    pub proof fn lemma_paths_unique(&self)
        requires
            self.wf(),
        ensures
            forall|i: int, j: int|
                0 <= i < j < self@.len() ==> (#[trigger] self@[i]).path != (
                #[trigger] self@[j]).path,
    {
        assert forall|i: int, j: int|
            0 <= i < j < self@.len() implies (#[trigger] self@[i]).path != (
        #[trigger] self@[j]).path by {
            lemma_sorted_chain(self@, i, j);
            lemma_lex_lt_irrefl(self@[i].path);
            if self@[i].path == self@[j].path {
                assert(lex_lt(self@[i].path, self@[i].path));
            }
        }
    }
}

} // verus!
