use vstd::prelude::*;
use vstd::string::*;

verus! {

use crate::text::push_char;

/// A path separator inside archive entry names. Both Unix and Windows
/// separators are recognized, as archives are produced on either platform.
pub open spec fn is_separator(c: char) -> bool {
    c == '/' || c == '\\'
}

/// A path component that is safe to create under a scratch or install root:
/// nonempty, no separator or NUL characters, and not a relative traversal
/// component.
pub open spec fn safe_component(c: Seq<char>) -> bool {
    &&& c.len() > 0
    &&& c != "."@
    &&& c != ".."@
    &&& forall|i: int| 0 <= i < c.len() ==> !is_separator(#[trigger] c[i]) && c[i] != '\u{0}'
}

/// The characters of each string in `parts`.
pub open spec fn views_of(parts: Seq<String>) -> Seq<Seq<char>> {
    parts.map_values(|p: String| p@)
}

pub proof fn lemma_views_of_push(parts: Seq<String>, s: String)
    ensures
        views_of(parts.push(s)) =~= views_of(parts).push(s@),
{
}

/// A relative path below some root directory, as a list of components.
#[derive(Debug)]
pub struct RelPath {
    pub parts: Vec<String>,
}

impl View for RelPath {
    type V = Seq<Seq<char>>;

    open spec fn view(&self) -> Seq<Seq<char>> {
        views_of(self.parts@)
    }
}

/// Every component of `p` is safe to create on disk.
pub open spec fn path_wf(p: Seq<Seq<char>>) -> bool {
    forall|i: int| 0 <= i < p.len() ==> safe_component(#[trigger] p[i])
}

impl RelPath {
    /// Well-formed: every component is safe.
    pub open spec fn wf(&self) -> bool {
        path_wf(self@)
    }

    /// The empty path, denoting the root itself.
    pub fn empty() -> (r: RelPath)
        ensures
            r@ =~= Seq::<Seq<char>>::empty(),
    {
        RelPath { parts: Vec::new() }
    }

    pub fn len(&self) -> (n: usize)
        ensures
            n == self@.len(),
    {
        self.parts.len()
    }

    /// Appends one component.
    pub fn push_part(&mut self, part: String)
        ensures
            final(self)@ =~= old(self)@.push(part@),
    {
        let ghost prev = self.parts@;
        self.parts.push(part);
        proof {
            lemma_views_of_push(prev, self.parts@.last());
        }
    }

    /// Removes the last component.
    pub fn pop_part(&mut self)
        requires
            old(self)@.len() > 0,
        ensures
            final(self)@ =~= old(self)@.drop_last(),
    {
        let ghost prev = self.parts@;
        let _ = self.parts.pop();
        proof {
            assert(views_of(prev.drop_last()) =~= views_of(prev).drop_last());
        }
    }

    /// The last component, if the path is not empty.
    pub fn last(&self) -> (r: Option<&String>)
        ensures
            match r {
                Some(s) => self@.len() > 0 && s@ == self@.last(),
                None => self@.len() == 0,
            },
    {
        if self.parts.len() == 0 {
            None
        } else {
            Some(&self.parts[self.parts.len() - 1])
        }
    }

    /// The path without its last component; the empty path stays empty.
    pub fn parent(&self) -> (r: RelPath)
        ensures
            self@.len() > 0 ==> r@ =~= self@.drop_last(),
            self@.len() == 0 ==> r@ =~= self@,
    {
        if self.parts.len() == 0 {
            return RelPath { parts: Vec::new() };
        }
        let n = self.parts.len() - 1;
        self.copy_range(0, n)
    }

    /// An identical copy.
    pub fn duplicate(&self) -> (r: RelPath)
        ensures
            r@ =~= self@,
    {
        self.copy_range(0, self.parts.len())
    }

    /// The components from `from` (inclusive) to `to` (exclusive).
    pub fn copy_range(&self, from: usize, to: usize) -> (r: RelPath)
        requires
            from <= to <= self@.len(),
        ensures
            r@ =~= self@.subrange(from as int, to as int),
    {
        let mut parts: Vec<String> = Vec::new();
        let mut i: usize = from;
        while i < to
            invariant
                from <= i <= to <= self@.len(),
                views_of(parts@) =~= self@.subrange(from as int, i as int),
            decreases to - i,
        {
            let ghost prev = parts@;
            parts.push(clone_string(&self.parts[i]));
            proof {
                lemma_views_of_push(prev, parts@.last());
                assert(views_of(parts@) =~= self@.subrange(from as int, i + 1));
            }
            i = i + 1;
        }
        RelPath { parts }
    }

    /// Whether `prefix` is a (non-strict) prefix of this path.
    pub fn starts_with(&self, prefix: &RelPath) -> (r: bool)
        ensures
            r == is_prefix_of(prefix@, self@),
    {
        if prefix.parts.len() > self.parts.len() {
            return false;
        }
        let n = prefix.parts.len();
        let mut i: usize = 0;
        while i < n
            invariant
                i <= n,
                n == prefix@.len(),
                n <= self@.len(),
                forall|j: int| 0 <= j < i ==> self@[j] == prefix@[j],
            decreases n - i,
        {
            if !string_eq(&self.parts[i], &prefix.parts[i]) {
                proof {
                    assert(self@[i as int] != prefix@[i as int]);
                    assert(self@.take(n as int)[i as int] == self@[i as int]);
                }
                return false;
            }
            i = i + 1;
        }
        proof {
            assert(self@.take(n as int) =~= prefix@);
        }
        true
    }

    /// The path without a leading `prefix` (which must indeed be a prefix).
    pub fn strip_prefix(&self, prefix: &RelPath) -> (r: RelPath)
        requires
            is_prefix_of(prefix@, self@),
        ensures
            r@ =~= self@.skip(prefix@.len() as int),
    {
        self.copy_range(prefix.parts.len(), self.parts.len())
    }

    /// This path with `other` appended after it.
    pub fn concat(&self, other: &RelPath) -> (r: RelPath)
        ensures
            r@ =~= self@ + other@,
    {
        let mut out = self.duplicate();
        let mut i: usize = 0;
        while i < other.parts.len()
            invariant
                i <= other@.len(),
                out@ =~= self@ + other@.take(i as int),
            decreases other@.len() - i,
        {
            out.push_part(clone_string(&other.parts[i]));
            proof {
                assert(out@ =~= self@ + other@.take(i + 1));
            }
            i = i + 1;
        }
        proof {
            assert(self@ + other@.take(other@.len() as int) =~= self@ + other@);
        }
        out
    }
}

/// `p` begins with exactly the components of `prefix`.
pub open spec fn is_prefix_of(prefix: Seq<Seq<char>>, p: Seq<Seq<char>>) -> bool {
    prefix.len() <= p.len() && p.take(prefix.len() as int) == prefix
}

/// `c` holds a NUL character somewhere.
pub open spec fn has_nul(c: Seq<char>) -> bool {
    exists|i: int| 0 <= i < c.len() && c[i] == '\u{0}'
}

pub proof fn lemma_has_nul_push(c: Seq<char>, x: char)
    ensures
        has_nul(c.push(x)) == (has_nul(c) || x == '\u{0}'),
{
    if has_nul(c) {
        let i = choose|i: int| 0 <= i < c.len() && c[i] == '\u{0}';
        assert(c.push(x)[i] == '\u{0}');
    }
    if x == '\u{0}' {
        assert(c.push(x)[c.len() as int] == '\u{0}');
    }
    if has_nul(c.push(x)) {
        let i = choose|i: int| 0 <= i < c.push(x).len() && c.push(x)[i] == '\u{0}';
        if i < c.len() {
            assert(c[i] == '\u{0}');
        }
    }
}

/// Splitting a name at separators, from the left: the pair holds the
/// components already closed by a separator, and the component still open.
pub open spec fn split_scan(s: Seq<char>) -> (Seq<Seq<char>>, Seq<char>)
    decreases s.len(),
{
    if s.len() == 0 {
        (Seq::empty(), Seq::empty())
    } else {
        let prev = split_scan(s.drop_last());
        if is_separator(s.last()) {
            (prev.0.push(prev.1), Seq::empty())
        } else {
            (prev.0, prev.1.push(s.last()))
        }
    }
}

/// The components of `s`, split at separators. Empty components are kept,
/// so that resolution can skip them explicitly.
pub open spec fn split_components(s: Seq<char>) -> Seq<Seq<char>> {
    split_scan(s).0.push(split_scan(s).1)
}

/// Folds one split component into an already-resolved path: empty and `.`
/// components are skipped, `..` removes the previously resolved component,
/// and a `..` past the top or an embedded NUL rejects the whole name.
pub open spec fn resolve_step(out: Seq<Seq<char>>, c: Seq<char>) -> Option<Seq<Seq<char>>> {
    if c.len() == 0 || c == "."@ {
        Some(out)
    } else if c == ".."@ {
        if out.len() == 0 {
            None
        } else {
            Some(out.drop_last())
        }
    } else if has_nul(c) {
        None
    } else {
        Some(out.push(c))
    }
}

/// Resolution of a whole component list, left to right.
pub open spec fn resolve_components(comps: Seq<Seq<char>>) -> Option<Seq<Seq<char>>>
    decreases comps.len(),
{
    if comps.len() == 0 {
        Some(Seq::empty())
    } else {
        match resolve_components(comps.drop_last()) {
            None => None,
            Some(out) => resolve_step(out, comps.last()),
        }
    }
}

/// The sanitization policy for archive entry names: split at separators,
/// resolve traversal components, and reject names that would escape the
/// extraction root or embed a NUL. A `Some` result is always safe to join
/// under the scratch directory.
pub open spec fn sanitize_spec(name: Seq<char>) -> Option<Seq<Seq<char>>> {
    resolve_components(split_components(name))
}

/// An entry name that denotes a directory: it ends with a separator.
pub open spec fn is_dir_name_spec(name: Seq<char>) -> bool {
    name.len() > 0 && is_separator(name.last())
}

/// Whether an archive entry name denotes a directory entry.
pub fn is_dir_name(name: &str) -> (r: bool)
    ensures
        r == is_dir_name_spec(name@),
{
    let n = name.unicode_len();
    if n == 0 {
        false
    } else {
        let c = name.get_char(n - 1);
        proof {
            assert(name@.last() == name@[name@.len() - 1]);
        }
        c == '/' || c == '\\'
    }
}

/// Resolves an archive entry name to a safe relative path under the
/// extraction root, or rejects it. Implements exactly `sanitize_spec`.
pub fn sanitize_entry_name(name: &str) -> (r: Option<RelPath>)
    ensures
        match r {
            Some(p) => sanitize_spec(name@) == Some(p@) && p.wf(),
            None => sanitize_spec(name@) is None,
        },
{
    let n = name.unicode_len();
    let mut out = RelPath::empty();
    let mut cur = String::new();
    let mut cur_has_nul = false;
    let mut failed = false;
    let dot = String::from_str(".");
    let dotdot = String::from_str("..");
    let mut i: usize = 0;
    while i < n
        invariant
            i <= n,
            n == name@.len(),
            cur@ =~= split_scan(name@.take(i as int)).1,
            cur_has_nul == has_nul(cur@),
            forall|j: int| 0 <= j < cur@.len() ==> !is_separator(#[trigger] cur@[j]),
            dot@ == "."@,
            dotdot@ == ".."@,
            failed ==> resolve_components(split_scan(name@.take(i as int)).0) is None,
            !failed ==> resolve_components(split_scan(name@.take(i as int)).0) == Some(out@),
            !failed ==> out.wf(),
        decreases n - i,
    {
        let c = name.get_char(i);
        proof {
            assert(name@.take(i + 1).drop_last() =~= name@.take(i as int));
            assert(name@.take(i + 1).last() == name@[i as int]);
        }
        if c == '/' || c == '\\' {
            // A separator closes the current component.
            let ghost prev_comps = split_scan(name@.take(i as int)).0;
            proof {
                assert(prev_comps.push(cur@).drop_last() =~= prev_comps);
                assert(prev_comps.push(cur@).last() == cur@);
            }
            if !failed {
                if cur.as_str().unicode_len() == 0 || string_eq(&cur, &dot) {
                    // skipped
                } else if string_eq(&cur, &dotdot) {
                    if out.len() == 0 {
                        failed = true;
                    } else {
                        out.pop_part();
                    }
                } else if cur_has_nul {
                    failed = true;
                } else {
                    out.push_part(cur);
                }
            }
            cur = String::new();
            cur_has_nul = false;
        } else {
            let ghost prev_cur = cur@;
            push_char(&mut cur, c);
            if c == '\u{0}' {
                cur_has_nul = true;
            }
            proof {
                lemma_has_nul_push(prev_cur, c);
            }
        }
        i = i + 1;
    }
    proof {
        assert(name@.take(n as int) =~= name@);
        assert(split_components(name@).drop_last() =~= split_scan(name@).0);
        assert(split_components(name@).last() == split_scan(name@).1);
    }
    // The final open component is resolved the same way.
    if failed {
        return None;
    }
    if cur.as_str().unicode_len() == 0 || string_eq(&cur, &dot) {
        return Some(out);
    }
    if string_eq(&cur, &dotdot) {
        if out.len() == 0 {
            return None;
        }
        out.pop_part();
        return Some(out);
    }
    if cur_has_nul {
        return None;
    }
    out.push_part(cur);
    Some(out)
}

/// Clones a string, keeping its characters.
pub fn clone_string(s: &String) -> (r: String)
    ensures
        r@ == s@,
{
    String::from_str(s.as_str())
}

/// Whether two strings hold the same characters.
pub fn string_eq(a: &String, b: &String) -> (r: bool)
    ensures
        r == (a@ == b@),
{
    a.eq(b)
}

} // verus!
