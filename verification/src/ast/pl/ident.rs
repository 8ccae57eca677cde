//! Qualified names.
use vstd::prelude::*;

verus! {

/// The text of each string of a sequence, in order.
pub open spec fn texts(v: Seq<String>) -> Seq<Seq<char>> {
    v.map_values(|s: String| s@)
}

/// A qualified name as mathematics: the namespaces that lead to it, and its
/// own last segment. A name therefore always has at least one segment.
pub ghost struct IdentView {
    pub path: Seq<Seq<char>>,
    pub name: Seq<char>,
}

impl IdentView {
    /// Every segment, the last one included.
    pub open spec fn segments(self) -> Seq<Seq<char>> {
        self.path.push(self.name)
    }

    /// The name that consists of exactly the given segments.
    pub open spec fn from_segments(segments: Seq<Seq<char>>) -> IdentView
        recommends
            segments.len() > 0,
    {
        IdentView { path: segments.drop_last(), name: segments.last() }
    }

    /// The segments of `self`, then the segments of `inner`.
    pub open spec fn nest(self, inner: IdentView) -> IdentView {
        IdentView { path: self.segments() + inner.path, name: inner.name }
    }

    /// Whether the segments of `self` begin with all the segments of `prefix`.
    pub open spec fn starts_with(self, prefix: IdentView) -> bool {
        prefix.segments().is_prefix_of(self.segments())
    }
}

/// A name made of given segments has exactly those segments, in their
/// order: storing a name as the flat sequence of its segments loses nothing.
pub proof fn lemma_segments_round_trip(segments: Seq<Seq<char>>)
    requires
        segments.len() > 0,
    ensures
        IdentView::from_segments(segments).segments() == segments,
{
    assert(segments.drop_last().push(segments.last()) =~= segments);
}

/// A name is the one that is made of its segments.
pub proof fn lemma_from_own_segments(ident: IdentView)
    ensures
        ident.segments().len() > 0,
        IdentView::from_segments(ident.segments()) == ident,
{
    assert(ident.segments().drop_last() =~= ident.path);
}

/// The segments of a name nested under another are those of the outer name,
/// then those of the inner one.
pub proof fn lemma_nest_segments(outer: IdentView, inner: IdentView)
    ensures
        outer.nest(inner).segments() == outer.segments() + inner.segments(),
{
    assert(outer.nest(inner).segments() =~= outer.segments() + inner.segments());
}

/// A name. Generally columns, tables, functions, variables.
/// In effect a sequence of strings with at least one element.
#[derive(Debug, PartialEq, Eq, PartialOrd, Ord, Hash, Clone)]
pub struct Ident {
    pub path: Vec<String>,
    pub name: String,
}

impl View for Ident {
    type V = IdentView;

    open spec fn view(&self) -> IdentView {
        IdentView { path: texts(self.path@), name: self.name@ }
    }
}

impl Ident {
    /// The name with the single segment `name`.
    pub fn from_name(name: String) -> (ident: Ident)
        ensures
            ident@ == (IdentView { path: Seq::empty(), name: name@ }),
            ident.name == name,
    {
        let ident = Ident { path: Vec::new(), name };
        assert(texts(ident.path@) =~= Seq::empty());
        ident
    }

    /// The name with the given segments: the last one is its own, the ones
    /// before are its path. A name has at least one segment.
    pub fn from_path(path: Vec<String>) -> (ident: Ident)
        requires
            path.len() > 0,
        ensures
            ident@ == IdentView::from_segments(texts(path@)),
            ident@.segments() == texts(path@),
    {
        let mut path = path;
        let ghost given = path@;
        let name = path.pop().unwrap();
        let ident = Ident { path, name };
        assert(texts(ident.path@) =~= texts(given).drop_last());
        assert(ident@.segments() =~= texts(given));
        ident
    }

    /// The name one level up: this name without its last segment, or `None`
    /// where it has a single segment.
    pub fn pop(self) -> (parent: Option<Ident>)
        ensures
            self@.segments().len() == 1 ==> parent is None,
            self@.segments().len() >= 2 ==> parent is Some && parent->0@.segments()
                == self@.segments().drop_last(),
    {
        let mut path = self.path;
        let ghost before = path@;
        match path.pop() {
            None => None,
            Some(name) => {
                let parent = Ident { path, name };
                assert(parent@.segments() =~= texts(before));
                assert(self@.segments().drop_last() =~= texts(before));
                Some(parent)
            },
        }
    }

    /// Splits off the first segment. What is left is `None` where the name
    /// had a single segment.
    pub fn pop_front(self) -> (split: (String, Option<Ident>))
        ensures
            split.0@ == self@.segments().first(),
            self@.segments().len() == 1 ==> split.1 is None,
            self@.segments().len() >= 2 ==> split.1 is Some && split.1->0@.segments()
                == self@.segments().drop_first(),
    {
        let mut ident = self;
        if ident.path.is_empty() {
            (ident.name, None)
        } else {
            let first = ident.path.remove(0);
            assert(ident@.segments() =~= self@.segments().drop_first());
            (first, Some(ident))
        }
    }

    /// The same name with another last segment.
    pub fn with_name(self, name: String) -> (ident: Ident)
        ensures
            ident@ == (IdentView { path: self@.path, name: name@ }),
            ident.path == self.path,
            ident.name == name,
    {
        let mut ident = self;
        ident.name = name;
        ident
    }

    /// Whether this name begins with every segment of `prefix`, in order.
    pub fn starts_with(&self, prefix: &Ident) -> (b: bool)
        ensures
            b == self@.starts_with(prefix@),
    {
        if self.path.len() < prefix.path.len() {
            return false;
        }
        let n = prefix.path.len();
        let mut i: usize = 0;
        while i < n
            invariant
                n == prefix.path.len(),
                n <= self.path.len(),
                i <= n,
                forall|j: int| 0 <= j < i ==> self@.segments()[j] == prefix@.segments()[j],
            decreases n - i,
        {
            if self.path[i] != prefix.path[i] {
                assert(self@.segments()[i as int] != prefix@.segments()[i as int]);
                return false;
            }
            i += 1;
        }
        let same = if n < self.path.len() {
            self.path[n] == prefix.name
        } else {
            self.name == prefix.name
        };
        proof {
            let whole = self@.segments();
            let start = prefix@.segments();
            assert(start[n as int] == prefix.name@);
            if same {
                assert(whole.subrange(0, start.len() as int) =~= start);
            } else {
                assert(whole[n as int] != start[n as int]);
            }
        }
        same
    }

    /// Every segment of the name as a string of its own, the last one
    /// included: the flat form in which a name is stored.
    pub fn full_segments(&self) -> (segments: Vec<String>)
        ensures
            texts(segments@) == self@.segments(),
    {
        let mut segments: Vec<String> = Vec::new();
        let n = self.path.len();
        let mut i: usize = 0;
        while i < n
            invariant
                n == self.path.len(),
                i <= n,
                texts(segments@) == texts(self.path@).subrange(0, i as int),
            decreases n - i,
        {
            let ghost before = segments@;
            let part = self.path[i].clone();
            segments.push(part);
            assert(segments@ == before.push(part));
            assert(part@ == self.path@[i as int]@);
            assert(texts(segments@) =~= texts(before).push(part@));
            assert(texts(segments@) =~= texts(self.path@).subrange(0, i + 1));
            i += 1;
        }
        let ghost before = segments@;
        let name = self.name.clone();
        segments.push(name);
        assert(segments@ == before.push(name));
        assert(texts(before) =~= texts(self.path@));
        assert(texts(segments@) =~= self@.segments());
        segments
    }

    /// The name as it is written.
    pub fn to_string(&self) -> (out: String)
        ensures
            out@ == ident_text(self@),
    {
        display_ident(self)
    }
}

impl core::ops::Add<Ident> for Ident {
    type Output = Ident;

    /// Nests `rhs` under this name.
    fn add(self, rhs: Ident) -> (sum: Ident)
        ensures
            sum@ == self@.nest(rhs@),
            sum.name == rhs.name,
    {
        let Ident { path, name } = self;
        let Ident { path: inner, name: last } = rhs;
        let mut path = path;
        let mut inner = inner;
        path.push(name);
        path.append(&mut inner);
        let sum = Ident { path, name: last };
        assert(sum@.path =~= self@.segments() + rhs@.path);
        sum
    }
}

/// What `+` gives is stated on `add` itself, over views: the vector of the
/// sum is built anew, so no value can be named for it here.
impl vstd::std_specs::ops::AddSpecImpl<Ident> for Ident {
    open spec fn obeys_add_spec() -> bool {
        false
    }

    open spec fn add_req(self, rhs: Ident) -> bool {
        true
    }

    open spec fn add_spec(self, rhs: Ident) -> Ident {
        rhs
    }
}

/// Whether `c` may begin a segment that is written without backticks.
pub open spec fn plain_start(c: char) -> bool {
    ('a' <= c && c <= 'z') || c == '_' || c == '$'
}

/// Whether `c` may follow the first character of a segment that is written
/// without backticks.
pub open spec fn plain_subsequent(c: char) -> bool {
    ('a' <= c && c <= 'z') || ('0' <= c && c <= '9') || c == '_'
}

/// Whether a segment has to be enclosed in backticks: it is empty, or begins
/// with a character that may not begin a plain segment, or goes on with one
/// that may not follow.
pub open spec fn needs_escape(s: Seq<char>) -> bool {
    s.len() == 0 || !plain_start(s[0]) || exists|i: int|
        1 <= i < s.len() && !plain_subsequent(#[trigger] s[i])
}

/// One segment as it is written.
pub open spec fn part_text(s: Seq<char>) -> Seq<char> {
    if needs_escape(s) {
        seq!['`'] + s + seq!['`']
    } else {
        s
    }
}

/// The given segments as they are written, each followed by a dot.
pub open spec fn path_text(path: Seq<Seq<char>>) -> Seq<char>
    decreases path.len(),
{
    if path.len() == 0 {
        Seq::empty()
    } else {
        path_text(path.drop_last()) + part_text(path.last()) + seq!['.']
    }
}

/// A name as it is written: its segments, joined by dots.
pub open spec fn ident_text(ident: IdentView) -> Seq<char> {
    path_text(ident.path) + part_text(ident.name)
}

fn is_plain_start(c: char) -> (b: bool)
    ensures
        b == plain_start(c),
{
    (c >= 'a' && c <= 'z') || c == '_' || c == '$'
}

fn is_plain_subsequent(c: char) -> (b: bool)
    ensures
        b == plain_subsequent(c),
{
    (c >= 'a' && c <= 'z') || (c >= '0' && c <= '9') || c == '_'
}

fn must_escape(s: &str) -> (b: bool)
    ensures
        b == needs_escape(s@),
{
    let mut first: bool = true;
    let mut found: bool = false;
    for c in it: s.chars()
        invariant
            it.seq() == s@,
            first == (it.index() == 0),
            found == (it.index() > 0 && (!plain_start(s@[0]) || exists|i: int|
                1 <= i < it.index() && !plain_subsequent(#[trigger] s@[i]))),
    {
        if first {
            found = !is_plain_start(c);
            first = false;
        } else if !is_plain_subsequent(c) {
            found = true;
        }
    }
    first || found
}

/// Writes one segment of a name.
pub fn display_ident_part(s: &str) -> (out: String)
    ensures
        out@ == part_text(s@),
{
    if must_escape(s) {
        proof {
            reveal_strlit("`");
        }
        let mut out = String::from_str("`");
        out.append(s);
        out.append("`");
        assert(out@ =~= seq!['`'] + s@ + seq!['`']);
        out
    } else {
        String::from_str(s)
    }
}

/// Writes a name: its segments, each enclosed in backticks where it has to
/// be, joined by dots.
pub fn display_ident(ident: &Ident) -> (out: String)
    ensures
        out@ == ident_text(ident@),
{
    let mut out = String::new();
    let n = ident.path.len();
    let mut i: usize = 0;
    proof {
        reveal_strlit(".");
    }
    while i < n
        invariant
            n == ident.path.len(),
            i <= n,
            "."@ == seq!['.'],
            out@ == path_text(texts(ident.path@).subrange(0, i as int)),
        decreases n - i,
    {
        let part = display_ident_part(ident.path[i].as_str());
        out.append(part.as_str());
        out.append(".");
        proof {
            let done = texts(ident.path@).subrange(0, i + 1);
            assert(done.drop_last() =~= texts(ident.path@).subrange(0, i as int));
            assert(done.last() == ident.path@[i as int]@);
        }
        i += 1;
    }
    assert(texts(ident.path@).subrange(0, n as int) =~= texts(ident.path@));
    let part = display_ident_part(ident.name.as_str());
    out.append(part.as_str());
    out
}

} // verus!
