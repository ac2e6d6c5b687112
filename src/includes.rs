use vstd::prelude::*;

use crate::text::{
    field_end, has_prefix, is_field, lemma_field_found, lower_of, lowercase,
    same_text, starts_with, strip_all,
};

verus! {

/// A relation that a client may ask to have loaded along with a record.
#[derive(Debug, Clone, Copy, PartialEq, Eq, Hash, Structural)]
pub enum Includable {
    LentBooks,
    BaseSetBooks,
    Aliases,
}

/// A set of relations to load.
#[derive(Debug, Clone, Copy, PartialEq, Eq, Structural)]
pub struct Includes {
    pub lent_books: bool,
    pub base_set_books: bool,
    pub aliases: bool,
}

impl View for Includes {
    type V = Set<Includable>;

    open spec fn view(&self) -> Set<Includable> {
        Set::new(|t: Includable| self.has(t))
    }
}

impl Includes {
    pub open spec fn has(&self, t: Includable) -> bool {
        match t {
            Includable::LentBooks => self.lent_books,
            Includable::BaseSetBooks => self.base_set_books,
            Includable::Aliases => self.aliases,
        }
    }

    /// The empty set.
    pub fn new() -> (r: Includes)
        ensures
            r@ == Set::<Includable>::empty(),
    {
        let r = Includes { lent_books: false, base_set_books: false, aliases: false };
        assert(r@ =~= Set::<Includable>::empty());
        r
    }

    pub fn contains(&self, t: Includable) -> (r: bool)
        ensures
            r == self@.contains(t),
    {
        match t {
            Includable::LentBooks => self.lent_books,
            Includable::BaseSetBooks => self.base_set_books,
            Includable::Aliases => self.aliases,
        }
    }

    pub fn insert(&mut self, t: Includable)
        ensures
            final(self)@ == old(self)@.insert(t),
    {
        match t {
            Includable::LentBooks => self.lent_books = true,
            Includable::BaseSetBooks => self.base_set_books = true,
            Includable::Aliases => self.aliases = true,
        }
        assert(final(self)@ =~= old(self)@.insert(t));
    }

    pub fn is_empty(&self) -> (r: bool)
        ensures
            r == (self@ == Set::<Includable>::empty()),
    {
        let r = !self.lent_books && !self.base_set_books && !self.aliases;
        if !r {
            if self.lent_books {
                assert(self@.contains(Includable::LentBooks));
            } else if self.base_set_books {
                assert(self@.contains(Includable::BaseSetBooks));
            } else {
                assert(self@.contains(Includable::Aliases));
            }
        } else {
            assert(self@ =~= Set::<Includable>::empty());
        }
        r
    }
}

/// The relation that a lower-cased name stands for.
pub open spec fn tag_of(token: Seq<char>) -> Option<Includable> {
    if token == "aliases"@ {
        Some(Includable::Aliases)
    } else if token == "lendings.book"@ || token == "lendings"@ {
        Some(Includable::LentBooks)
    } else if token == "basesets.book"@ || token == "basesets"@ {
        Some(Includable::BaseSetBooks)
    } else {
        None
    }
}

/// Whether some comma-separated name in `s`, lower-cased, stands for `t`.
pub open spec fn lists(s: Seq<char>, t: Includable) -> bool {
    exists|a: int, b: int|
        is_field(s, ',', a, b) && tag_of(lower_of(#[trigger] s.subrange(a, b))) == Some(t)
}

/// The relations named in a comma-separated list.
pub open spec fn listed(s: Seq<char>) -> Set<Includable> {
    Set::new(|t: Includable| lists(s, t))
}

/// An `&`-separated parameter of a query that starts with `include=`.
pub open spec fn include_param(q: Seq<char>, a: int, b: int) -> bool {
    is_field(q, '&', a, b) && starts_with(q.subrange(a, b), "include="@)
}

/// The relations that a query string asks for: those listed by its first
/// `include=` parameter, none if it has no such parameter.
#[verifier::opaque]
pub open spec fn requested(q: Seq<char>) -> Set<Includable> {
    if exists|a: int, b: int| include_param(q, a, b) {
        let (a, b) = choose|a: int, b: int|
            include_param(q, a, b) && forall|a2: int, b2: int|
                include_param(q, a2, b2) ==> a <= a2;
        listed(strip_all(q.subrange(a, b), "include="@))
    } else {
        Set::empty()
    }
}

impl Includable {
    /// The relation that an already lower-cased name stands for.
    pub fn from_lowered(token: &str) -> (r: Option<Includable>)
        ensures
            r == tag_of(token@),
    {
        if same_text(token, "aliases") {
            Some(Includable::Aliases)
        } else if same_text(token, "lendings.book") || same_text(token, "lendings") {
            Some(Includable::LentBooks)
        } else if same_text(token, "basesets.book") || same_text(token, "basesets") {
            Some(Includable::BaseSetBooks)
        } else {
            None
        }
    }

    /// The relations named in a comma-separated list, compared without
    /// regard to case; unknown names are left out.
    pub fn parse_str(val: &str) -> (r: Includes)
        ensures
            r@ == listed(val@),
    {
        let n = val.unicode_len();
        let mut r = Includes::new();
        let mut start: usize = 0;
        loop
            invariant
                n == val@.len(),
                start <= n,
                start == 0 || val@[start - 1] == ',',
                forall|t: Includable|
                    r@.contains(t) <==> exists|a: int, b: int|
                        a < start && is_field(val@, ',', a, b) && tag_of(
                            lower_of(#[trigger] val@.subrange(a, b)),
                        ) == Some(t),
            decreases n - start,
        {
            let e = field_end(val, n, ',', start);
            let token = val.substring_char(start, e);
            let lowered = lowercase(token);
            let tag = Includable::from_lowered(lowered.as_str());
            let ghost before = r@;
            if let Some(t) = tag {
                r.insert(t);
            }
            proof {
                assert(is_field(val@, ',', start as int, e as int));
                assert forall|t: Includable|
                    r@.contains(t) <==> exists|a: int, b: int|
                        a < e + 1 && is_field(val@, ',', a, b) && tag_of(
                            lower_of(#[trigger] val@.subrange(a, b)),
                        ) == Some(t) by {
                    if r@.contains(t) && !before.contains(t) {
                        assert(tag_of(lower_of(val@.subrange(start as int, e as int))) == Some(t));
                    }
                    if exists|a: int, b: int|
                        a < e + 1 && is_field(val@, ',', a, b) && tag_of(
                            lower_of(#[trigger] val@.subrange(a, b)),
                        ) == Some(t) {
                        let (a, b) = choose|a: int, b: int|
                            a < e + 1 && is_field(val@, ',', a, b) && tag_of(
                                lower_of(#[trigger] val@.subrange(a, b)),
                            ) == Some(t);
                        if a >= start {
                            lemma_field_found(val@, ',', start as int, e as int, a, b);
                        }
                    }
                }
            }
            if e == n {
                proof {
                    assert forall|t: Includable| r@.contains(t) <==> lists(val@, t) by {
                        if lists(val@, t) {
                            let (a, b) = choose|a: int, b: int|
                                is_field(val@, ',', a, b) && tag_of(
                                    lower_of(#[trigger] val@.subrange(a, b)),
                                ) == Some(t);
                            assert(a < e + 1);
                        }
                    }
                    assert(r@ =~= listed(val@));
                }
                return r;
            }
            proof {
                assert forall|t: Includable|
                    r@.contains(t) <==> exists|a: int, b: int|
                        a < e + 1 && is_field(val@, ',', a, b) && tag_of(
                            lower_of(#[trigger] val@.subrange(a, b)),
                        ) == Some(t) by {}
            }
            start = e + 1;
        }
    }
}

proof fn lemma_first_param(q: Seq<char>, start: int, e: int)
    requires
        0 <= start <= e <= q.len(),
        start == 0 || q[start - 1] == '&',
        e == q.len() || q[e] == '&',
        forall|k: int| start <= k < e ==> q[k] != '&',
        forall|a: int, b: int| a < start ==> !#[trigger] include_param(q, a, b),
        starts_with(q.subrange(start, e), "include="@),
    ensures
        requested(q) == listed(strip_all(q.subrange(start, e), "include="@)),
{
    reveal(requested);
    assert(include_param(q, start, e));
    let (a, b) = choose|a: int, b: int|
        include_param(q, a, b) && forall|a2: int, b2: int|
            include_param(q, a2, b2) ==> a <= a2;
    assert(a <= start);
    lemma_field_found(q, '&', start, e, a, b);
}

proof fn lemma_no_param(q: Seq<char>)
    requires
        forall|a: int, b: int| a < q.len() + 1 ==> !#[trigger] include_param(q, a, b),
    ensures
        requested(q) == Set::<Includable>::empty(),
{
    reveal(requested);
    assert forall|a: int, b: int| !include_param(q, a, b) by {
        if include_param(q, a, b) {
            assert(a < q.len() + 1);
        }
    }
}

/// `s` with every leading repetition of `p` taken off, as
/// `str::trim_start_matches` does.
pub fn strip_leading<'a>(s: &'a str, p: &str) -> (r: &'a str)
    ensures
        r@ == strip_all(s@, p@),
{
    let m = p.unicode_len();
    let mut rest = s;
    if m == 0 {
        return rest;
    }
    while has_prefix(rest, p)
        invariant
            m == p@.len(),
            m > 0,
            strip_all(rest@, p@) == strip_all(s@, p@),
        decreases rest@.len(),
    {
        let len = rest.unicode_len();
        rest = rest.substring_char(m, len);
    }
    rest
}

/// The relations that the query string of a request asks for: the first
/// `include=` parameter decides, later ones are ignored.
pub fn get_includes(query: Option<&str>) -> (r: Includes)
    ensures
        r@ == match query {
            Some(q) => requested(q@),
            None => Set::<Includable>::empty(),
        },
{
    let q = match query {
        Some(q) => q,
        None => return Includes::new(),
    };
    let n = q.unicode_len();
    let mut start: usize = 0;
    loop
        invariant
            query == Some(q),
            n == q@.len(),
            start <= n,
            start == 0 || q@[start - 1] == '&',
            forall|a: int, b: int| a < start ==> !#[trigger] include_param(q@, a, b),
        decreases n - start,
    {
        let e = field_end(q, n, '&', start);
        let item = q.substring_char(start, e);
        if has_prefix(item, "include=") {
            let value = strip_leading(item, "include=");
            let r = Includable::parse_str(value);
            proof {
                lemma_first_param(q@, start as int, e as int);
            }
            return r;
        }
        proof {
            assert forall|a: int, b: int| a < e + 1 implies !#[trigger] include_param(q@, a, b) by {
                if a >= start && include_param(q@, a, b) {
                    lemma_field_found(q@, '&', start as int, e as int, a, b);
                }
            }
        }
        if e == n {
            proof {
                lemma_no_param(q@);
            }
            return Includes::new();
        }
        start = e + 1;
    }
}

} // verus!
