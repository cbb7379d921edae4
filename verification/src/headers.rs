//! A header mapping: names to values, where a later write to the same name
//! wins. Modelled as a `Map<Seq<char>, Seq<char>>`.

use vstd::prelude::*;

verus! {

/// A mapping from header names to header values. Writing the same name twice
/// keeps the later value.
#[derive(Debug)]
pub struct HeaderMap {
    entries: Vec<(String, String)>,
}

/// The views of a sequence of owned name/value pairs.
pub open spec fn pair_views(s: Seq<(String, String)>) -> Seq<(Seq<char>, Seq<char>)> {
    s.map_values(|p: (String, String)| (p.0@, p.1@))
}

/// The mapping built by writing each pair in order, a later pair with the
/// same name winning over an earlier one.
pub open spec fn pairs_to_map(s: Seq<(Seq<char>, Seq<char>)>) -> Map<Seq<char>, Seq<char>>
    decreases s.len(),
{
    if s.len() == 0 {
        Map::empty()
    } else {
        pairs_to_map(s.drop_last()).insert(s.last().0, s.last().1)
    }
}

/// The mapping `base` becomes when the pairs of `s` are written onto it in
/// order.
pub open spec fn extend_pairs(
    base: Map<Seq<char>, Seq<char>>,
    s: Seq<(Seq<char>, Seq<char>)>,
) -> Map<Seq<char>, Seq<char>>
    decreases s.len(),
{
    if s.len() == 0 {
        base
    } else {
        extend_pairs(base, s.drop_last()).insert(s.last().0, s.last().1)
    }
}

/// Writing pairs onto `base` yields `base` overridden by the mapping that the
/// pairs build on their own.
pub proof fn lemma_extend_pairs_union(
    base: Map<Seq<char>, Seq<char>>,
    s: Seq<(Seq<char>, Seq<char>)>,
)
    ensures
        extend_pairs(base, s) == base.union_prefer_right(pairs_to_map(s)),
    decreases s.len(),
{
    if s.len() == 0 {
        assert(base.union_prefer_right(pairs_to_map(s)) =~= base);
    } else {
        lemma_extend_pairs_union(base, s.drop_last());
        assert(base.union_prefer_right(pairs_to_map(s.drop_last())).insert(s.last().0, s.last().1)
            =~= base.union_prefer_right(pairs_to_map(s)));
    }
}

/// The view of one received name/value pair whose value may not have been
/// readable as text.
pub open spec fn opt_pair_view(p: (String, Option<String>)) -> (Seq<char>, Option<Seq<char>>) {
    match p.1 {
        Some(v) => (p.0@, Some(v@)),
        None => (p.0@, None),
    }
}

/// The views of a sequence of such pairs.
pub open spec fn optional_pair_views(s: Seq<(String, Option<String>)>) -> Seq<
    (Seq<char>, Option<Seq<char>>),
> {
    s.map_values(|p: (String, Option<String>)| opt_pair_view(p))
}

/// The mapping built by writing, in order, every pair whose value is text;
/// a pair without a text value is passed over.
pub open spec fn text_header_map(s: Seq<(Seq<char>, Option<Seq<char>>)>) -> Map<
    Seq<char>,
    Seq<char>,
>
    decreases s.len(),
{
    if s.len() == 0 {
        Map::empty()
    } else {
        match s.last().1 {
            Some(v) => text_header_map(s.drop_last()).insert(s.last().0, v),
            None => text_header_map(s.drop_last()),
        }
    }
}

/// Gathers received headers into a mapping, keeping each value that is text
/// and silently dropping each one that is not.
pub fn collect_text_headers(raw: &Vec<(String, Option<String>)>) -> (h: HeaderMap)
    ensures
        h@ == text_header_map(optional_pair_views(raw@)),
{
    let mut h = HeaderMap::new();
    let n = raw.len();
    let mut i: usize = 0;
    while i < n
        invariant
            i <= n == raw@.len(),
            h@ == text_header_map(optional_pair_views(raw@).take(i as int)),
        decreases n - i,
    {
        let p = &raw[i];
        if let Some(v) = &p.1 {
            h.insert(p.0.clone(), v.clone());
        }
        proof {
            assert(optional_pair_views(raw@).take(i as int + 1).drop_last() =~= optional_pair_views(
                raw@,
            ).take(i as int));
            assert(optional_pair_views(raw@).take(i as int + 1).last() == opt_pair_view(
                raw@[i as int],
            ));
        }
        i += 1;
    }
    proof {
        assert(optional_pair_views(raw@).take(n as int) =~= optional_pair_views(raw@));
    }
    h
}

impl View for HeaderMap {
    type V = Map<Seq<char>, Seq<char>>;

    closed spec fn view(&self) -> Map<Seq<char>, Seq<char>> {
        pairs_to_map(pair_views(self.entries@))
    }
}

proof fn lemma_pairs_to_map_match(s: Seq<(Seq<char>, Seq<char>)>, i: int)
    requires
        0 <= i < s.len(),
        forall|j: int| i < j < s.len() ==> s[j].0 != s[i].0,
    ensures
        pairs_to_map(s).contains_key(s[i].0),
        pairs_to_map(s)[s[i].0] == s[i].1,
    decreases s.len(),
{
    if i < s.len() - 1 {
        assert forall|j: int| i < j < s.drop_last().len() implies s.drop_last()[j].0
            != s.drop_last()[i].0 by {
            assert(s.drop_last()[j] == s[j]);
        }
        lemma_pairs_to_map_match(s.drop_last(), i);
        assert(s.last().0 != s[i].0);
    }
}

proof fn lemma_pairs_to_map_no_match(s: Seq<(Seq<char>, Seq<char>)>, k: Seq<char>)
    requires
        forall|j: int| 0 <= j < s.len() ==> s[j].0 != k,
    ensures
        !pairs_to_map(s).contains_key(k),
    decreases s.len(),
{
    if s.len() > 0 {
        assert forall|j: int| 0 <= j < s.drop_last().len() implies s.drop_last()[j].0 != k by {
            assert(s.drop_last()[j] == s[j]);
        }
        lemma_pairs_to_map_no_match(s.drop_last(), k);
    }
}

impl HeaderMap {
    /// An empty mapping.
    pub fn new() -> (h: HeaderMap)
        ensures
            h@ == Map::<Seq<char>, Seq<char>>::empty(),
    {
        HeaderMap { entries: Vec::new() }
    }

    /// Writes one name/value pair; an earlier value under the same name is
    /// superseded.
    pub fn insert(&mut self, name: String, value: String)
        ensures
            final (self)@ == old(self)@.insert(name@, value@),
    {
        let ghost n = name@;
        let ghost v = value@;
        let ghost before = self.entries@;
        self.entries.push((name, value));
        proof {
            assert(pair_views(self.entries@).drop_last() =~= pair_views(before));
            assert(pair_views(self.entries@).last() == (n, v));
        }
    }

    /// Looks a name up; the value handed back is the one the mapping holds.
    pub fn get(&self, name: &String) -> (r: Option<&String>)
        ensures
            match r {
                Some(v) => self@.contains_key(name@) && v@ == self@[name@],
                None => !self@.contains_key(name@),
            },
    {
        let n = self.entries.len();
        let mut i: usize = n;
        while i > 0
            invariant
                i <= n == self.entries.len(),
                forall|j: int| i <= j < n ==> pair_views(self.entries@)[j].0 != name@,
            decreases i,
        {
            i -= 1;
            let p = &self.entries[i];
            if p.0 == *name {
                proof {
                    assert(pair_views(self.entries@)[i as int].0 == name@);
                    lemma_pairs_to_map_match(pair_views(self.entries@), i as int);
                }
                return Some(&self.entries[i].1);
            }
            proof {
                assert(pair_views(self.entries@)[i as int].0 != name@);
            }
        }
        proof {
            lemma_pairs_to_map_no_match(pair_views(self.entries@), name@);
        }
        None
    }

    /// The pairs that built the mapping, in write order.
    pub fn as_pairs(&self) -> (r: &Vec<(String, String)>)
        ensures
            pairs_to_map(pair_views(r@)) == self@,
    {
        &self.entries
    }
}

} // verus!
