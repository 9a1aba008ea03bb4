//! The destination mapping: topic-to-table routing, immutable after
//! startup.  A topic without an explicit entry maps to itself.

use vstd::prelude::*;
use vstd::string::StrSliceExecFns;

verus! {

/// The first table bound to `topic`, if any; the earliest binding wins.
pub open spec fn spec_lookup(m: Seq<(Seq<char>, Seq<char>)>, topic: Seq<char>) -> Option<
    Seq<char>,
>
    decreases m.len(),
{
    if m.len() == 0 {
        None
    } else if m[0].0 == topic {
        Some(m[0].1)
    } else {
        spec_lookup(m.drop_first(), topic)
    }
}

/// The table a topic routes to: its explicit entry, else the topic itself.
pub open spec fn spec_resolve(m: Seq<(Seq<char>, Seq<char>)>, topic: Seq<char>) -> Seq<char> {
    match spec_lookup(m, topic) {
        Some(t) => t,
        None => topic,
    }
}

/// Whether two strings hold the same characters.
fn str_eq(a: &str, b: &str) -> (r: bool)
    ensures
        r == (a@ == b@),
{
    let na = a.unicode_len();
    let nb = b.unicode_len();
    if na != nb {
        return false;
    }
    let mut i: usize = 0;
    while i < na
        invariant
            na == a@.len(),
            nb == b@.len(),
            na == nb,
            i <= na,
            forall|j: int| 0 <= j < i ==> a@[j] == b@[j],
        decreases na - i,
    {
        if a.get_char(i) != b.get_char(i) {
            return false;
        }
        i = i + 1;
    }
    proof {
        assert(a@ =~= b@);
    }
    true
}

/// A topic-to-table routing table, loaded at startup and read-only after.
#[derive(Debug)]
pub struct DestinationMapping {
    pub entries: Vec<(String, String)>,
}

impl DestinationMapping {
    /// The mapping as a sequence of (topic, table) pairs.
    pub open spec fn model(&self) -> Seq<(Seq<char>, Seq<char>)> {
        self.entries@.map_values(|e: (String, String)| (e.0@, e.1@))
    }

    pub fn new() -> (r: DestinationMapping)
        ensures
            r.model() == Seq::<(Seq<char>, Seq<char>)>::empty(),
    {
        let r = DestinationMapping { entries: Vec::new() };
        proof {
            assert(r.model() =~~= Seq::<(Seq<char>, Seq<char>)>::empty());
        }
        r
    }

    /// Appends one binding.  An earlier binding for the same topic keeps
    /// precedence.
    pub fn insert(&mut self, topic: &str, table: &str)
        ensures
            final(self).model() == old(self).model().push((topic@, table@)),
    {
        self.entries.push((topic.to_owned(), table.to_owned()));
        proof {
            assert(final(self).model() =~~= old(self).model().push((topic@, table@)));
        }
    }

    /// Resolves a topic to its destination table.  A topic absent from the
    /// mapping yields a table name equal to the topic itself.
    pub fn resolve(&self, topic: &str) -> (r: String)
        ensures
            r@ == spec_resolve(self.model(), topic@),
            spec_lookup(self.model(), topic@) is None ==> r@ == topic@,
    {
        let ghost m = self.model();
        proof {
            assert(m.skip(0) =~~= m);
        }
        let mut i: usize = 0;
        while i < self.entries.len()
            invariant
                i <= self.entries@.len(),
                m == self.model(),
                spec_lookup(m.skip(i as int), topic@) == spec_lookup(m, topic@),
            decreases self.entries@.len() - i,
        {
            if str_eq(self.entries[i].0.as_str(), topic) {
                proof {
                    assert(m.skip(i as int)[0] == m[i as int]);
                    assert(spec_lookup(m.skip(i as int), topic@) == Some(m[i as int].1));
                }
                return self.entries[i].1.clone();
            }
            proof {
                assert(m.skip(i as int).drop_first() =~~= m.skip(i + 1));
                assert(m.skip(i as int)[0] == m[i as int]);
            }
            i = i + 1;
        }
        proof {
            assert(m.skip(self.entries@.len() as int) =~~= Seq::<(Seq<char>, Seq<char>)>::empty());
        }
        topic.to_owned()
    }
}

} // verus!
