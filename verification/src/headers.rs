//! The header table: names mapped to values, case preserved, the last
//! write to a name winning. Both the per-request response headers and the
//! trailing metadata are tables of this kind.

use vstd::prelude::*;
use vstd::string::*;

verus! {

/// The mapping that a sequence of name/value pairs denotes: each pair is
/// entered in turn, a later pair overriding an earlier one of the same name.
pub open spec fn as_map(entries: Seq<(Seq<char>, Seq<char>)>) -> Map<Seq<char>, Seq<char>>
    decreases entries.len(),
{
    if entries.len() == 0 {
        Map::empty()
    } else {
        as_map(entries.drop_last()).insert(entries.last().0, entries.last().1)
    }
}

/// No two pairs carry the same name.
pub open spec fn distinct_names(entries: Seq<(Seq<char>, Seq<char>)>) -> bool {
    forall|i: int, j: int| 0 <= i < j < entries.len() ==> entries[i].0 != entries[j].0
}

/// A name is in the denoted mapping exactly when some pair carries it.
pub proof fn lemma_as_map_contains(entries: Seq<(Seq<char>, Seq<char>)>, name: Seq<char>)
    ensures
        as_map(entries).contains_key(name) <==> exists|i: int|
            0 <= i < entries.len() && entries[i].0 == name,
    decreases entries.len(),
{
    if entries.len() > 0 {
        lemma_as_map_contains(entries.drop_last(), name);
        if entries.last().0 == name {
            assert(entries[entries.len() - 1].0 == name);
        } else if as_map(entries).contains_key(name) {
            let i = choose|i: int|
                0 <= i < entries.drop_last().len() && entries.drop_last()[i].0 == name;
            assert(entries[i].0 == name);
        } else {
            assert(forall|i: int|
                0 <= i < entries.len() - 1 ==> entries[i].0 == entries.drop_last()[i].0);
        }
    }
}

/// With distinct names, the pair at `i` is what the mapping holds for its name.
pub proof fn lemma_as_map_index(entries: Seq<(Seq<char>, Seq<char>)>, i: int)
    requires
        distinct_names(entries),
        0 <= i < entries.len(),
    ensures
        as_map(entries).contains_key(entries[i].0),
        as_map(entries)[entries[i].0] == entries[i].1,
    decreases entries.len(),
{
    if i == entries.len() - 1 {
    } else {
        assert(forall|x: int, y: int|
            0 <= x < y < entries.drop_last().len() ==> entries.drop_last()[x].0
                != entries.drop_last()[y].0);
        lemma_as_map_index(entries.drop_last(), i);
        assert(entries.last().0 != entries[i].0);
    }
}

/// Replacing the pair at `i` by one with the same name re-points that name
/// in the denoted mapping and nothing else.
pub proof fn lemma_as_map_update(
    entries: Seq<(Seq<char>, Seq<char>)>,
    i: int,
    p: (Seq<char>, Seq<char>),
)
    requires
        distinct_names(entries),
        0 <= i < entries.len(),
        entries[i].0 == p.0,
    ensures
        as_map(entries.update(i, p)) == as_map(entries).insert(p.0, p.1),
        distinct_names(entries.update(i, p)),
    decreases entries.len(),
{
    let u = entries.update(i, p);
    assert(distinct_names(u));
    if i == entries.len() - 1 {
        assert(u.drop_last() =~= entries.drop_last());
        assert(u.last() == p);
        assert(as_map(entries.drop_last()).insert(entries.last().0, entries.last().1).insert(
            p.0,
            p.1,
        ) =~= as_map(entries.drop_last()).insert(p.0, p.1));
    } else {
        assert(forall|x: int, y: int|
            0 <= x < y < entries.drop_last().len() ==> entries.drop_last()[x].0
                != entries.drop_last()[y].0);
        lemma_as_map_update(entries.drop_last(), i, p);
        assert(u.drop_last() =~= entries.drop_last().update(i, p));
        assert(u.last() == entries.last());
        assert(entries.last().0 != p.0);
        assert(as_map(entries.drop_last()).insert(p.0, p.1).insert(
            entries.last().0,
            entries.last().1,
        ) =~= as_map(entries.drop_last()).insert(entries.last().0, entries.last().1).insert(
            p.0,
            p.1,
        ));
    }
}

/// Appending a pair with a fresh name enters that name, and keeps the
/// names distinct.
pub proof fn lemma_as_map_push(entries: Seq<(Seq<char>, Seq<char>)>, p: (Seq<char>, Seq<char>))
    requires
        distinct_names(entries),
        forall|i: int| 0 <= i < entries.len() ==> entries[i].0 != p.0,
    ensures
        as_map(entries.push(p)) == as_map(entries).insert(p.0, p.1),
        distinct_names(entries.push(p)),
{
    assert(entries.push(p).drop_last() =~= entries);
    assert(entries.push(p).last() == p);
}

/// Dropping the pair at `i` removes its name from the denoted mapping
/// and nothing else.
pub proof fn lemma_as_map_remove(entries: Seq<(Seq<char>, Seq<char>)>, i: int)
    requires
        distinct_names(entries),
        0 <= i < entries.len(),
    ensures
        as_map(entries.remove(i)) == as_map(entries).remove(entries[i].0),
        distinct_names(entries.remove(i)),
    decreases entries.len(),
{
    let r = entries.remove(i);
    assert(distinct_names(r));
    if i == entries.len() - 1 {
        assert(r =~= entries.drop_last());
        lemma_as_map_contains(entries.drop_last(), entries.last().0);
        assert(!as_map(entries.drop_last()).contains_key(entries.last().0));
        assert(as_map(entries.drop_last()).insert(entries.last().0, entries.last().1).remove(
            entries.last().0,
        ) =~= as_map(entries.drop_last()));
    } else {
        assert(forall|x: int, y: int|
            0 <= x < y < entries.drop_last().len() ==> entries.drop_last()[x].0
                != entries.drop_last()[y].0);
        lemma_as_map_remove(entries.drop_last(), i);
        assert(r.drop_last() =~= entries.drop_last().remove(i));
        assert(r.last() == entries.last());
        assert(entries.last().0 != entries[i].0);
        assert(as_map(entries.drop_last()).remove(entries[i].0).insert(
            entries.last().0,
            entries.last().1,
        ) =~= as_map(entries.drop_last()).insert(entries.last().0, entries.last().1).remove(
            entries[i].0,
        ));
    }
}

/// A header table: name/value pairs. Internally each name is held at
/// most once, so the table denotes a mapping.
pub struct Headers {
    entries: Vec<(String, String)>,
}

impl View for Headers {
    type V = Map<Seq<char>, Seq<char>>;

    closed spec fn view(&self) -> Map<Seq<char>, Seq<char>> {
        as_map(self.entries.deep_view())
    }
}

impl Headers {
    /// The internal table holds each name at most once.
    pub closed spec fn wf(&self) -> bool {
        distinct_names(self.entries.deep_view())
    }

    /// An empty table.
    pub fn new() -> (r: Headers)
        ensures
            r@ == Map::<Seq<char>, Seq<char>>::empty(),
            r.wf(),
    {
        Headers { entries: Vec::new() }
    }

    /// Enters `value` under `name`, overriding any earlier value.
    pub fn set(&mut self, name: &str, value: &str)
        requires
            old(self).wf(),
        ensures
            final(self).wf(),
            final(self)@ == old(self)@.insert(name@, value@),
    {
        let n = String::from_str(name);
        let v = String::from_str(value);
        let ghost dv = self.entries.deep_view();
        let mut i: usize = 0;
        while i < self.entries.len()
            invariant
                self.entries.deep_view() == dv,
                distinct_names(dv),
                as_map(dv) == old(self)@,
                i <= dv.len(),
                dv.len() == self.entries.len(),
                forall|j: int| 0 <= j < i ==> dv[j].0 != name@,
                n@ == name@,
                v@ == value@,
            decreases dv.len() - i,
        {
            if self.entries[i].0 == n {
                proof {
                    lemma_as_map_update(dv, i as int, (name@, value@));
                }
                self.entries.set(i, (n, v));
                proof {
                    assert(self.entries.deep_view() =~= dv.update(i as int, (name@, value@)));
                }
                return ;
            }
            i = i + 1;
        }
        proof {
            lemma_as_map_push(dv, (name@, value@));
        }
        self.entries.push((n, v));
        proof {
            assert(self.entries.deep_view() =~= dv.push((name@, value@)));
        }
    }

    /// Takes the name out of the table, if it was there.
    pub fn remove(&mut self, name: &str)
        requires
            old(self).wf(),
        ensures
            final(self).wf(),
            final(self)@ == old(self)@.remove(name@),
    {
        let n = String::from_str(name);
        let ghost dv = self.entries.deep_view();
        let mut i: usize = 0;
        while i < self.entries.len()
            invariant
                self.entries.deep_view() == dv,
                distinct_names(dv),
                as_map(dv) == old(self)@,
                i <= dv.len(),
                dv.len() == self.entries.len(),
                forall|j: int| 0 <= j < i ==> dv[j].0 != name@,
                n@ == name@,
            decreases dv.len() - i,
        {
            if self.entries[i].0 == n {
                proof {
                    lemma_as_map_remove(dv, i as int);
                }
                let _ = self.entries.remove(i);
                proof {
                    assert(self.entries.deep_view() =~= dv.remove(i as int));
                }
                return ;
            }
            i = i + 1;
        }
        proof {
            lemma_as_map_contains(dv, name@);
            assert(as_map(dv).remove(name@) =~= as_map(dv));
        }
    }

    /// The value entered under `name`, if any.
    pub fn get(&self, name: &str) -> (r: Option<&String>)
        requires
            self.wf(),
        ensures
            match r {
                Some(v) => self@.contains_key(name@) && v@ == self@[name@],
                None => !self@.contains_key(name@),
            },
    {
        let n = String::from_str(name);
        let ghost dv = self.entries.deep_view();
        let mut i: usize = 0;
        while i < self.entries.len()
            invariant
                self.wf(),
                self.entries.deep_view() == dv,
                i <= dv.len(),
                dv.len() == self.entries.len(),
                forall|j: int| 0 <= j < i ==> dv[j].0 != name@,
                n@ == name@,
            decreases dv.len() - i,
        {
            if self.entries[i].0 == n {
                proof {
                    lemma_as_map_index(dv, i as int);
                }
                return Some(&self.entries[i].1);
            }
            i = i + 1;
        }
        proof {
            lemma_as_map_contains(dv, name@);
        }
        None
    }

    /// The pairs themselves, for a caller that walks the table.
    pub fn entries(&self) -> (r: &Vec<(String, String)>)
        ensures
            as_map(r.deep_view()) == self@,
            self.wf() ==> distinct_names(r.deep_view()),
    {
        &self.entries
    }

    /// An equal table, pair by pair.
    pub fn duplicate(&self) -> (r: Headers)
        ensures
            r@ == self@,
            self.wf() ==> r.wf(),
    {
        let ghost dv = self.entries.deep_view();
        let mut out: Vec<(String, String)> = Vec::new();
        let mut i: usize = 0;
        while i < self.entries.len()
            invariant
                self.entries.deep_view() == dv,
                i <= dv.len(),
                dv.len() == self.entries.len(),
                out.deep_view() == dv.subrange(0, i as int),
            decreases dv.len() - i,
        {
            let name = self.entries[i].0.clone();
            let value = self.entries[i].1.clone();
            out.push((name, value));
            proof {
                assert(out.deep_view() =~= dv.subrange(0, i as int).push(dv[i as int]));
                assert(dv.subrange(0, i + 1) =~= dv.subrange(0, i as int).push(dv[i as int]));
            }
            i = i + 1;
        }
        proof {
            assert(dv.subrange(0, dv.len() as int) =~= dv);
        }
        Headers { entries: out }
    }
}

} // verus!
