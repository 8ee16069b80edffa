//! Item specifics: aspect names with their values, kept in the order of the names.

use crate::text::{chars_of, copy_strings, same_text, texts};
use vstd::prelude::*;

verus! {

/// `a` stands before `b` in dictionary order by character code.
pub open spec fn text_lt(a: Seq<char>, b: Seq<char>) -> bool
    decreases a.len(),
{
    if b.len() == 0 {
        false
    } else if a.len() == 0 {
        true
    } else if a[0] != b[0] {
        a[0] < b[0]
    } else {
        text_lt(a.drop_first(), b.drop_first())
    }
}

/// Dictionary order is transitive.
pub proof fn lemma_text_lt_transitive(a: Seq<char>, b: Seq<char>, c: Seq<char>)
    requires
        text_lt(a, b),
        text_lt(b, c),
    ensures
        text_lt(a, c),
    decreases a.len(),
{
    if a.len() > 0 && a[0] == b[0] && b[0] == c[0] {
        lemma_text_lt_transitive(a.drop_first(), b.drop_first(), c.drop_first());
    }
}

/// Of two different texts exactly one stands before the other, and no text stands before itself.
pub proof fn lemma_text_lt_total(a: Seq<char>, b: Seq<char>)
    ensures
        a == b ==> !text_lt(a, b) && !text_lt(b, a),
        a != b ==> (text_lt(a, b) <==> !text_lt(b, a)),
    decreases a.len(),
{
    if a.len() > 0 && b.len() > 0 && a[0] == b[0] {
        lemma_text_lt_total(a.drop_first(), b.drop_first());
        if a.drop_first() == b.drop_first() {
            assert(a =~= seq![a[0]] + a.drop_first());
            assert(b =~= seq![b[0]] + b.drop_first());
        }
    } else if a.len() == 0 && b.len() == 0 {
        assert(a =~= b);
    }
}

/// Whether `a` stands before `b` in dictionary order by character code.
pub fn text_before(a: &str, b: &str) -> (r: bool)
    ensures
        r == text_lt(a@, b@),
{
    let x = chars_of(a);
    let y = chars_of(b);
    let mut i: usize = 0;
    assert(x@.subrange(0, x@.len() as int) =~= x@);
    assert(y@.subrange(0, y@.len() as int) =~= y@);
    while i < x.len() && i < y.len()
        invariant
            i <= x.len(),
            i <= y.len(),
            x@ == a@,
            y@ == b@,
            text_lt(x@, y@) == text_lt(
                x@.subrange(i as int, x@.len() as int),
                y@.subrange(i as int, y@.len() as int),
            ),
        decreases x.len() - i,
    {
        let ghost xs = x@.subrange(i as int, x@.len() as int);
        let ghost ys = y@.subrange(i as int, y@.len() as int);
        assert(xs[0] == x@[i as int] && ys[0] == y@[i as int]);
        if x[i] != y[i] {
            return x[i] < y[i];
        }
        assert(xs.drop_first() =~= x@.subrange(i + 1, x@.len() as int));
        assert(ys.drop_first() =~= y@.subrange(i + 1, y@.len() as int));
        i += 1;
    }
    i < y.len()
}

/// One aspect of a listing: its name and its values.
#[derive(Debug)]
pub struct AspectEntry {
    pub name: String,
    pub values: Vec<String>,
}

/// Aspect names with their values. No name occurs twice, and the entries
/// stand in dictionary order of their names.
#[derive(Debug)]
pub struct AspectMap {
    entries: Vec<AspectEntry>,
}

/// The names of `entries` increase strictly.
pub open spec fn names_increase(entries: Seq<(Seq<char>, Seq<Seq<char>>)>) -> bool {
    forall|i: int, j: int|
        0 <= i < j < entries.len() ==> text_lt(#[trigger] entries[i].0, #[trigger] entries[j].0)
}

/// The values under `name`, when an entry has that name.
pub open spec fn lookup(entries: Seq<(Seq<char>, Seq<Seq<char>>)>, name: Seq<char>) -> Option<
    Seq<Seq<char>>,
>
    decreases entries.len(),
{
    if entries.len() == 0 {
        None
    } else if entries.last().0 == name {
        Some(entries.last().1)
    } else {
        lookup(entries.drop_last(), name)
    }
}

/// An entry is found under its name exactly when some position holds it.
pub proof fn lemma_lookup(entries: Seq<(Seq<char>, Seq<Seq<char>>)>, name: Seq<char>)
    ensures
        lookup(entries, name) is Some <==> exists|i: int|
            0 <= i < entries.len() && #[trigger] entries[i].0 == name,
        names_increase(entries) ==> forall|i: int|
            0 <= i < entries.len() && #[trigger] entries[i].0 == name ==> lookup(entries, name)
                == Some(entries[i].1),
    decreases entries.len(),
{
    if entries.len() > 0 {
        let rest = entries.drop_last();
        lemma_lookup(rest, name);
        let n = entries.len() - 1;
        if entries.last().0 == name {
            assert(entries[n].0 == name);
            if names_increase(entries) {
                assert forall|i: int| 0 <= i < entries.len() && #[trigger] entries[i].0
                    == name implies lookup(entries, name) == Some(entries[i].1) by {
                    if i < n {
                        assert(text_lt(entries[i].0, entries[n].0));
                        lemma_text_lt_total(entries[i].0, entries[n].0);
                    }
                }
            }
        } else {
            if lookup(rest, name) is Some {
                let i = choose|i: int| 0 <= i < rest.len() && #[trigger] rest[i].0 == name;
                assert(entries[i].0 == name);
            }
            if exists|i: int| 0 <= i < entries.len() && #[trigger] entries[i].0 == name {
                let i = choose|i: int| 0 <= i < entries.len() && #[trigger] entries[i].0 == name;
                assert(rest[i].0 == name);
            }
            if names_increase(entries) {
                assert(names_increase(rest)) by {
                    assert forall|i: int, j: int| 0 <= i < j < rest.len() implies text_lt(
                        #[trigger] rest[i].0,
                        #[trigger] rest[j].0,
                    ) by {
                        assert(text_lt(entries[i].0, entries[j].0));
                    }
                }
                assert forall|i: int| 0 <= i < entries.len() && #[trigger] entries[i].0
                    == name implies lookup(entries, name) == Some(entries[i].1) by {
                    assert(rest[i].0 == name);
                }
            }
        }
    }
}

impl AspectMap {
    /// The entries as pairs of name and values, in their order.
    pub closed spec fn view(self) -> Seq<(Seq<char>, Seq<Seq<char>>)> {
        Seq::new(
            self.entries@.len(),
            |i: int| (self.entries@[i].name@, texts(self.entries@[i].values@)),
        )
    }

    #[verifier::type_invariant]
    spec fn ordered(self) -> bool {
        names_increase(self.view())
    }

    /// A map without entries.
    pub fn new() -> (out: AspectMap)
        ensures
            out@ == Seq::<(Seq<char>, Seq<Seq<char>>)>::empty(),
    {
        let out = AspectMap { entries: Vec::new() };
        assert(out@ =~= Seq::empty());
        out
    }

    /// The number of entries. The names of the entries increase strictly.
    pub fn len(&self) -> (n: usize)
        ensures
            n == self@.len(),
            names_increase(self@),
    {
        proof {
            use_type_invariant(self);
        }
        self.entries.len()
    }

    /// Whether the map has no entry.
    pub fn is_empty(&self) -> (r: bool)
        ensures
            r == (self@.len() == 0),
    {
        self.entries.len() == 0
    }

    /// The name of the entry at `index`.
    pub fn name_at(&self, index: usize) -> (out: &String)
        requires
            index < self@.len(),
        ensures
            out@ == self@[index as int].0,
    {
        &self.entries[index].name
    }

    /// The values of the entry at `index`.
    pub fn values_at(&self, index: usize) -> (out: &Vec<String>)
        requires
            index < self@.len(),
        ensures
            texts(out@) == self@[index as int].1,
    {
        &self.entries[index].values
    }

    /// The values under `name`, when an entry has that name.
    pub fn get(&self, name: &str) -> (out: Option<&Vec<String>>)
        ensures
            match out {
                Some(values) => lookup(self@, name@) == Some(texts(values@)),
                None => lookup(self@, name@) is None,
            },
    {
        let mut i: usize = 0;
        while i < self.entries.len()
            invariant
                i <= self.entries.len(),
                forall|k: int| 0 <= k < i ==> (#[trigger] self@[k]).0 != name@,
            decreases self.entries.len() - i,
        {
            if same_text(self.entries[i].name.as_str(), name) {
                proof {
                    use_type_invariant(self);
                    lemma_lookup(self@, name@);
                    assert(self@[i as int] == (name@, texts(self.entries@[i as int].values@)));
                    assert(self@[i as int].0 == name@);
                }
                return Some(&self.entries[i].values);
            }
            i += 1;
        }
        proof {
            lemma_lookup(self@, name@);
        }
        None
    }

    /// Puts `values` under `name`, in place of what stood under that name.
    pub fn insert(&mut self, name: String, values: Vec<String>)
        ensures
            forall|other: Seq<char>|
                #![trigger lookup(final(self)@, other)]
                lookup(final(self)@, other) == if other == name@ {
                    Some(texts(values@))
                } else {
                    lookup(old(self)@, other)
                },
            final(self)@.len() == if lookup(old(self)@, name@) is Some {
                old(self)@.len()
            } else {
                old(self)@.len() + 1
            },
    {
        proof {
            use_type_invariant(&*self);
        }
        let ghost before = self@;
        let ghost key = name@;
        let ghost vals = texts(values@);
        let mut at: usize = 0;
        while at < self.entries.len() && text_before(self.entries[at].name.as_str(), name.as_str())
            invariant
                at <= self.entries.len(),
                self@ == before,
                key == name@,
                forall|k: int| 0 <= k < at ==> text_lt((#[trigger] before[k]).0, key),
            decreases self.entries.len() - at,
        {
            assert(before[at as int].0 == self.entries@[at as int].name@);
            at += 1;
        }
        let replace = at < self.entries.len() && same_text(
            self.entries[at].name.as_str(),
            name.as_str(),
        );
        proof {
            if at < before.len() {
                assert(before[at as int].0 == self.entries@[at as int].name@);
                lemma_text_lt_total(before[at as int].0, key);
            }
        }
        let mut fresh: Vec<AspectEntry> = Vec::new();
        let mut i: usize = 0;
        while i < at
            invariant
                i <= at <= self.entries.len(),
                self@ == before,
                fresh@.len() == i,
                forall|k: int|
                    0 <= k < i ==> (#[trigger] fresh@[k]).name@ == before[k].0 && texts(
                        fresh@[k].values@,
                    ) == before[k].1,
            decreases at - i,
        {
            let e = &self.entries[i];
            assert(before[i as int] == (e.name@, texts(e.values@)));
            fresh.push(AspectEntry { name: e.name.clone(), values: copy_strings(&e.values) });
            i += 1;
        }
        fresh.push(AspectEntry { name, values });
        let skip: usize = if replace {
            1
        } else {
            0
        };
        let mut j: usize = at + skip;
        while j < self.entries.len()
            invariant
                at + skip <= j <= self.entries.len(),
                self@ == before,
                fresh@.len() == j - skip + 1,
                fresh@[at as int].name@ == key,
                texts(fresh@[at as int].values@) == vals,
                forall|k: int|
                    0 <= k < at ==> (#[trigger] fresh@[k]).name@ == before[k].0 && texts(
                        fresh@[k].values@,
                    ) == before[k].1,
                forall|k: int|
                    at < k < fresh@.len() ==> (#[trigger] fresh@[k]).name@ == before[k - 1
                        + skip].0 && texts(fresh@[k].values@) == before[k - 1 + skip].1,
            decreases self.entries.len() - j,
        {
            let e = &self.entries[j];
            assert(before[j as int] == (e.name@, texts(e.values@)));
            fresh.push(AspectEntry { name: e.name.clone(), values: copy_strings(&e.values) });
            j += 1;
        }
        let ghost after = Seq::new(
            fresh@.len(),
            |i: int| (fresh@[i].name@, texts(fresh@[i].values@)),
        );
        proof {
            let hit = (key, vals);
            if replace {
                assert(after =~= before.update(at as int, hit));
            } else {
                assert(after =~= before.take(at as int).push(hit) + before.skip(at as int));
            }
            assert forall|i: int, j: int| 0 <= i < j < after.len() implies text_lt(
                #[trigger] after[i].0,
                #[trigger] after[j].0,
            ) by {
                let shift = if replace {
                    0int
                } else {
                    1int
                };
                if j == at {
                    assert(text_lt(before[i].0, key));
                } else if i == at {
                    if replace {
                        assert(text_lt(before[at as int].0, before[j].0));
                    } else {
                        assert(text_lt(key, before[at as int].0));
                        if j - 1 > at {
                            assert(text_lt(before[at as int].0, before[j - 1].0));
                            lemma_text_lt_transitive(key, before[at as int].0, before[j - 1].0);
                        }
                    }
                } else {
                    let bi = if i < at {
                        i
                    } else {
                        i - shift
                    };
                    let bj = if j < at {
                        j
                    } else {
                        j - shift
                    };
                    assert(text_lt(before[bi].0, before[bj].0));
                }
            }
            assert forall|other: Seq<char>| #![trigger lookup(after, other)]
                lookup(after, other) == if other == key {
                    Some(vals)
                } else {
                    lookup(before, other)
                } by {
                lemma_lookup(after, other);
                lemma_lookup(before, other);
                if other == key {
                    assert(after[at as int].0 == key);
                } else {
                    if lookup(before, other) is Some {
                        let i = choose|i: int|
                            0 <= i < before.len() && #[trigger] before[i].0 == other;
                        let ai = if replace || i < at {
                            i
                        } else {
                            i + 1
                        };
                        assert(after[ai].0 == other && after[ai].1 == before[i].1);
                    }
                    if lookup(after, other) is Some {
                        let i = choose|i: int|
                            0 <= i < after.len() && #[trigger] after[i].0 == other;
                        let bi = if replace || i < at {
                            i
                        } else {
                            i - 1
                        };
                        assert(before[bi].0 == other && after[i].1 == before[bi].1);
                    }
                }
            }
            lemma_lookup(before, key);
            if lookup(before, key) is Some {
                let i = choose|i: int| 0 <= i < before.len() && #[trigger] before[i].0 == key;
                if i < at {
                    assert(text_lt(before[i].0, key));
                    lemma_text_lt_total(before[i].0, key);
                } else if i > at {
                    assert(text_lt(before[at as int].0, before[i].0));
                    lemma_text_lt_total(before[at as int].0, key);
                }
            }
        }
        self.entries = fresh;
        assert(self@ =~= after);
    }

    /// A copy of the map.
    pub fn copy(&self) -> (out: AspectMap)
        ensures
            out@ == self@,
    {
        proof {
            use_type_invariant(self);
        }
        let mut entries: Vec<AspectEntry> = Vec::new();
        let mut i: usize = 0;
        while i < self.entries.len()
            invariant
                i <= self.entries.len(),
                entries@.len() == i,
                forall|k: int|
                    0 <= k < i ==> (#[trigger] entries@[k]).name@ == self.entries@[k].name@
                        && texts(entries@[k].values@) == texts(self.entries@[k].values@),
            decreases self.entries.len() - i,
        {
            let e = &self.entries[i];
            entries.push(AspectEntry { name: e.name.clone(), values: copy_strings(&e.values) });
            i += 1;
        }
        let ghost v = Seq::new(
            entries@.len(),
            |i: int| (entries@[i].name@, texts(entries@[i].values@)),
        );
        assert(v =~= self@);
        AspectMap { entries }
    }
}

} // verus!
