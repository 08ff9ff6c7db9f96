//! A user's attributes as one flat mapping from name to text.

use vstd::prelude::*;

verus! {

/// No two entries share a name.
pub open spec fn distinct_names(entries: Seq<(Seq<char>, Seq<char>)>) -> bool {
    forall|i: int, j: int|
        0 <= i < j < entries.len() ==> (#[trigger] entries[i]).0 != (#[trigger] entries[j]).0
}

/// Index of the first entry called `name` at or after `from`, or the number
/// of entries where there is none.
pub open spec fn position(entries: Seq<(Seq<char>, Seq<char>)>, name: Seq<char>, from: int) -> int
    decreases entries.len() - from,
{
    if from < 0 || from >= entries.len() {
        entries.len() as int
    } else if entries[from].0 == name {
        from
    } else {
        position(entries, name, from + 1)
    }
}

/// The value of the last entry called `name`, if there is one.
pub open spec fn lookup(entries: Seq<(Seq<char>, Seq<char>)>, name: Seq<char>) -> Option<Seq<char>>
    decreases entries.len(),
{
    if entries.len() == 0 {
        None
    } else if entries.last().0 == name {
        Some(entries.last().1)
    } else {
        lookup(entries.drop_last(), name)
    }
}

/// `entries` with `name` set to `value`: an entry of that name takes the
/// value where it stands, a new name goes to the end.
pub open spec fn put(entries: Seq<(Seq<char>, Seq<char>)>, name: Seq<char>, value: Seq<char>) -> Seq<
    (Seq<char>, Seq<char>),
> {
    let at = position(entries, name, 0);
    if at < entries.len() {
        entries.update(at, (name, value))
    } else {
        entries.push((name, value))
    }
}

/// The mapping that `entries` stand for: each name with its value.
pub open spec fn as_map(entries: Seq<(Seq<char>, Seq<char>)>) -> Map<Seq<char>, Seq<char>> {
    Map::new(
        |name: Seq<char>| lookup(entries, name) is Some,
        |name: Seq<char>| lookup(entries, name)->0,
    )
}

/// [`position`] is the least index of an entry called `name` from `from` on.
pub proof fn lemma_position(entries: Seq<(Seq<char>, Seq<char>)>, name: Seq<char>, from: int)
    requires
        0 <= from <= entries.len(),
    ensures
        from <= position(entries, name, from) <= entries.len(),
        forall|k: int| from <= k < position(entries, name, from) ==> (#[trigger] entries[k]).0 != name,
        position(entries, name, from) < entries.len() ==> entries[position(entries, name, from)].0
            == name,
    decreases entries.len() - from,
{
    if from < entries.len() && entries[from].0 != name {
        lemma_position(entries, name, from + 1);
    }
}

/// Where no name occurs twice, [`lookup`] finds the one entry of a name.
pub proof fn lemma_lookup(entries: Seq<(Seq<char>, Seq<char>)>, name: Seq<char>)
    requires
        distinct_names(entries),
    ensures
        lookup(entries, name) is Some <==> position(entries, name, 0) < entries.len(),
        forall|i: int|
            0 <= i < entries.len() && (#[trigger] entries[i]).0 == name ==> lookup(entries, name)
                == Some(entries[i].1),
        lookup(entries, name) is None ==> forall|i: int|
            0 <= i < entries.len() ==> (#[trigger] entries[i]).0 != name,
    decreases entries.len(),
{
    lemma_position(entries, name, 0);
    if entries.len() > 0 {
        let front = entries.drop_last();
        lemma_lookup(front, name);
        lemma_position(front, name, 0);
        if entries.last().0 != name {
            assert forall|i: int| 0 <= i < entries.len() && (#[trigger] entries[i]).0
                == name implies lookup(entries, name) == Some(entries[i].1) by {
                assert(front[i] == entries[i]);
            }
        }
    }
}

/// Setting a name keeps names distinct, gives that name the value, and
/// leaves every other name as it was.
pub proof fn lemma_put(entries: Seq<(Seq<char>, Seq<char>)>, name: Seq<char>, value: Seq<char>)
    requires
        distinct_names(entries),
    ensures
        distinct_names(put(entries, name, value)),
        lookup(put(entries, name, value), name) == Some(value),
        forall|other: Seq<char>|
            other != name ==> lookup(put(entries, name, value), other) == lookup(entries, other),
        as_map(put(entries, name, value)) == as_map(entries).insert(name, value),
{
    let after = put(entries, name, value);
    let at = position(entries, name, 0);
    lemma_position(entries, name, 0);
    assert(distinct_names(after));
    assert(after[at] == (name, value));
    lemma_lookup(after, name);
    assert forall|other: Seq<char>| other != name implies lookup(after, other) == lookup(
        entries,
        other,
    ) by {
        lemma_lookup(after, other);
        lemma_lookup(entries, other);
        lemma_position(after, other, 0);
        lemma_position(entries, other, 0);
        if lookup(entries, other) is Some {
            let k = position(entries, other, 0);
            assert(after[k] == entries[k]);
        }
    }
}

/// Attribute names with their values. A name occurs once; entries keep the
/// order in which their names first came.
#[derive(Debug, PartialEq, Eq)]
pub struct NormalizedAttributes {
    entries: Vec<(String, String)>,
}

impl View for NormalizedAttributes {
    type V = Seq<(Seq<char>, Seq<char>)>;

    closed spec fn view(&self) -> Seq<(Seq<char>, Seq<char>)> {
        self.entries.deep_view()
    }
}

impl DeepView for NormalizedAttributes {
    type V = Seq<(Seq<char>, Seq<char>)>;

    open spec fn deep_view(&self) -> Seq<(Seq<char>, Seq<char>)> {
        self@
    }
}

impl NormalizedAttributes {
    #[verifier::type_invariant]
    spec fn names_are_distinct(&self) -> bool {
        distinct_names(self.entries.deep_view())
    }

    /// No attributes.
    pub fn new() -> (attributes: NormalizedAttributes)
        ensures
            attributes@ == Seq::<(Seq<char>, Seq<char>)>::empty(),
    {
        NormalizedAttributes { entries: Vec::new() }
    }

    /// Sets `name` to `value`, replacing the value that the name had.
    pub fn insert(&mut self, name: String, value: String)
        ensures
            final(self)@ == put(old(self)@, name@, value@),
    {
        proof {
            use_type_invariant(&*self);
            lemma_put(self@, name@, value@);
        }
        let ghost before = self@;
        let mut entries: Vec<(String, String)> = Vec::new();
        std::mem::swap(&mut self.entries, &mut entries);
        let mut at: usize = 0;
        while at < entries.len() && entries[at].0 != name
            invariant
                at <= entries.len(),
                entries.deep_view() == before,
                position(before, name@, 0) == position(before, name@, at as int),
            decreases entries.len() - at,
        {
            at = at + 1;
        }
        if at < entries.len() {
            entries.set(at, (name, value));
        } else {
            entries.push((name, value));
        }
        proof {
            assert(entries.deep_view() =~= put(before, name@, value@));
        }
        self.entries = entries;
    }

    /// The value of `name`, if the name is present.
    pub fn get(&self, name: &str) -> (value: Option<&String>)
        ensures
            value.deep_view() == lookup(self@, name@),
    {
        proof {
            use_type_invariant(self);
            lemma_lookup(self@, name@);
        }
        let wanted = name.to_owned();
        let mut at: usize = 0;
        while at < self.entries.len()
            invariant
                at <= self.entries.len(),
                wanted@ == name@,
                forall|k: int| 0 <= k < at ==> (#[trigger] self@[k]).0 != name@,
            decreases self.entries.len() - at,
        {
            if self.entries[at].0 == wanted {
                proof {
                    use_type_invariant(self);
                    lemma_lookup(self@, name@);
                    assert(self@[at as int] == self.entries@[at as int].deep_view());
                }
                return Some(&self.entries[at].1);
            }
            at = at + 1;
        }
        proof {
            lemma_position(self@, name@, 0);
        }
        None
    }

    /// A copy of the attributes.
    pub fn duplicate(&self) -> (copy: NormalizedAttributes)
        ensures
            copy@ == self@,
    {
        proof {
            use_type_invariant(self);
        }
        let mut entries: Vec<(String, String)> = Vec::new();
        let mut at: usize = 0;
        while at < self.entries.len()
            invariant
                at <= self.entries.len(),
                entries.len() == at,
                forall|k: int| 0 <= k < at ==> (#[trigger] entries[k]).deep_view() == self@[k],
            decreases self.entries.len() - at,
        {
            entries.push((self.entries[at].0.clone(), self.entries[at].1.clone()));
            at = at + 1;
        }
        NormalizedAttributes { entries }
    }

    /// The number of names.
    pub fn len(&self) -> (count: usize)
        ensures
            count == self@.len(),
    {
        self.entries.len()
    }

    /// The entries in order. No two share a name.
    pub fn entries(&self) -> (entries: &Vec<(String, String)>)
        ensures
            entries.deep_view() == self@,
            distinct_names(self@),
    {
        proof {
            use_type_invariant(self);
        }
        &self.entries
    }
}

} // verus!
