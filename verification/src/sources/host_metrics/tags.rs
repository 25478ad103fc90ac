//! The tags of a metric.

use vstd::prelude::*;

verus! {

/// The tags of a metric: a value for each tag that is set.
#[derive(Debug)]
pub struct MetricTags {
    entries: Vec<(String, String)>,
}

/// No two entries have the same name.
spec fn names_differ(entries: Seq<(String, String)>) -> bool {
    forall|i: int, j: int|
        0 <= i < j < entries.len() ==> (#[trigger] entries[i]).0@ != (#[trigger] entries[j]).0@
}

/// What the entries say, later ones over earlier ones.
spec fn contents(entries: Seq<(String, String)>) -> Map<Seq<char>, Seq<char>>
    decreases entries.len(),
{
    if entries.len() == 0 {
        Map::empty()
    } else {
        contents(entries.drop_last()).insert(entries.last().0@, entries.last().1@)
    }
}

proof fn lemma_contents(entries: Seq<(String, String)>)
    requires
        names_differ(entries),
    ensures
        forall|i: int|
            0 <= i < entries.len() ==> contents(entries).contains_pair(
                (#[trigger] entries[i]).0@,
                entries[i].1@,
            ),
        forall|name: Seq<char>| #[trigger]
            contents(entries).contains_key(name) ==> exists|i: int|
                0 <= i < entries.len() && (#[trigger] entries[i]).0@ == name,
    decreases entries.len(),
{
    if entries.len() > 0 {
        let rest = entries.drop_last();
        lemma_contents(rest);
        assert forall|i: int| 0 <= i < entries.len() implies contents(entries).contains_pair(
            (#[trigger] entries[i]).0@,
            entries[i].1@,
        ) by {
            if i < rest.len() {
                assert(rest[i] == entries[i]);
            }
        }
        assert forall|name: Seq<char>| #[trigger] contents(entries).contains_key(name) implies exists|
            i: int,
        | 0 <= i < entries.len() && (#[trigger] entries[i]).0@ == name by {
            if name != entries.last().0@ {
                assert(contents(rest).contains_key(name));
                let i = choose|i: int| 0 <= i < rest.len() && (#[trigger] rest[i]).0@ == name;
                assert(entries[i] == rest[i]);
            } else {
                assert(entries[entries.len() - 1].0@ == name);
            }
        }
    }
}

impl View for MetricTags {
    type V = Map<Seq<char>, Seq<char>>;

    closed spec fn view(&self) -> Map<Seq<char>, Seq<char>> {
        contents(self.entries@)
    }
}

impl MetricTags {
    #[verifier::type_invariant]
    spec fn well_formed(self) -> bool {
        names_differ(self.entries@)
    }

    /// No tags.
    pub fn new() -> (tags: MetricTags)
        ensures
            tags@ == Map::<Seq<char>, Seq<char>>::empty(),
    {
        MetricTags { entries: Vec::new() }
    }

    /// Where the tag `name` stands, if it is set.
    fn position(&self, name: &str) -> (at: Option<usize>)
        ensures
            match at {
                Some(i) => i < self.entries@.len() && self.entries@[i as int].0@ == name@,
                None => forall|i: int|
                    0 <= i < self.entries@.len() ==> (#[trigger] self.entries@[i]).0@ != name@,
            },
    {
        let wanted: String = name.to_owned();
        let mut i: usize = 0;
        while i < self.entries.len()
            invariant
                i <= self.entries@.len(),
                wanted@ == name@,
                forall|j: int| 0 <= j < i ==> (#[trigger] self.entries@[j]).0@ != name@,
            decreases self.entries@.len() - i,
        {
            if self.entries[i].0 == wanted {
                return Some(i);
            }
            i = i + 1;
        }
        None
    }

    /// The value of the tag `name`, if it is set.
    pub fn get(&self, name: &str) -> (value: Option<&str>)
        ensures
            match value {
                Some(v) => self@.contains_pair(name@, v@),
                None => !self@.contains_key(name@),
            },
    {
        proof {
            use_type_invariant(&*self);
            lemma_contents(self.entries@);
        }
        match self.position(name) {
            Some(i) => Some(self.entries[i].1.as_str()),
            None => None,
        }
    }

    /// Whether the tag `name` is set.
    pub fn contains_key(&self, name: &str) -> (set: bool)
        ensures
            set == self@.contains_key(name@),
    {
        self.get(name).is_some()
    }

    /// Sets the tag `name`, over the value that it may have had.
    pub fn replace(&mut self, name: &str, value: String)
        ensures
            final(self)@ == old(self)@.insert(name@, value@),
    {
        proof {
            use_type_invariant(&*self);
            lemma_contents(self.entries@);
        }
        let at: Option<usize> = self.position(name);
        let mut entries: Vec<(String, String)> = Vec::new();
        std::mem::swap(&mut entries, &mut self.entries);
        let ghost before = entries@;
        match at {
            Some(i) => {
                entries.set(i, (name.to_owned(), value));
            },
            None => {
                entries.push((name.to_owned(), value));
            },
        }
        proof {
            lemma_contents(entries@);
            let was = contents(before).insert(name@, value@);
            assert forall|key: Seq<char>| contents(entries@).contains_key(key) <==> was.contains_key(
                key,
            ) by {
                if contents(entries@).contains_key(key) {
                    let i = choose|i: int|
                        0 <= i < entries@.len() && (#[trigger] entries@[i]).0@ == key;
                    if key != name@ {
                        assert(before[i] == entries@[i]);
                    }
                }
                if contents(before).contains_key(key) {
                    let i = choose|i: int|
                        0 <= i < before.len() && (#[trigger] before[i]).0@ == key;
                    assert(entries@[i].0@ == key);
                }
                if key == name@ {
                    match at {
                        Some(i) => assert(entries@[i as int].0@ == key),
                        None => assert(entries@[before.len() as int].0@ == key),
                    }
                }
            }
            assert forall|key: Seq<char>| contents(entries@).contains_key(key) implies contents(
                entries@,
            )[key] == was[key] by {
                let i = choose|i: int|
                    0 <= i < entries@.len() && (#[trigger] entries@[i]).0@ == key;
                if key != name@ {
                    assert(before[i] == entries@[i]);
                    assert(contents(before).contains_pair(before[i].0@, before[i].1@));
                }
            }
            assert(contents(entries@) =~= was);
        }
        self.entries = entries;
    }

    /// The tags as name and value pairs, each name once.
    pub fn pairs(&self) -> (pairs: &Vec<(String, String)>)
        ensures
            forall|i: int|
                0 <= i < pairs@.len() ==> self@.contains_pair(
                    (#[trigger] pairs@[i]).0@,
                    pairs@[i].1@,
                ),
            forall|name: Seq<char>| #[trigger]
                self@.contains_key(name) ==> exists|i: int|
                    0 <= i < pairs@.len() && (#[trigger] pairs@[i]).0@ == name,
            forall|i: int, j: int|
                0 <= i < j < pairs@.len() ==> (#[trigger] pairs@[i]).0@ != (#[trigger] pairs@[j]).0@,
    {
        proof {
            use_type_invariant(&*self);
            lemma_contents(self.entries@);
        }
        &self.entries
    }
}

impl Clone for MetricTags {
    fn clone(&self) -> (copy: MetricTags)
        ensures
            copy@ == self@,
    {
        proof {
            use_type_invariant(&*self);
        }
        let mut entries: Vec<(String, String)> = Vec::new();
        let mut i: usize = 0;
        while i < self.entries.len()
            invariant
                i <= self.entries@.len(),
                entries@ =~= self.entries@.take(i as int),
            decreases self.entries@.len() - i,
        {
            entries.push((self.entries[i].0.clone(), self.entries[i].1.clone()));
            i = i + 1;
        }
        assert(entries@ =~= self.entries@);
        MetricTags { entries }
    }
}

/// The tags that are set are those of the entries, each with its value.
proof fn lemma_view_is_whole(tags: MetricTags, name: Seq<char>, value: Seq<char>)
    requires
        names_differ(tags.entries@),
    ensures
        tags@.contains_pair(name, value) <==> exists|i: int|
            {
                &&& 0 <= i < tags.entries@.len()
                &&& (#[trigger] tags.entries@[i]).0@ == name
                &&& tags.entries@[i].1@ == value
            },
{
    lemma_contents(tags.entries@);
    if tags@.contains_pair(name, value) {
        assert(contents(tags.entries@).contains_key(name));
        let i = choose|i: int|
            0 <= i < tags.entries@.len() && (#[trigger] tags.entries@[i]).0@ == name;
        assert(contents(tags.entries@).contains_pair(tags.entries@[i].0@, tags.entries@[i].1@));
    }
}

}
