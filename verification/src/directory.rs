//! Texts kept by name: the connection strings of a wallet, or the subscriptions behind them.
use crate::text::same_text;
use vstd::prelude::*;

verus! {

/// The map that a list of names and texts stands for; of two entries with one name the later
/// counts.
pub open spec fn entries_map(entries: Seq<(String, String)>) -> Map<Seq<char>, Seq<char>>
    decreases entries.len(),
{
    if entries.len() == 0 {
        Map::empty()
    } else {
        entries_map(entries.drop_last()).insert(entries.last().0@, entries.last().1@)
    }
}

/// Whether no name stands twice in a list.
pub open spec fn names_distinct(entries: Seq<(String, String)>) -> bool {
    forall|i: int, j: int|
        0 <= i < j < entries.len() ==> (#[trigger] entries[i]).0@ != (#[trigger] entries[j]).0@
}

proof fn lemma_entries_map_domain(entries: Seq<(String, String)>, name: Seq<char>)
    ensures
        entries_map(entries).dom().contains(name) <==> exists|i: int|
            0 <= i < entries.len() && (#[trigger] entries[i]).0@ == name,
    decreases entries.len(),
{
    if entries.len() > 0 {
        let front = entries.drop_last();
        lemma_entries_map_domain(front, name);
        if exists|i: int| 0 <= i < front.len() && (#[trigger] front[i]).0@ == name {
            let i = choose|i: int| 0 <= i < front.len() && (#[trigger] front[i]).0@ == name;
            assert(entries[i].0@ == name);
        }
        if exists|i: int| 0 <= i < entries.len() && (#[trigger] entries[i]).0@ == name {
            let i = choose|i: int| 0 <= i < entries.len() && (#[trigger] entries[i]).0@ == name;
            if i < front.len() {
                assert(front[i].0@ == name);
            }
        }
    }
}

proof fn lemma_entries_map_value(entries: Seq<(String, String)>, i: int)
    requires
        names_distinct(entries),
        0 <= i < entries.len(),
    ensures
        entries_map(entries).dom().contains(entries[i].0@),
        entries_map(entries)[entries[i].0@] == entries[i].1@,
    decreases entries.len(),
{
    let front = entries.drop_last();
    if i < front.len() {
        assert forall|a: int, b: int| 0 <= a < b < front.len() implies (#[trigger] front[a]).0@ != (
        #[trigger] front[b]).0@ by {
            assert(entries[a].0@ != entries[b].0@);
        }
        lemma_entries_map_value(front, i);
        assert(front[i] == entries[i]);
        assert(entries[i].0@ != entries[entries.len() - 1].0@);
    }
}

/// A list of names and texts in which each name stands once.
pub struct Directory {
    entries: Vec<(String, String)>,
}

impl View for Directory {
    type V = Map<Seq<char>, Seq<char>>;

    closed spec fn view(&self) -> Map<Seq<char>, Seq<char>> {
        entries_map(self.entries@)
    }
}

impl Directory {
    #[verifier::type_invariant]
    spec fn well_formed(self) -> bool {
        names_distinct(self.entries@)
    }

    /// The empty directory.
    pub fn new() -> (r: Directory)
        ensures
            r@ == Map::<Seq<char>, Seq<char>>::empty(),
    {
        Directory { entries: Vec::new() }
    }

    /// Where the name stands in the list.
    fn position(&self, name: &str) -> (r: Option<usize>)
        ensures
            match r {
                Some(i) => i < self.entries@.len() && self.entries@[i as int].0@ == name@,
                None => !self@.dom().contains(name@),
            },
    {
        for i in 0..self.entries.len()
            invariant
                forall|j: int| 0 <= j < i ==> (#[trigger] self.entries@[j]).0@ != name@,
        {
            if same_text(self.entries[i].0.as_str(), name) {
                return Some(i);
            }
        }
        proof {
            lemma_entries_map_domain(self.entries@, name@);
        }
        None
    }

    /// The text under a name.
    pub fn get(&self, name: &str) -> (r: Option<String>)
        ensures
            match r {
                Some(text) => self@.dom().contains(name@) && self@[name@] == text@,
                None => !self@.dom().contains(name@),
            },
    {
        match self.position(name) {
            Some(i) => {
                proof {
                    use_type_invariant(self);
                    lemma_entries_map_value(self.entries@, i as int);
                }
                Some(self.entries[i].1.clone())
            },
            None => None,
        }
    }

    /// Takes a name and its text out of the directory.
    pub fn remove(&mut self, name: &str) -> (r: Option<String>)
        ensures
            final(self)@ == old(self)@.remove(name@),
            match r {
                Some(text) => old(self)@.dom().contains(name@) && old(self)@[name@] == text@,
                None => !old(self)@.dom().contains(name@),
            },
    {
        match self.position(name) {
            Some(i) => {
                let ghost before = self.entries@;
                proof {
                    use_type_invariant(&*self);
                    lemma_entries_map_value(before, i as int);
                }
                let text = self.entries[i].1.clone();
                let mut entries: Vec<(String, String)> = Vec::new();
                std::mem::swap(&mut entries, &mut self.entries);
                entries.remove(i);
                proof {
                    lemma_entries_map_remove(before, i as int);
                }
                self.entries = entries;
                Some(text)
            },
            None => {
                assert(self@.remove(name@) =~= self@);
                None
            },
        }
    }

    /// Puts a text under a name, in place of the one that stood there.
    pub fn set(&mut self, name: String, text: String)
        ensures
            final(self)@ == old(self)@.insert(name@, text@),
    {
        let ghost before = self@;
        let _ = self.remove(name.as_str());
        let ghost rest = self.entries@;
        proof {
            use_type_invariant(&*self);
            lemma_entries_map_domain(rest, name@);
        }
        let mut entries: Vec<(String, String)> = Vec::new();
        std::mem::swap(&mut entries, &mut self.entries);
        entries.push((name, text));
        proof {
            assert(entries@.drop_last() =~= rest);
            assert(before.remove(name@).insert(name@, text@) =~= before.insert(name@, text@));
        }
        self.entries = entries;
    }

    /// Fills a directory from a list; of two entries with one name the later counts.
    pub fn from_entries(list: &Vec<(String, String)>) -> (r: Directory)
        ensures
            r@ == entries_map(list@),
    {
        let mut directory = Directory::new();
        assert(list@.take(0) =~= Seq::<(String, String)>::empty());
        for i in 0..list.len()
            invariant
                directory@ == entries_map(list@.take(i as int)),
        {
            assert(list@.take(i + 1).drop_last() =~= list@.take(i as int));
            directory.set(list[i].0.clone(), list[i].1.clone());
        }
        assert(list@.take(list@.len() as int) =~= list@);
        directory
    }

    /// Lists the names and their texts.
    pub fn list(&self) -> (r: Vec<(String, String)>)
        ensures
            entries_map(r@) == self@,
            names_distinct(r@),
    {
        proof {
            use_type_invariant(self);
        }
        let mut list: Vec<(String, String)> = Vec::new();
        for i in 0..self.entries.len()
            invariant
                list@ == self.entries@.take(i as int),
        {
            list.push((self.entries[i].0.clone(), self.entries[i].1.clone()));
            assert(self.entries@.take(i + 1) =~= self.entries@.take(i as int).push(
                self.entries@[i as int],
            ));
        }
        assert(self.entries@.take(self.entries@.len() as int) =~= self.entries@);
        list
    }
}

proof fn lemma_entries_map_remove(entries: Seq<(String, String)>, i: int)
    requires
        names_distinct(entries),
        0 <= i < entries.len(),
    ensures
        entries_map(entries.remove(i)) == entries_map(entries).remove(entries[i].0@),
        names_distinct(entries.remove(i)),
{
    let rest = entries.remove(i);
    let name = entries[i].0@;
    assert forall|a: int, b: int| 0 <= a < b < rest.len() implies (#[trigger] rest[a]).0@ != (
    #[trigger] rest[b]).0@ by {
        let c = if a < i { a } else { a + 1 };
        let d = if b < i { b } else { b + 1 };
        assert(entries[c].0@ != entries[d].0@);
    }
    let left = entries_map(rest);
    let right = entries_map(entries).remove(name);
    assert forall|key: Seq<char>| #[trigger] left.dom().contains(key) <==> right.dom().contains(
        key,
    ) by {
        lemma_entries_map_domain(rest, key);
        lemma_entries_map_domain(entries, key);
        if left.dom().contains(key) {
            let a = choose|a: int| 0 <= a < rest.len() && (#[trigger] rest[a]).0@ == key;
            let c = if a < i { a } else { a + 1 };
            assert(entries[c].0@ == key);
            if c < i {
                assert(entries[c].0@ != entries[i].0@);
            } else {
                assert(entries[i].0@ != entries[c].0@);
            }
        }
        if right.dom().contains(key) {
            let c = choose|c: int| 0 <= c < entries.len() && (#[trigger] entries[c]).0@ == key;
            let a = if c < i { c } else { c - 1 };
            assert(rest[a].0@ == key);
        }
    }
    assert forall|key: Seq<char>| #[trigger] left.dom().contains(key) implies left[key]
        == right[key] by {
        lemma_entries_map_domain(rest, key);
        let a = choose|a: int| 0 <= a < rest.len() && (#[trigger] rest[a]).0@ == key;
        let c = if a < i { a } else { a + 1 };
        lemma_entries_map_value(rest, a);
        lemma_entries_map_value(entries, c);
        assert(entries[c] == rest[a]);
    }
    assert(left =~= right);
}

} // verus!
