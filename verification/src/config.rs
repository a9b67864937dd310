//! The preset store: named sets of tables to leave out of a restore.
//!
//! The store keeps its presets in the order in which their names were first
//! saved, and no name twice.

use vstd::prelude::*;
use crate::text::{concat3, copy_texts, same_text};

verus! {

/// A set of tables to leave out of a restore.
#[derive(Debug, Clone, PartialEq, Eq)]
pub struct Preset {
    pub exclude_tables: Vec<String>,
}

impl View for Preset {
    type V = Seq<Seq<char>>;

    open spec fn view(&self) -> Seq<Seq<char>> {
        self.exclude_tables.deep_view()
    }
}

impl Preset {
    /// A preset with the same tables.
    pub fn duplicate(&self) -> (copy: Preset)
        ensures
            copy@ == self@,
    {
        Preset { exclude_tables: copy_texts(&self.exclude_tables) }
    }
}

/// A preset under its name.
#[derive(Debug, Clone, PartialEq, Eq)]
struct NamedPreset {
    name: String,
    preset: Preset,
}

/// The presets of the store, each under its name.
#[derive(Debug, PartialEq, Eq)]
pub struct RestoreConfig {
    entries: Vec<NamedPreset>,
}

impl View for RestoreConfig {
    type V = Map<Seq<char>, Seq<Seq<char>>>;

    closed spec fn view(&self) -> Map<Seq<char>, Seq<Seq<char>>> {
        Map::new(
            |name: Seq<char>| self.listed().contains(name),
            |name: Seq<char>| self.entries[self.listed().index_of(name)].preset@,
        )
    }
}

impl RestoreConfig {
    /// The names of the presets, in the order of the store.
    pub closed spec fn listed(&self) -> Seq<Seq<char>> {
        names_of(self.entries@)
    }

    #[verifier::type_invariant]
    spec fn wf(&self) -> bool {
        self.listed().no_duplicates()
    }

    /// A name stands at one place only, and the store holds under it the
    /// preset of that place.
    proof fn lemma_entry(&self, i: int)
        requires
            self.listed().no_duplicates(),
            0 <= i < self.entries.len(),
        ensures
            self@.contains_key(self.entries[i].name@),
            self@[self.entries[i].name@] == self.entries[i].preset@,
    {
        let names = self.listed();
        let name = self.entries[i].name@;
        assert(names[i] == name);
        let j = names.index_of(name);
        assert(names[j] == name);
    }

    /// A store without presets.
    pub fn new() -> (cfg: RestoreConfig)
        ensures
            cfg@ == Map::<Seq<char>, Seq<Seq<char>>>::empty(),
            cfg.listed() == Seq::<Seq<char>>::empty(),
    {
        let cfg = RestoreConfig { entries: Vec::new() };
        assert(cfg.listed() =~= Seq::<Seq<char>>::empty());
        assert(cfg@ =~= Map::<Seq<char>, Seq<Seq<char>>>::empty());
        cfg
    }

    /// The number of presets.
    pub fn len(&self) -> (n: usize)
        ensures
            n == self.listed().len(),
            n == self@.dom().len(),
            self@.dom().finite(),
    {
        proof {
            use_type_invariant(self);
            self.lemma_listed();
            self.listed().unique_seq_to_set();
        }
        self.entries.len()
    }

    /// The names in the order of the store are the names that the store
    /// holds a preset under.
    proof fn lemma_listed(&self)
        ensures
            self.listed().to_set() == self@.dom(),
    {
        assert(self.listed().to_set() =~= self@.dom());
    }

    /// Where the preset of that name stands.
    fn position(&self, name: &str) -> (at: Option<usize>)
        ensures
            match at {
                Some(i) => i < self.entries.len() && self.entries[i as int].name@ == name@,
                None => !self.listed().contains(name@),
            },
    {
        let mut i: usize = 0;
        while i < self.entries.len()
            invariant
                i <= self.entries.len(),
                forall|j: int| 0 <= j < i ==> (#[trigger] self.listed()[j]) != name@,
            decreases self.entries.len() - i,
        {
            if same_text(self.entries[i].name.as_str(), name) {
                return Some(i);
            }
            i = i + 1;
        }
        None
    }

    /// Whether the store holds a preset under that name.
    pub fn contains(&self, name: &str) -> (b: bool)
        ensures
            b == self@.contains_key(name@),
    {
        let at = self.position(name);
        proof {
            if let Some(i) = at {
                assert(self.listed()[i as int] == name@);
            }
        }
        at.is_some()
    }

    /// The preset under that name, if the store holds one.
    pub fn get(&self, name: &str) -> (found: Option<&Preset>)
        ensures
            match found {
                Some(preset) => self@.contains_key(name@) && preset@ == self@[name@],
                None => !self@.contains_key(name@),
            },
    {
        match self.position(name) {
            Some(i) => {
                proof {
                    use_type_invariant(self);
                    self.lemma_entry(i as int);
                }
                Some(&self.entries[i].preset)
            },
            None => None,
        }
    }

    /// The names of the presets, in the order of the store: each name that
    /// the store holds a preset under, once.
    pub fn names(&self) -> (names: Vec<String>)
        ensures
            names.deep_view() == self.listed(),
            names.deep_view().no_duplicates(),
            names.deep_view().to_set() == self@.dom(),
    {
        proof {
            use_type_invariant(self);
            self.lemma_listed();
        }
        let mut names: Vec<String> = Vec::new();
        let mut i: usize = 0;
        while i < self.entries.len()
            invariant
                i <= self.entries.len(),
                names.len() == i,
                forall|j: int| 0 <= j < i ==> (#[trigger] names[j])@ == self.entries[j].name@,
            decreases self.entries.len() - i,
        {
            names.push(self.entries[i].name.clone());
            i = i + 1;
        }
        assert(names.deep_view() =~= self.listed());
        names
    }

    /// Takes the entries out of the store, which holds none until they are
    /// put back.
    fn take_entries(&mut self) -> (entries: Vec<NamedPreset>)
        ensures
            entries == old(self).entries,
            final(self).entries@ == Seq::<NamedPreset>::empty(),
    {
        let mut entries: Vec<NamedPreset> = Vec::new();
        core::mem::swap(&mut self.entries, &mut entries);
        entries
    }

    /// Puts entries into the store, in place of those it holds.
    fn put_entries(&mut self, entries: Vec<NamedPreset>)
        requires
            names_of(entries@).no_duplicates(),
        ensures
            final(self).entries == entries,
    {
        let mut entries = entries;
        core::mem::swap(&mut self.entries, &mut entries);
    }

    /// Puts the preset under that name, in place of the one that the store
    /// held there, if any.
    pub fn insert(&mut self, name: String, preset: Preset)
        ensures
            final(self)@ == old(self)@.insert(name@, preset@),
            final(self).listed() == if old(self)@.contains_key(name@) {
                old(self).listed()
            } else {
                old(self).listed().push(name@)
            },
    {
        proof {
            use_type_invariant(&*self);
        }
        let ghost before = *self;
        let ghost key = name@;
        let ghost value = preset@;
        let at = self.position(name.as_str());
        let mut entries = self.take_entries();
        match at {
            Some(i) => {
                entries.set(i, NamedPreset { name, preset });
                assert(names_of(entries@) =~= before.listed());
            },
            None => {
                entries.push(NamedPreset { name, preset });
                assert(names_of(entries@) =~= before.listed().push(key));
            },
        }
        self.put_entries(entries);
        proof {
            let i = match at {
                Some(i) => i as int,
                None => before.entries.len() as int,
            };
            assert(self.listed()[i] == key);
            assert forall|k: Seq<char>| #[trigger]
                self@.contains_key(k) implies self@[k] == before@.insert(key, value)[k] by {
                let j = self.listed().index_of(k);
                assert(self.listed()[j] == k);
                if k != key {
                    assert(before.listed()[j] == k);
                    let j0 = before.listed().index_of(k);
                    assert(before.listed()[j0] == k);
                }
            }
            assert forall|k: Seq<char>|
                before@.insert(key, value).contains_key(k) implies #[trigger] self@.contains_key(
                k,
            ) by {
                if k != key {
                    let j0 = before.listed().index_of(k);
                    assert(before.listed()[j0] == k);
                    assert(self.listed()[j0] == k);
                }
            }
            assert(self@ =~= before@.insert(key, value));
        }
    }

    /// Takes the preset of that name out of the store, if it holds one.
    pub fn remove(&mut self, name: &str) -> (removed: Option<Preset>)
        ensures
            match removed {
                Some(preset) => old(self)@.contains_key(name@) && preset@ == old(self)@[name@],
                None => !old(self)@.contains_key(name@),
            },
            final(self)@ == old(self)@.remove(name@),
            final(self).listed() == without(old(self).listed(), name@),
    {
        proof {
            use_type_invariant(&*self);
        }
        let ghost before = *self;
        let ghost key = name@;
        let ghost names = before.listed();
        match self.position(name) {
            Some(i) => {
                proof {
                    before.lemma_entry(i as int);
                    lemma_remove_is_filter(names, i as int);
                }
                let mut entries = self.take_entries();
                let entry = entries.remove(i);
                assert(names_of(entries@) =~= names.remove(i as int));
                self.put_entries(entries);
                proof {
                    assert forall|k: Seq<char>| #[trigger]
                        self@.contains_key(k) implies before@.remove(key).contains_key(k)
                        && self@[k] == before@.remove(key)[k] by {
                        let j = self.listed().index_of(k);
                        assert(self.listed()[j] == k);
                        let j0 = if j < i {
                            j
                        } else {
                            j + 1
                        };
                        assert(names[j0] == k);
                        let j1 = names.index_of(k);
                        assert(names[j1] == k);
                    }
                    assert forall|k: Seq<char>|
                        before@.remove(key).contains_key(k) implies #[trigger] self@.contains_key(
                        k,
                    ) by {
                        let j0 = names.index_of(k);
                        assert(names[j0] == k);
                        let j = if j0 < i {
                            j0
                        } else {
                            j0 - 1
                        };
                        assert(self.listed()[j] == k);
                    }
                    assert(self@ =~= before@.remove(key));
                }
                Some(entry.preset)
            },
            None => {
                proof {
                    lemma_absent_is_filter(names, key);
                    assert(self@ =~= before@.remove(key));
                }
                None
            },
        }
    }
}

/// The names of the entries, in their order.
spec fn names_of(entries: Seq<NamedPreset>) -> Seq<Seq<char>> {
    Seq::new(entries.len(), |i: int| entries[i].name@)
}

/// The names of a list that differ from `key`, in their order.
pub open spec fn without(names: Seq<Seq<char>>, key: Seq<char>) -> Seq<Seq<char>> {
    names.filter(|n: Seq<char>| n != key)
}

/// Taking the one occurrence of a name out of a list without duplicates
/// leaves the names that differ from it, in their order.
proof fn lemma_remove_is_filter(names: Seq<Seq<char>>, i: int)
    requires
        names.no_duplicates(),
        0 <= i < names.len(),
    ensures
        names.remove(i) == without(names, names[i]),
        names.remove(i).no_duplicates(),
    decreases names.len(),
{
    reveal(Seq::filter);
    let key = names[i];
    let front = names.drop_last();
    if i == names.len() - 1 {
        lemma_absent_is_filter(front, key);
        assert(names.remove(i) =~= front);
    } else {
        lemma_remove_is_filter(front, i);
        assert(front[i] == key);
        assert(names.remove(i) =~= front.remove(i).push(names.last()));
    }
}

/// A list that does not hold a name is all the names that differ from it.
proof fn lemma_absent_is_filter(names: Seq<Seq<char>>, key: Seq<char>)
    requires
        !names.contains(key),
    ensures
        names == without(names, key),
    decreases names.len(),
{
    reveal(Seq::filter);
    if names.len() > 0 {
        let front = names.drop_last();
        assert forall|j: int| 0 <= j < front.len() implies front[j] != key by {
            assert(names[j] == front[j]);
        }
        lemma_absent_is_filter(front, key);
        assert(names.last() == names[names.len() - 1]);
        assert(names =~= front.push(names.last()));
    }
}

/// Where the store is kept, below the directory that holds the
/// configuration of the user's programs.
pub open spec fn config_path_of(config_dir: Seq<char>) -> Seq<char> {
    config_dir + "/molniya"@ + "/config.json"@
}

/// Where the store is kept, given the directory that holds the
/// configuration of the user's programs.
pub fn config_path(config_dir: &str) -> (path: String)
    ensures
        path@ == config_path_of(config_dir@),
{
    concat3(config_dir, "/molniya", "/config.json")
}

} // verus!
