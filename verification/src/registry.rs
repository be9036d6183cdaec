//! The runtime backends that can serve a sandbox, by name.

use vstd::prelude::*;

verus! {

/// The names of the backends that are available, in the order in which they
/// were registered. A name is matched exactly, letter case included.
#[derive(Debug)]
pub struct Registry {
    names: Vec<String>,
}

/// Whether `index` is the first place in `names` that bears `name`.
pub open spec fn first_match(names: Seq<Seq<char>>, name: Seq<char>, index: int) -> bool {
    &&& 0 <= index < names.len()
    &&& names[index] == name
    &&& forall|earlier: int| 0 <= earlier < index ==> names[earlier] != name
}

/// The backend that serves the runtime called `name`: the first one registered
/// under that name, or none where no backend bears it.
pub open spec fn selected(names: Seq<Seq<char>>, name: Seq<char>) -> Option<int> {
    if exists|index: int| first_match(names, name, index) {
        Some(choose|index: int| first_match(names, name, index))
    } else {
        None
    }
}

/// `selected` is the first match, and is none only where nothing matches.
pub proof fn lemma_selected(names: Seq<Seq<char>>, name: Seq<char>)
    ensures
        selected(names, name) matches Some(index) ==> first_match(names, name, index),
        selected(names, name) is None ==> forall|index: int|
            0 <= index < names.len() ==> names[index] != name,
{
    if selected(names, name) is None {
        assert forall|index: int| 0 <= index < names.len() implies names[index] != name by {
            if names[index] == name {
                lemma_match_has_first(names, name, index);
            }
        }
    }
}

/// A name that occurs at `index` has a first occurrence.
proof fn lemma_match_has_first(names: Seq<Seq<char>>, name: Seq<char>, index: int)
    requires
        0 <= index < names.len(),
        names[index] == name,
    ensures
        exists|first: int| first_match(names, name, first),
    decreases index,
{
    if exists|earlier: int| 0 <= earlier < index && names[earlier] == name {
        let earlier = choose|earlier: int| 0 <= earlier < index && names[earlier] == name;
        lemma_match_has_first(names, name, earlier);
    } else {
        assert(first_match(names, name, index));
    }
}

impl View for Registry {
    type V = Seq<Seq<char>>;

    closed spec fn view(&self) -> Seq<Seq<char>> {
        Seq::new(self.names@.len(), |i: int| self.names@[i]@)
    }
}

impl Registry {
    /// A registry without any backend.
    pub fn new() -> (registry: Self)
        ensures
            registry@ == Seq::<Seq<char>>::empty(),
    {
        Registry { names: Vec::new() }
    }

    /// Adds a backend under `name`, behind those already there.
    pub fn register(&mut self, name: String)
        ensures
            final(self)@ == old(self)@.push(name@),
    {
        self.names.push(name);
    }

    /// The backends of a registry can be counted.
    pub proof fn lemma_countable(&self)
        ensures
            self@.len() <= usize::MAX,
    {
        assert(self.names@.len() == self.names.len());
    }

    /// The number of backends.
    pub fn len(&self) -> (len: usize)
        ensures
            len == self@.len(),
    {
        self.names.len()
    }

    /// The name under which the backend at `index` was registered.
    pub fn name(&self, index: usize) -> (name: Option<&String>)
        ensures
            index < self@.len() ==> name is Some && name->0@ == self@[index as int],
            index >= self@.len() ==> name is None,
    {
        if index < self.names.len() {
            Some(&self.names[index])
        } else {
            None
        }
    }

    /// Selects the backend for the runtime called `name`.
    pub fn select(&self, name: &str) -> (backend: Option<usize>)
        ensures
            backend matches Some(index) ==> selected(self@, name@) == Some(index as int),
            backend is None ==> selected(self@, name@) is None,
    {
        let wanted = name.to_owned();
        let mut index: usize = 0;
        while index < self.names.len()
            invariant
                index <= self.names.len(),
                wanted@ == name@,
                forall|earlier: int| 0 <= earlier < index ==> self@[earlier] != name@,
            decreases self.names.len() - index,
        {
            if self.names[index] == wanted {
                proof {
                    assert(first_match(self@, name@, index as int));
                    lemma_selected(self@, name@);
                }
                return Some(index);
            }
            index += 1;
        }
        proof {
            lemma_selected(self@, name@);
        }
        None
    }
}

} // verus!
