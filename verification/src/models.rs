//! The model resource cache: models are loaded on first reference, kept for
//! good, and handed to the caller's mutator on every reference.

use vstd::prelude::*;

verus! {

/// Whether no name occurs twice among `entries`.
spec fn distinct_names<M>(entries: Seq<(String, M)>) -> bool {
    forall|i: int, j: int|
        0 <= i < entries.len() && 0 <= j < entries.len() && i != j ==> (#[trigger] entries[i]).0@
            != (#[trigger] entries[j]).0@
}

/// Whether `name` is the name of the entry at `i`.
spec fn named_at<M>(entries: Seq<(String, M)>, name: Seq<char>, i: int) -> bool {
    0 <= i < entries.len() && entries[i].0@ == name
}

/// The entries as a map from name to model.
spec fn as_map<M>(entries: Seq<(String, M)>) -> Map<Seq<char>, M> {
    Map::new(
        |name: Seq<char>| exists|i: int| named_at(entries, name, i),
        |name: Seq<char>| entries[choose|i: int| named_at(entries, name, i)].1,
    )
}

proof fn lemma_entry<M>(entries: Seq<(String, M)>, i: int)
    requires
        distinct_names(entries),
        0 <= i < entries.len(),
    ensures
        as_map(entries).contains_key(entries[i].0@),
        as_map(entries)[entries[i].0@] == entries[i].1,
{
    let name = entries[i].0@;
    assert(named_at(entries, name, i));
    let k = choose|k: int| named_at(entries, name, k);
    assert(k == i);
}

proof fn lemma_replaced<M>(entries: Seq<(String, M)>, i: int, key: String, model: M)
    requires
        distinct_names(entries),
        0 <= i < entries.len(),
        key@ == entries[i].0@,
    ensures
        distinct_names(entries.remove(i)),
        distinct_names(entries.remove(i).insert(i, (key, model))),
        as_map(entries.remove(i).insert(i, (key, model))) == as_map(entries).insert(key@, model),
{
    let removed = entries.remove(i);
    let after = removed.insert(i, (key, model));
    assert forall|a: int, b: int|
        0 <= a < removed.len() && 0 <= b < removed.len() && a != b implies (
    #[trigger] removed[a]).0@ != (#[trigger] removed[b]).0@ by {
        let a0 = if a < i { a } else { a + 1 };
        let b0 = if b < i { b } else { b + 1 };
        assert(removed[a] == entries[a0]);
        assert(removed[b] == entries[b0]);
    }
    assert(after.len() == entries.len());
    assert forall|a: int| 0 <= a < after.len() implies (#[trigger] after[a]).0@ == entries[a].0@
        && (a != i ==> after[a].1 == entries[a].1) by {
        if a < i {
            assert(after[a] == removed[a]);
        } else if a > i {
            assert(after[a] == removed[a - 1]);
        }
    }
    assert(after[i].1 == model);
    assert(distinct_names(after));
    let expected = as_map(entries).insert(key@, model);
    assert forall|name: Seq<char>| as_map(after).contains_key(name) == expected.contains_key(
        name,
    ) by {
        if as_map(after).contains_key(name) {
            let k = choose|k: int| named_at(after, name, k);
            assert(named_at(entries, name, k));
        }
        if expected.contains_key(name) {
            if name == key@ {
                assert(named_at(after, name, i));
            } else {
                let k = choose|k: int| named_at(entries, name, k);
                assert(named_at(after, name, k));
            }
        }
    }
    assert forall|name: Seq<char>| as_map(after).contains_key(name) implies as_map(after)[name]
        == expected[name] by {
        let k = choose|k: int| named_at(after, name, k);
        lemma_entry(after, k);
        if k != i {
            lemma_entry(entries, k);
        }
    }
    assert(as_map(after) =~= expected);
}

proof fn lemma_pushed<M>(entries: Seq<(String, M)>, key: String, model: M)
    requires
        distinct_names(entries),
        !as_map(entries).contains_key(key@),
    ensures
        distinct_names(entries.push((key, model))),
        as_map(entries.push((key, model))) == as_map(entries).insert(key@, model),
{
    let after = entries.push((key, model));
    let last = entries.len() as int;
    assert forall|a: int, b: int|
        0 <= a < after.len() && 0 <= b < after.len() && a != b implies (#[trigger] after[a]).0@ != (
    #[trigger] after[b]).0@ by {
        if a < last && b < last {
            assert(after[a] == entries[a]);
            assert(after[b] == entries[b]);
        } else if a < last {
            assert(after[a] == entries[a]);
            assert(named_at(entries, entries[a].0@, a));
        } else {
            assert(after[b] == entries[b]);
            assert(named_at(entries, entries[b].0@, b));
        }
    }
    let expected = as_map(entries).insert(key@, model);
    assert forall|name: Seq<char>| as_map(after).contains_key(name) == expected.contains_key(
        name,
    ) by {
        if as_map(after).contains_key(name) {
            let k = choose|k: int| named_at(after, name, k);
            if k < last {
                assert(named_at(entries, name, k));
            }
        }
        if expected.contains_key(name) {
            if name == key@ {
                assert(named_at(after, name, last));
            } else {
                let k = choose|k: int| named_at(entries, name, k);
                assert(named_at(after, name, k));
            }
        }
    }
    assert forall|name: Seq<char>| as_map(after).contains_key(name) implies as_map(after)[name]
        == expected[name] by {
        let k = choose|k: int| named_at(after, name, k);
        lemma_entry(after, k);
        if k < last {
            lemma_entry(entries, k);
        }
    }
    assert(as_map(after) =~= expected);
}

/// What one call of [`ModelManager::with_model`] does to the cache.
///
/// A model that is cached is handed to the mutator `f` and put back; the
/// loader plays no part. A name that is not cached is loaded: on success
/// the fresh model goes through `f` and into the cache under that name, on
/// failure the loader's error comes back and the cache is as it was.
pub open spec fn with_model_spec<M, E, L: FnOnce(&str) -> Result<M, E>, F: FnOnce(M) -> M>(
    before: Map<Seq<char>, M>,
    name: &str,
    load: L,
    f: F,
    after: Map<Seq<char>, M>,
    done: Result<(), E>,
) -> bool {
    if before.contains_key(name@) {
        &&& done is Ok
        &&& f.ensures((before[name@],), after[name@])
        &&& after == before.insert(name@, after[name@])
    } else {
        match done {
            Ok(_) => {
                &&& exists|fresh: M|
                    #[trigger] load.ensures((name,), Ok::<M, E>(fresh)) && f.ensures(
                        (fresh,),
                        after[name@],
                    )
                &&& after == before.insert(name@, after[name@])
            },
            Err(e) => {
                &&& load.ensures((name,), Err::<M, E>(e))
                &&& after == before
            },
        }
    }
}

/// What the caller owes a call of [`ModelManager::with_model`]: the loader
/// can be called where the name is not cached, and the mutator can be
/// called on the model it will get.
pub open spec fn with_model_allowed<M, E, L: FnOnce(&str) -> Result<M, E>, F: FnOnce(M) -> M>(
    before: Map<Seq<char>, M>,
    name: &str,
    load: L,
    f: F,
) -> bool {
    if before.contains_key(name@) {
        f.requires((before[name@],))
    } else {
        &&& load.requires((name,))
        &&& forall|fresh: M| #[trigger]
            load.ensures((name,), Ok::<M, E>(fresh)) ==> f.requires((fresh,))
    }
}

/// A second reference to a name finds the model that the first left: it
/// succeeds whatever its loader would do, its mutator gets the first call's
/// result, and the cache gains no entry.
pub proof fn lemma_loaded_once<
    M,
    E,
    L1: FnOnce(&str) -> Result<M, E>,
    F1: FnOnce(M) -> M,
    L2: FnOnce(&str) -> Result<M, E>,
    F2: FnOnce(M) -> M,
>(
    cache: Map<Seq<char>, M>,
    name: &str,
    load1: L1,
    f1: F1,
    first: Map<Seq<char>, M>,
    load2: L2,
    f2: F2,
    second: Map<Seq<char>, M>,
    done: Result<(), E>,
)
    requires
        with_model_spec(cache, name, load1, f1, first, Ok::<(), E>(())),
        with_model_spec(first, name, load2, f2, second, done),
    ensures
        first.contains_key(name@),
        done is Ok,
        f2.ensures((first[name@],), second[name@]),
        second == first.insert(name@, second[name@]),
        second.dom() == first.dom(),
{
    assert(first.contains_key(name@));
    assert(second.dom() =~= first.dom());
}

/// ModelManager resource: the models loaded so far, by name.
pub struct ModelManager<M> {
    entries: Vec<(String, M)>,
}

impl<M> View for ModelManager<M> {
    type V = Map<Seq<char>, M>;

    closed spec fn view(&self) -> Map<Seq<char>, M> {
        as_map(self.entries@)
    }
}

impl<M> ModelManager<M> {
    /// Whether the cache is well formed: it holds each name once.
    pub closed spec fn wf(&self) -> bool {
        distinct_names(self.entries@)
    }

    /// A cache that holds no model.
    pub fn new() -> (manager: Self)
        ensures
            manager.wf(),
            manager@ == Map::<Seq<char>, M>::empty(),
    {
        let manager = ModelManager { entries: Vec::new() };
        assert(manager@ =~= Map::<Seq<char>, M>::empty());
        manager
    }

    fn find(&self, name: &str) -> (at: Option<usize>)
        ensures
            match at {
                Some(i) => named_at(self.entries@, name@, i as int),
                None => !self@.contains_key(name@),
            },
    {
        let wanted = name.to_owned();
        let mut i: usize = 0;
        while i < self.entries.len()
            invariant
                i <= self.entries.len(),
                wanted@ == name@,
                forall|j: int| 0 <= j < i ==> !named_at(self.entries@, name@, j),
            decreases self.entries.len() - i,
        {
            if self.entries[i].0 == wanted {
                return Some(i);
            }
            i += 1;
        }
        None
    }

    /// Whether a model is cached under `name`.
    pub fn contains(&self, name: &str) -> (cached: bool)
        requires
            self.wf(),
        ensures
            cached == self@.contains_key(name@),
    {
        match self.find(name) {
            Some(i) => {
                proof {
                    lemma_entry(self.entries@, i as int);
                }
                true
            },
            None => false,
        }
    }

    /// The model cached under `name`, if there is one.
    pub fn get(&self, name: &str) -> (model: Option<&M>)
        requires
            self.wf(),
        ensures
            match model {
                Some(m) => self@.contains_key(name@) && *m == self@[name@],
                None => !self@.contains_key(name@),
            },
    {
        match self.find(name) {
            Some(i) => {
                proof {
                    lemma_entry(self.entries@, i as int);
                }
                Some(&self.entries[i].1)
            },
            None => None,
        }
    }

    /// Applies `f` to the model named `name`. A model that is cached is
    /// mutated in place. One that is not is loaded with `load` first, then
    /// mutated and cached; if loading fails, the error is returned and the
    /// cache is unchanged. `load` is called at most once, and only for a
    /// name that is not cached.
    pub fn with_model<E, L: FnOnce(&str) -> Result<M, E>, F: FnOnce(M) -> M>(
        &mut self,
        name: &str,
        load: L,
        f: F,
    ) -> (done: Result<(), E>)
        requires
            old(self).wf(),
            with_model_allowed(old(self)@, name, load, f),
        ensures
            final(self).wf(),
            with_model_spec(old(self)@, name, load, f, final(self)@, done),
    {
        match self.find(name) {
            Some(i) => {
                proof {
                    lemma_entry(self.entries@, i as int);
                }
                let ghost before = self.entries@;
                let (key, model) = self.entries.remove(i);
                let model = f(model);
                proof {
                    lemma_replaced(before, i as int, key, model);
                }
                self.entries.insert(i, (key, model));
                Ok(())
            },
            None => {
                match load(name) {
                    Ok(fresh) => {
                        let model = f(fresh);
                        let key = name.to_owned();
                        proof {
                            lemma_pushed(self.entries@, key, model);
                        }
                        self.entries.push((key, model));
                        Ok(())
                    },
                    Err(e) => Err(e),
                }
            },
        }
    }
}

} // verus!
