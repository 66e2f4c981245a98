//! A lookup table of resources keyed by identifier: built while the scene
//! is set up, then only read.
use vstd::prelude::*;

verus! {

/// Resources registered under identifiers. Registering under an identifier
/// that is taken replaces what was there.
pub struct Registry<T> {
    ids: Vec<String>,
    items: Vec<T>,
}

/// The map that a list of registrations amounts to: later ones win.
pub open spec fn registrations<T>(ids: Seq<Seq<char>>, items: Seq<T>) -> Map<Seq<char>, T>
    decreases ids.len(),
{
    if ids.len() == 0 || items.len() != ids.len() {
        Map::empty()
    } else {
        registrations(ids.drop_last(), items.drop_last()).insert(ids.last(), items.last())
    }
}

impl<T> Registry<T> {
    /// The identifiers in the order of registration.
    pub closed spec fn ids(&self) -> Seq<Seq<char>> {
        Seq::new(self.ids@.len(), |i: int| self.ids@[i]@)
    }

    /// The resources in the order of registration.
    pub closed spec fn items(&self) -> Seq<T> {
        self.items@
    }

    /// Every registration has its identifier and its resource.
    pub closed spec fn wf(&self) -> bool {
        self.ids@.len() == self.items@.len()
    }

    /// What is registered, by identifier.
    pub open spec fn view(&self) -> Map<Seq<char>, T> {
        registrations(self.ids(), self.items())
    }

    /// An empty registry.
    pub fn new() -> (r: Registry<T>)
        ensures
            r.wf(),
            r@ == Map::<Seq<char>, T>::empty(),
    {
        Registry { ids: Vec::new(), items: Vec::new() }
    }

    /// Registers `item` under `id`.
    pub fn insert(&mut self, id: &str, item: T)
        requires
            old(self).wf(),
        ensures
            final(self).wf(),
            final(self)@ == old(self)@.insert(id@, item),
    {
        let key: String = id.to_owned();
        self.ids.push(key);
        self.items.push(item);
        proof {
            assert(self.ids().drop_last() =~= old(self).ids());
            assert(self.items().drop_last() =~= old(self).items());
            assert(self.ids().last() == id@);
        }
    }

    /// The resource registered under `id`, if there is one.
    pub fn get(&self, id: &str) -> (r: Option<&T>)
        requires
            self.wf(),
        ensures
            r == (if self@.contains_key(id@) {
                Some(&self@[id@])
            } else {
                None
            }),
    {
        let key: String = id.to_owned();
        let mut i: usize = self.ids.len();
        proof {
            assert(self.ids().take(i as int) =~= self.ids());
            assert(self.items().take(i as int) =~= self.items());
        }
        while i > 0
            invariant
                self.wf(),
                key@ == id@,
                i <= self.ids@.len(),
                self@.contains_key(id@) == registrations(
                    self.ids().take(i as int),
                    self.items().take(i as int),
                ).contains_key(id@),
                self@.contains_key(id@) ==> self@[id@] == registrations(
                    self.ids().take(i as int),
                    self.items().take(i as int),
                )[id@],
            decreases i,
        {
            proof {
                assert(self.ids().take(i as int).drop_last() =~= self.ids().take(i - 1));
                assert(self.items().take(i as int).drop_last() =~= self.items().take(i - 1));
            }
            i -= 1;
            if self.ids[i] == key {
                return Some(&self.items[i]);
            }
        }
        None
    }

    /// Whether something is registered under `id`.
    pub fn contains(&self, id: &str) -> (r: bool)
        requires
            self.wf(),
        ensures
            r == self@.contains_key(id@),
    {
        self.get(id).is_some()
    }
}

} // verus!
