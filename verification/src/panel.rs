//! Panel references and the registry that resolves panel keys.

use vstd::prelude::*;

verus! {

/// A handle on one panel of the workspace: the key it was registered under,
/// its own parameters, and the factory that builds it.
#[derive(Debug, Clone, PartialEq, Eq)]
pub struct PanelRef {
    pub key: String,
    pub params: String,
    pub factory: u64,
}

/// What a [`PanelRef`] stands for in contracts.
pub ghost struct PanelModel {
    pub key: Seq<char>,
    pub params: Seq<char>,
    pub factory: u64,
}

impl View for PanelRef {
    type V = PanelModel;

    open spec fn view(&self) -> PanelModel {
        PanelModel { key: self.key@, params: self.params@, factory: self.factory }
    }
}

impl PanelRef {
    /// A copy of this reference.
    pub fn duplicate(&self) -> (out: PanelRef)
        ensures
            out@ == self@,
    {
        PanelRef { key: self.key.clone(), params: self.params.clone(), factory: self.factory }
    }

    /// Whether two references name the same panel with the same parameters.
    pub fn same(&self, other: &PanelRef) -> (out: bool)
        ensures
            out == (self@ == other@),
    {
        self.key == other.key && self.params == other.params && self.factory == other.factory
    }
}

/// The error of a lookup for a key that no factory was registered under.
#[derive(Debug, Clone, PartialEq, Eq)]
pub struct UnknownPanelKey {
    pub key: String,
}

/// One registration: a key and the factory that stands behind it.
#[derive(Debug, Clone, PartialEq, Eq)]
pub struct RegistryEntry {
    pub key: String,
    pub factory: u64,
}

/// The factory that the latest registration of `key` among `entries` names.
pub open spec fn latest_factory(entries: Seq<RegistryEntry>, key: Seq<char>) -> Option<u64>
    decreases entries.len(),
{
    if entries.len() == 0 {
        None
    } else if entries.last().key@ == key {
        Some(entries.last().factory)
    } else {
        latest_factory(entries.drop_last(), key)
    }
}

/// Maps each registered panel key to a factory. A later registration of a
/// key shadows an earlier one.
#[derive(Debug, Clone, PartialEq, Eq)]
pub struct PanelRegistry {
    entries: Vec<RegistryEntry>,
}

impl View for PanelRegistry {
    type V = Map<Seq<char>, u64>;

    closed spec fn view(&self) -> Map<Seq<char>, u64> {
        Map::new(
            |k: Seq<char>| latest_factory(self.entries@, k).is_some(),
            |k: Seq<char>| latest_factory(self.entries@, k).unwrap(),
        )
    }
}

impl PanelRegistry {
    /// A registry without any key.
    pub fn new() -> (out: PanelRegistry)
        ensures
            out@ == Map::<Seq<char>, u64>::empty(),
    {
        let out = PanelRegistry { entries: Vec::new() };
        assert(out@ =~= Map::<Seq<char>, u64>::empty());
        out
    }

    /// Associates `key` with `factory`; an earlier factory of that key is
    /// replaced.
    pub fn register(&mut self, key: String, factory: u64)
        ensures
            final(self)@ == old(self)@.insert(key@, factory),
    {
        let ghost before = self.entries@;
        let ghost k = key@;
        self.entries.push(RegistryEntry { key, factory });
        proof {
            assert(self.entries@.drop_last() =~= before);
            assert forall|q: Seq<char>|
                latest_factory(self.entries@, q) == (if q == k {
                    Some(factory)
                } else {
                    latest_factory(before, q)
                }) by {}
            assert(self@ =~= old(self)@.insert(k, factory));
        }
    }

    /// The factory registered under `key`, if there is one.
    pub fn lookup(&self, key: &String) -> (out: Option<u64>)
        ensures
            out.is_some() == self@.contains_key(key@),
            out.is_some() ==> out.unwrap() == self@[key@],
    {
        let mut i: usize = self.entries.len();
        proof {
            assert(self.entries@.take(i as int) =~= self.entries@);
        }
        while i > 0
            invariant
                i <= self.entries.len(),
                latest_factory(self.entries@, key@) == latest_factory(
                    self.entries@.take(i as int),
                    key@,
                ),
            decreases i,
        {
            i = i - 1;
            proof {
                assert(self.entries@.take(i + 1).drop_last() =~= self.entries@.take(i as int));
            }
            if self.entries[i].key == *key {
                return Some(self.entries[i].factory);
            }
        }
        None
    }

    /// A reference to a new panel of the kind registered under `key`, made
    /// with `params`; fails where no factory is registered under `key`.
    pub fn create(&self, key: &String, params: &String) -> (out: Result<PanelRef, UnknownPanelKey>)
        ensures
            out.is_ok() == self@.contains_key(key@),
            out matches Ok(p) ==> p@ == (PanelModel {
                key: key@,
                params: params@,
                factory: self@[key@],
            }),
            out matches Err(e) ==> e.key@ == key@,
    {
        match self.lookup(key) {
            Some(factory) => Ok(PanelRef { key: key.clone(), params: params.clone(), factory }),
            None => Err(UnknownPanelKey { key: key.clone() }),
        }
    }
}

} // verus!
