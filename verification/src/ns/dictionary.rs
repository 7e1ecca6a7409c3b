//! The key-value container handed across the boundary, modeled as the
//! sequence of its entries.

use vstd::prelude::*;

verus! {

/// A native dictionary: a finite collection of key-value entries. The
/// model keeps the entries in the order they were supplied; callers that
/// need unique keys supply them unique, as the native API demands.
#[derive(Debug)]
pub struct Dictionary<K, V> {
    entries: Vec<(K, V)>,
}

impl<K, V> View for Dictionary<K, V> {
    type V = Seq<(K, V)>;

    closed spec fn view(&self) -> Seq<(K, V)> {
        self.entries@
    }
}

impl<K, V> Dictionary<K, V> {
    /// An empty dictionary.
    pub fn new() -> (r: Dictionary<K, V>)
        ensures
            r@ == Seq::<(K, V)>::empty(),
    {
        Dictionary { entries: Vec::new() }
    }

    /// The number of entries.
    pub fn len(&self) -> (n: usize)
        ensures
            n == self@.len(),
    {
        self.entries.len()
    }

    pub fn is_empty(&self) -> (r: bool)
        ensures
            r == (self@.len() == 0),
    {
        self.entries.len() == 0
    }

    /// The entry at a position.
    pub fn get(&self, i: usize) -> (r: &(K, V))
        requires
            i < self@.len(),
        ensures
            *r == self@[i as int],
    {
        &self.entries[i]
    }

    /// Adds an entry at the end; only this crate's builders reach it.
    pub(crate) fn push_entry(&mut self, key: K, value: V)
        ensures
            final(self)@ == old(self)@.push((key, value)),
    {
        self.entries.push((key, value));
    }

    /// Builds a dictionary pairing each key with the value at the same
    /// position.
    pub fn with_keys_values(keys: Vec<K>, values: Vec<V>) -> (r: Dictionary<K, V>)
        requires
            keys@.len() == values@.len(),
        ensures
            r@.len() == keys@.len(),
            forall|i: int|
                0 <= i < keys@.len() ==> r@[i] == (keys@[i], #[trigger] values@[i]),
    {
        let ghost keys_model = keys@;
        let ghost values_model = values@;
        let mut keys = keys;
        let mut values = values;
        let mut backwards: Vec<(K, V)> = Vec::new();
        while keys.len() > 0
            invariant
                keys@.len() == values@.len(),
                keys@ == keys_model.take(keys@.len() as int),
                values@ == values_model.take(keys@.len() as int),
                backwards@.len() + keys@.len() == keys_model.len(),
                keys_model.len() == values_model.len(),
                forall|i: int|
                    0 <= i < backwards@.len() ==> #[trigger] backwards@[i] == (
                    keys_model[keys_model.len() - 1 - i],
                    values_model[values_model.len() - 1 - i],
                    ),
            decreases keys@.len(),
        {
            let k = keys.pop().unwrap();
            let v = values.pop().unwrap();
            backwards.push((k, v));
        }
        let mut entries: Vec<(K, V)> = Vec::new();
        while backwards.len() > 0
            invariant
                entries@.len() + backwards@.len() == keys_model.len(),
                keys_model.len() == values_model.len(),
                forall|i: int|
                    0 <= i < backwards@.len() ==> #[trigger] backwards@[i] == (
                    keys_model[keys_model.len() - 1 - i],
                    values_model[values_model.len() - 1 - i],
                    ),
                forall|i: int|
                    0 <= i < entries@.len() ==> #[trigger] entries@[i] == (
                    keys_model[i],
                    values_model[i],
                    ),
            decreases backwards@.len(),
        {
            let e = backwards.pop().unwrap();
            entries.push(e);
        }
        Dictionary { entries }
    }
}

} // verus!
