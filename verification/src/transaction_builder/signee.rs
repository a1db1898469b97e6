//! The parties that sign a transaction, each under a stream id.

use vstd::prelude::*;
use super::key::{ec_name, rsa_name, Key};

verus! {

/// A key together with the stream id that its signature is filed under.
pub struct Signee {
    pub streamid: String,
    pub key: Key,
}

/// The signees of a transaction, in the order in which they were added.
pub struct Signees {
    keys: Vec<Signee>,
}

/// Each signee as the pair of its stream id and its key.
pub open spec fn signee_pairs(signees: Seq<Signee>) -> Seq<(Seq<char>, Key)> {
    Seq::new(signees.len(), |i: int| (signees[i].streamid@, signees[i].key))
}

impl View for Signees {
    type V = Seq<(Seq<char>, Key)>;

    closed spec fn view(&self) -> Seq<(Seq<char>, Key)> {
        signee_pairs(self.keys@)
    }
}

impl Clone for Signee {
    /// The copy has the same stream id and an equal key.
    fn clone(&self) -> (copy: Self)
        ensures
            copy.streamid@ == self.streamid@,
            copy.key == self.key,
    {
        Signee { streamid: self.streamid.clone(), key: self.key.clone() }
    }
}

impl Clone for Signees {
    /// The copy holds the same signees in the same order.
    fn clone(&self) -> (copy: Self)
        ensures
            copy@ == self@,
    {
        Signees { keys: self.get() }
    }
}

impl Signees {
    /// A registry without signees.
    pub fn new() -> (signees: Signees)
        ensures
            signees@ == Seq::<(Seq<char>, Key)>::empty(),
    {
        let signees = Signees { keys: Vec::new() };
        assert(signees@ =~= Seq::<(Seq<char>, Key)>::empty());
        signees
    }

    /// Adds `key` as the signee for `streamid`. A stream id may be added more
    /// than once; every entry is kept.
    pub fn add(&mut self, key: Key, streamid: &str) -> (this: &mut Self)
        ensures
            this@ == old(self)@.push((streamid@, key)),
            *final(self) == *final(this),
    {
        let signee = Signee { streamid: streamid.to_owned(), key };
        self.keys.push(signee);
        assert(self@ =~= old(self)@.push((streamid@, key)));
        self
    }

    /// Adds `key` as a signee under its own name.
    pub fn add_selfsign(&mut self, key: Key) -> (this: &mut Self)
        ensures
            this@ == old(self)@.push((key.name(), key)),
            *final(self) == *final(this),
    {
        let name = match &key {
            Key::Ec(key) => ec_name(key),
            Key::Rsa(key) => rsa_name(key),
        };
        let signee = Signee { streamid: name, key };
        self.keys.push(signee);
        assert(self@ =~= old(self)@.push((key.name(), key)));
        self
    }

    /// A copy of the signees, in the order in which they were added.
    pub fn get(&self) -> (signees: Vec<Signee>)
        ensures
            signee_pairs(signees@) == self@,
    {
        let mut copies: Vec<Signee> = Vec::new();
        let mut i: usize = 0;
        while i < self.keys.len()
            invariant
                i <= self.keys.len(),
                copies.len() == i,
                forall|j: int|
                    0 <= j < i ==> copies@[j].streamid@ == self.keys@[j].streamid@ && copies@[j].key
                        == self.keys@[j].key,
            decreases self.keys.len() - i,
        {
            copies.push(self.keys[i].clone());
            i += 1;
        }
        assert(signee_pairs(copies@) =~= self@);
        copies
    }
}

} // verus!
