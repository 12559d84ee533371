use vstd::prelude::*;

use std::collections::HashMap;

use crate::types::{Fingerprint, Origin};

verus! {

broadcast use vstd::std_specs::hash::group_hash_axioms;

/// The names that the user gave to signing keys, by fingerprint.
pub struct KeyAliasRegistry {
    aliases: HashMap<u32, String>,
}

impl View for KeyAliasRegistry {
    type V = Map<u32, Seq<char>>;

    closed spec fn view(&self) -> Map<u32, Seq<char>> {
        self.aliases@.map_values(|s: String| s@)
    }
}

/// How a signer is shown: by its alias, beside its fingerprint, when it has
/// one; else by its fingerprint alone.
#[derive(PartialEq, Eq, Debug)]
pub enum SignerLabel {
    Alias(Fingerprint, String),
    Raw(Fingerprint),
}

pub enum SignerLabelView {
    Alias(Fingerprint, Seq<char>),
    Raw(Fingerprint),
}

impl View for SignerLabel {
    type V = SignerLabelView;

    open spec fn view(&self) -> SignerLabelView {
        match self {
            SignerLabel::Alias(f, s) => SignerLabelView::Alias(*f, s@),
            SignerLabel::Raw(f) => SignerLabelView::Raw(*f),
        }
    }
}

/// The label of the signer `fp` under the aliases `m`.
pub open spec fn label_of(m: Map<u32, Seq<char>>, fp: Fingerprint) -> SignerLabelView {
    if m.contains_key(fp.value) {
        SignerLabelView::Alias(fp, m[fp.value])
    } else {
        SignerLabelView::Raw(fp)
    }
}

impl KeyAliasRegistry {
    /// A registry without aliases.
    pub fn new() -> (r: Self)
        ensures
            r@ == Map::<u32, Seq<char>>::empty(),
    {
        let r = KeyAliasRegistry { aliases: HashMap::new() };
        assert(r@ =~= Map::<u32, Seq<char>>::empty());
        r
    }

    /// Names the key `fp` `alias`, replacing any earlier name.
    pub fn insert(&mut self, fp: Fingerprint, alias: String)
        ensures
            final(self)@ == old(self)@.insert(fp.value, alias@),
    {
        let ghost a = alias@;
        self.aliases.insert(fp.value, alias);
        assert(self@ =~= old(self)@.insert(fp.value, a));
    }

    /// The alias of `fp`, if it has one.
    pub fn alias(&self, fp: Fingerprint) -> (r: Option<&String>)
        ensures
            match r {
                Some(s) => self@.contains_key(fp.value) && s@ == self@[fp.value],
                None => !self@.contains_key(fp.value),
            },
    {
        self.aliases.get(&fp.value)
    }

    /// The label under which the signer `fp` is shown.
    pub fn label(&self, fp: Fingerprint) -> (r: SignerLabel)
        ensures
            r@ == label_of(self@, fp),
    {
        match self.aliases.get(&fp.value) {
            Some(s) => SignerLabel::Alias(fp, s.clone()),
            None => SignerLabel::Raw(fp),
        }
    }

    /// The labels of a path's signers, in the path's order.
    pub fn labels(&self, origins: &Vec<Origin>) -> (r: Vec<SignerLabel>)
        ensures
            r@.len() == origins@.len(),
            forall|i: int|
                0 <= i < origins@.len() ==> #[trigger] r@[i]@ == label_of(
                    self@,
                    origins@[i].fingerprint,
                ),
    {
        let mut r: Vec<SignerLabel> = Vec::new();
        let mut i: usize = 0;
        while i < origins.len()
            invariant
                i <= origins.len(),
                r@.len() == i,
                forall|j: int|
                    0 <= j < i ==> #[trigger] r@[j]@ == label_of(self@, origins@[j].fingerprint),
            decreases origins.len() - i,
        {
            r.push(self.label(origins[i].fingerprint));
            i = i + 1;
        }
        r
    }
}

} // verus!
