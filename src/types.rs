use vstd::prelude::*;

verus! {

/// The Bitcoin network that addresses are checked against.
#[derive(Clone, Copy, PartialEq, Eq, Structural, Debug)]
pub enum Network {
    Bitcoin,
    Testnet,
    Signet,
    Regtest,
}

/// Identifier of a signing key: its four bytes read big-endian.
#[derive(Clone, Copy, PartialEq, Eq, Structural, Hash, Debug)]
pub struct Fingerprint {
    pub value: u32,
}

/// One signer of a spending path, with the derivation paths under which its
/// key appears in the descriptor.
#[derive(Debug)]
pub struct Origin {
    pub fingerprint: Fingerprint,
    pub derivation_paths: Vec<Vec<u32>>,
}

pub struct OriginView {
    pub fingerprint: Fingerprint,
    pub derivation_paths: Seq<Seq<u32>>,
}

impl View for Origin {
    type V = OriginView;

    open spec fn view(&self) -> OriginView {
        OriginView {
            fingerprint: self.fingerprint,
            derivation_paths: self.derivation_paths@.map_values(|p: Vec<u32>| p@),
        }
    }
}

pub open spec fn origins_view(origins: Seq<Origin>) -> Seq<OriginView> {
    origins.map_values(|o: Origin| o@)
}

fn copy_indices(p: &Vec<u32>) -> (r: Vec<u32>)
    ensures
        r@ == p@,
{
    let mut r: Vec<u32> = Vec::new();
    let mut i: usize = 0;
    while i < p.len()
        invariant
            i <= p.len(),
            r@ == p@.subrange(0, i as int),
        decreases p.len() - i,
    {
        r.push(p[i]);
        i += 1;
    }
    assert(r@ =~= p@);
    r
}

impl Origin {
    /// A copy with the same fingerprint and the same derivation paths.
    pub fn copy(&self) -> (r: Origin)
        ensures
            r@ == self@,
    {
        let mut paths: Vec<Vec<u32>> = Vec::new();
        let mut i: usize = 0;
        while i < self.derivation_paths.len()
            invariant
                i <= self.derivation_paths.len(),
                paths@.len() == i,
                forall|j: int| 0 <= j < i ==> #[trigger] paths@[j]@ == self.derivation_paths@[j]@,
            decreases self.derivation_paths.len() - i,
        {
            paths.push(copy_indices(&self.derivation_paths[i]));
            i += 1;
        }
        let r = Origin { fingerprint: self.fingerprint, derivation_paths: paths };
        assert(r@.derivation_paths =~= self@.derivation_paths);
        r
    }
}

/// Copies a list of origins, keeping their order.
pub fn copy_origins(origins: &Vec<Origin>) -> (r: Vec<Origin>)
    ensures
        origins_view(r@) == origins_view(origins@),
{
    let mut r: Vec<Origin> = Vec::new();
    let mut i: usize = 0;
    while i < origins.len()
        invariant
            i <= origins.len(),
            r@.len() == i,
            forall|j: int| 0 <= j < i ==> #[trigger] r@[j]@ == origins@[j]@,
        decreases origins.len() - i,
    {
        r.push(origins[i].copy());
        i += 1;
    }
    assert(origins_view(r@) =~= origins_view(origins@));
    r
}

} // verus!
