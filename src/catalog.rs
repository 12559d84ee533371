use vstd::prelude::*;

use crate::types::{copy_origins, origins_view, Origin, OriginView};

verus! {

/// An unspent output of the wallet.
#[derive(Clone, Copy, PartialEq, Eq, Structural, Debug)]
pub struct Coin {
    /// Value in satoshis.
    pub amount: u64,
    /// Height of the block that confirmed the coin, if it is confirmed.
    pub block_height: Option<u32>,
}

/// A timelocked spending branch of the wallet's descriptor.
#[derive(Debug)]
pub struct PathPolicy {
    /// Relative timelock of the branch, in blocks.
    pub sequence: u16,
    /// Number of signatures the branch requires.
    pub threshold: usize,
    /// The keys that may sign for the branch.
    pub origins: Vec<Origin>,
}

pub struct PathPolicyView {
    pub sequence: u16,
    pub threshold: nat,
    pub origins: Seq<OriginView>,
}

impl View for PathPolicy {
    type V = PathPolicyView;

    open spec fn view(&self) -> PathPolicyView {
        PathPolicyView {
            sequence: self.sequence,
            threshold: self.threshold as nat,
            origins: origins_view(self.origins@),
        }
    }
}

/// A complete view of the wallet at one moment: its coins, the height of the
/// chain tip, and the recovery branches of its descriptor, ordered as the
/// descriptor orders them (by ascending timelock).
#[derive(Debug)]
pub struct WalletSnapshot {
    pub tip_height: u32,
    pub coins: Vec<Coin>,
    pub recovery_paths: Vec<PathPolicy>,
}

pub struct WalletSnapshotView {
    pub tip_height: u32,
    pub coins: Seq<Coin>,
    pub recovery_paths: Seq<PathPolicyView>,
}

impl View for WalletSnapshot {
    type V = WalletSnapshotView;

    open spec fn view(&self) -> WalletSnapshotView {
        WalletSnapshotView {
            tip_height: self.tip_height,
            coins: self.coins@,
            recovery_paths: self.recovery_paths@.map_values(|p: PathPolicy| p@),
        }
    }
}

/// A recovery path that can be used now, with what it can recover.
#[derive(Debug)]
pub struct RecoveryPath {
    pub sequence: u16,
    pub threshold: usize,
    pub origins: Vec<Origin>,
    /// Sum of the amounts of the coins spendable through this path.
    pub total_amount: u64,
    /// Number of coins spendable through this path.
    pub number_of_coins: usize,
}

pub struct RecoveryPathView {
    pub sequence: u16,
    pub threshold: nat,
    pub origins: Seq<OriginView>,
    pub total_amount: nat,
    pub number_of_coins: nat,
}

impl View for RecoveryPath {
    type V = RecoveryPathView;

    open spec fn view(&self) -> RecoveryPathView {
        RecoveryPathView {
            sequence: self.sequence,
            threshold: self.threshold as nat,
            origins: origins_view(self.origins@),
            total_amount: self.total_amount as nat,
            number_of_coins: self.number_of_coins as nat,
        }
    }
}

/// A coin can be spent through a branch with relative timelock `sequence` by a
/// transaction in the next block on top of `tip` iff it is confirmed and that
/// block is at least `sequence` blocks after the one that confirmed it.
pub open spec fn is_matured(c: Coin, sequence: u16, tip: u32) -> bool {
    match c.block_height {
        Some(h) => h + sequence <= tip + 1,
        None => false,
    }
}

pub open spec fn matured_count(coins: Seq<Coin>, sequence: u16, tip: u32) -> nat
    decreases coins.len(),
{
    if coins.len() == 0 {
        0
    } else {
        matured_count(coins.drop_last(), sequence, tip) + if is_matured(coins.last(), sequence, tip) {
            1nat
        } else {
            0nat
        }
    }
}

pub open spec fn matured_total(coins: Seq<Coin>, sequence: u16, tip: u32) -> nat
    decreases coins.len(),
{
    if coins.len() == 0 {
        0
    } else {
        matured_total(coins.drop_last(), sequence, tip) + if is_matured(coins.last(), sequence, tip) {
            coins.last().amount as nat
        } else {
            0nat
        }
    }
}

/// Sum of the amounts of all the coins.
pub open spec fn coins_total(coins: Seq<Coin>) -> nat
    decreases coins.len(),
{
    if coins.len() == 0 {
        0
    } else {
        coins_total(coins.drop_last()) + coins.last().amount as nat
    }
}

/// A path may be listed only if its threshold can be met by its signers.
pub open spec fn threshold_ok(threshold: nat, n_origins: nat) -> bool {
    1 <= threshold <= n_origins
}

/// The catalog entry that a branch yields for the given coins and tip.
pub open spec fn path_entry(p: PathPolicyView, coins: Seq<Coin>, tip: u32) -> RecoveryPathView {
    RecoveryPathView {
        sequence: p.sequence,
        threshold: p.threshold,
        origins: p.origins,
        total_amount: matured_total(coins, p.sequence, tip),
        number_of_coins: matured_count(coins, p.sequence, tip),
    }
}

/// A branch is listed iff it is well formed and at least one coin can be spent
/// through it in the next block.
pub open spec fn is_unlockable(p: PathPolicyView, coins: Seq<Coin>, tip: u32) -> bool {
    threshold_ok(p.threshold, p.origins.len()) && matured_count(coins, p.sequence, tip) > 0
}

/// The recovery paths of the given branches, in their order.
pub open spec fn catalog_of_paths(paths: Seq<PathPolicyView>, coins: Seq<Coin>, tip: u32) -> Seq<
    RecoveryPathView,
>
    decreases paths.len(),
{
    if paths.len() == 0 {
        Seq::empty()
    } else {
        let rest = catalog_of_paths(paths.drop_last(), coins, tip);
        if is_unlockable(paths.last(), coins, tip) {
            rest.push(path_entry(paths.last(), coins, tip))
        } else {
            rest
        }
    }
}

/// The recovery paths available in a wallet snapshot.
pub open spec fn catalog_of(s: WalletSnapshotView) -> Seq<RecoveryPathView> {
    catalog_of_paths(s.recovery_paths, s.coins, s.tip_height)
}

/// The entries of `s` whose threshold their signers can meet, in order.
pub open spec fn listable(s: Seq<RecoveryPathView>) -> Seq<RecoveryPathView>
    decreases s.len(),
{
    if s.len() == 0 {
        Seq::empty()
    } else if threshold_ok(s.last().threshold, s.last().origins.len()) {
        listable(s.drop_last()).push(s.last())
    } else {
        listable(s.drop_last())
    }
}

proof fn lemma_listable_ok(s: Seq<RecoveryPathView>)
    ensures
        forall|i: int|
            0 <= i < listable(s).len() ==> threshold_ok(
                #[trigger] listable(s)[i].threshold,
                listable(s)[i].origins.len(),
            ),
    decreases s.len(),
{
    if s.len() > 0 {
        lemma_listable_ok(s.drop_last());
        let rest = listable(s.drop_last());
        assert forall|i: int| 0 <= i < listable(s).len() implies threshold_ok(
            #[trigger] listable(s)[i].threshold,
            listable(s)[i].origins.len(),
        ) by {
            if i < rest.len() {
                assert(listable(s)[i] == rest[i]);
            }
        }
    }
}

pub open spec fn entry_ok(e: RecoveryPathView, coins: Seq<Coin>, tip: u32) -> bool {
    &&& threshold_ok(e.threshold, e.origins.len())
    &&& e.total_amount == matured_total(coins, e.sequence, tip)
    &&& e.number_of_coins == matured_count(coins, e.sequence, tip)
    &&& e.number_of_coins > 0
}

proof fn lemma_matured_bounds(coins: Seq<Coin>, sequence: u16, tip: u32)
    ensures
        matured_total(coins, sequence, tip) <= coins_total(coins),
        matured_count(coins, sequence, tip) <= coins.len(),
    decreases coins.len(),
{
    if coins.len() > 0 {
        lemma_matured_bounds(coins.drop_last(), sequence, tip);
    }
}

proof fn lemma_prefix_total(coins: Seq<Coin>, i: int)
    requires
        0 <= i <= coins.len(),
    ensures
        coins_total(coins.take(i)) <= coins_total(coins),
    decreases coins.len(),
{
    if i < coins.len() {
        assert(coins.drop_last().take(i) =~= coins.take(i));
        lemma_prefix_total(coins.drop_last(), i);
    } else {
        assert(coins.take(i) =~= coins);
    }
}

/// Every entry of a catalog is a well-formed path whose aggregates are those
/// of the coins matured under its own timelock.
pub proof fn lemma_catalog_entries(paths: Seq<PathPolicyView>, coins: Seq<Coin>, tip: u32)
    ensures
        forall|i: int|
            0 <= i < catalog_of_paths(paths, coins, tip).len() ==> entry_ok(
                #[trigger] catalog_of_paths(paths, coins, tip)[i],
                coins,
                tip,
            ),
    decreases paths.len(),
{
    if paths.len() > 0 {
        lemma_catalog_entries(paths.drop_last(), coins, tip);
        let rest = catalog_of_paths(paths.drop_last(), coins, tip);
        let all = catalog_of_paths(paths, coins, tip);
        assert forall|i: int| 0 <= i < all.len() implies entry_ok(#[trigger] all[i], coins, tip) by {
            if i < rest.len() {
                assert(all[i] == rest[i]);
            }
        }
    }
}

/// The catalog depends on the snapshot alone: two equal snapshots (same coins,
/// same tip, same descriptor) yield the same list, in the same order and with
/// the same aggregates.
pub proof fn lemma_catalog_deterministic(a: WalletSnapshotView, b: WalletSnapshotView)
    requires
        a == b,
    ensures
        catalog_of(a) == catalog_of(b),
        catalog_of(a).len() == catalog_of(b).len(),
        forall|i: int| 0 <= i < catalog_of(a).len() ==> #[trigger] catalog_of(a)[i] == catalog_of(b)[i],
{
}

/// Every path of a computed catalog requires at least one signature and no
/// more than it has signers; in particular no path has an empty signer set.
pub proof fn lemma_catalog_thresholds(s: WalletSnapshotView)
    ensures
        forall|i: int|
            0 <= i < catalog_of(s).len() ==> {
                &&& 1 <= #[trigger] catalog_of(s)[i].threshold
                &&& catalog_of(s)[i].threshold <= catalog_of(s)[i].origins.len()
                &&& catalog_of(s)[i].origins.len() > 0
            },
{
    lemma_catalog_entries(s.recovery_paths, s.coins, s.tip_height);
}

proof fn lemma_total_without(coins: Seq<Coin>, k: int, sequence: u16, tip: u32)
    requires
        0 <= k < coins.len(),
    ensures
        matured_total(coins, sequence, tip) == matured_total(coins.remove(k), sequence, tip) + if is_matured(
            coins[k],
            sequence,
            tip,
        ) {
            coins[k].amount as nat
        } else {
            0nat
        },
    decreases coins.len(),
{
    if k == coins.len() - 1 {
        assert(coins.remove(k) =~= coins.drop_last());
    } else {
        lemma_total_without(coins.drop_last(), k, sequence, tip);
        assert(coins.remove(k).drop_last() =~= coins.drop_last().remove(k));
        assert(coins.remove(k).last() == coins.last());
    }
}

/// Paths are independent views of the coins, not a partition of them: a coin
/// spendable through two listed paths adds its whole amount to the total of
/// each of them.
pub proof fn lemma_shared_coin_counts_for_each_path(s: WalletSnapshotView, i: int, j: int, k: int)
    requires
        0 <= i < catalog_of(s).len(),
        0 <= j < catalog_of(s).len(),
        i != j,
        0 <= k < s.coins.len(),
        is_matured(s.coins[k], catalog_of(s)[i].sequence, s.tip_height),
        is_matured(s.coins[k], catalog_of(s)[j].sequence, s.tip_height),
    ensures
        catalog_of(s)[i].total_amount == matured_total(
            s.coins.remove(k),
            catalog_of(s)[i].sequence,
            s.tip_height,
        ) + s.coins[k].amount,
        catalog_of(s)[j].total_amount == matured_total(
            s.coins.remove(k),
            catalog_of(s)[j].sequence,
            s.tip_height,
        ) + s.coins[k].amount,
{
    lemma_catalog_entries(s.recovery_paths, s.coins, s.tip_height);
    assert(entry_ok(catalog_of(s)[i], s.coins, s.tip_height));
    assert(entry_ok(catalog_of(s)[j], s.coins, s.tip_height));
    lemma_total_without(s.coins, k, catalog_of(s)[i].sequence, s.tip_height);
    lemma_total_without(s.coins, k, catalog_of(s)[j].sequence, s.tip_height);
}

/// Aggregates the coins spendable through a branch with timelock `sequence`:
/// their number and the sum of their amounts.
pub fn matured_coins(coins: &Vec<Coin>, sequence: u16, tip: u32) -> (r: (usize, u64))
    requires
        coins_total(coins@) <= u64::MAX,
    ensures
        r.0 == matured_count(coins@, sequence, tip),
        r.1 == matured_total(coins@, sequence, tip),
{
    let mut count: usize = 0;
    let mut total: u64 = 0;
    let mut i: usize = 0;
    while i < coins.len()
        invariant
            i <= coins.len(),
            coins_total(coins@) <= u64::MAX,
            count == matured_count(coins@.take(i as int), sequence, tip),
            total == matured_total(coins@.take(i as int), sequence, tip),
        decreases coins.len() - i,
    {
        let c = coins[i];
        proof {
            let next = coins@.take(i + 1);
            assert(next.drop_last() =~= coins@.take(i as int));
            assert(next.last() == c);
            lemma_matured_bounds(next, sequence, tip);
            lemma_prefix_total(coins@, i + 1);
        }
        let matured = match c.block_height {
            Some(h) => (h as u64) + (sequence as u64) <= (tip as u64) + 1,
            None => false,
        };
        if matured {
            count = count + 1;
            total = total + c.amount;
        }
        i = i + 1;
    }
    assert(coins@.take(i as int) =~= coins@);
    (count, total)
}

/// Whether the coins' amounts add up to at most `u64::MAX` satoshis, which
/// catalog computation needs.
pub fn coins_total_fits(coins: &Vec<Coin>) -> (r: bool)
    ensures
        r == (coins_total(coins@) <= u64::MAX),
{
    let mut total: u64 = 0;
    let mut i: usize = 0;
    while i < coins.len()
        invariant
            i <= coins.len(),
            total == coins_total(coins@.take(i as int)),
        decreases coins.len() - i,
    {
        proof {
            let next = coins@.take(i + 1);
            assert(next.drop_last() =~= coins@.take(i as int));
            assert(next.last() == coins@[i as int]);
            lemma_prefix_total(coins@, i + 1);
        }
        match total.checked_add(coins[i].amount) {
            Some(t) => total = t,
            None => return false,
        }
        i = i + 1;
    }
    assert(coins@.take(i as int) =~= coins@);
    true
}

/// The ordered list of recovery paths available in one wallet snapshot.
pub struct RecoveryPathCatalog {
    paths: Vec<RecoveryPath>,
}

impl View for RecoveryPathCatalog {
    type V = Seq<RecoveryPathView>;

    closed spec fn view(&self) -> Seq<RecoveryPathView> {
        self.paths@.map_values(|p: RecoveryPath| p@)
    }
}

impl RecoveryPathCatalog {
    /// Every listed path can meet its threshold with its own signers.
    pub open spec fn wf(&self) -> bool {
        forall|i: int| 0 <= i < self@.len() ==> threshold_ok(#[trigger] self@[i].threshold, self@[i].origins.len())
    }

    /// The catalog in which no path is available.
    pub fn empty() -> (r: Self)
        ensures
            r.wf(),
            r@ == Seq::<RecoveryPathView>::empty(),
    {
        let r = RecoveryPathCatalog { paths: Vec::new() };
        assert(r@ =~= Seq::<RecoveryPathView>::empty());
        r
    }

    /// A catalog of the given paths, in their order, leaving out each path
    /// whose threshold its signers cannot meet.
    pub fn from_paths(paths: Vec<RecoveryPath>) -> (r: Self)
        ensures
            r.wf(),
            r@ == listable(paths@.map_values(|p: RecoveryPath| p@)),
    {
        let ghost src = paths@.map_values(|p: RecoveryPath| p@);
        let mut rest = paths;
        let mut kept: Vec<RecoveryPath> = Vec::new();
        let mut n: usize = 0;
        let total = rest.len();
        let mut i: usize = 0;
        while rest.len() > 0
            invariant
                src.len() == total,
                rest@.len() <= total,
                i == total - rest@.len(),
                rest@.map_values(|p: RecoveryPath| p@) == src.subrange(i as int, total as int),
                kept@.map_values(|p: RecoveryPath| p@) == listable(src.subrange(0, i as int)),
            decreases rest.len(),
        {
            let ghost old_rest = rest@;
            let p = rest.remove(0);
            proof {
                assert(old_rest.map_values(|q: RecoveryPath| q@)[0] == src.subrange(
                    i as int,
                    total as int,
                )[0]);
                assert(src[i as int] == p@);
                let pre = src.subrange(0, i as int + 1);
                assert(pre.drop_last() =~= src.subrange(0, i as int));
                assert(pre.last() == p@);
            }
            let ghost before = kept@;
            let ghost pv = p@;
            proof {
                let pre = src.subrange(0, i as int + 1);
                assert(pre.drop_last() =~= src.subrange(0, i as int));
                assert(pre.last() == pv);
            }
            if 1 <= p.threshold && p.threshold <= p.origins.len() {
                kept.push(p);
                assert(kept@.map_values(|q: RecoveryPath| q@) =~= before.map_values(
                    |q: RecoveryPath| q@,
                ).push(kept@.last()@));
            }
            i = i + 1;
            assert forall|j: int| 0 <= j < rest@.len() implies #[trigger] rest@[j]@ == src[i + j] by {
                assert(rest@[j] == old_rest[j + 1]);
                assert(old_rest.map_values(|q: RecoveryPath| q@)[j + 1] == src.subrange(
                    i - 1,
                    total as int,
                )[j + 1]);
            }
            assert(rest@.map_values(|q: RecoveryPath| q@) =~= src.subrange(i as int, total as int));
        }
        assert(src.subrange(0, i as int) =~= src);
        let r = RecoveryPathCatalog { paths: kept };
        proof {
            lemma_listable_ok(src);
        }
        r
    }

    /// Number of paths in the catalog.
    pub fn len(&self) -> (r: usize)
        ensures
            r == self@.len(),
    {
        self.paths.len()
    }

    /// Whether no path is available.
    pub fn is_empty(&self) -> (r: bool)
        ensures
            r == (self@.len() == 0),
    {
        self.paths.len() == 0
    }

    /// The path at `index`.
    pub fn get(&self, index: usize) -> (r: &RecoveryPath)
        requires
            index < self@.len(),
        ensures
            r@ == self@[index as int],
    {
        &self.paths[index]
    }

    /// Computes the recovery paths available in `snapshot`: in the descriptor's
    /// order, each well-formed branch through which at least one coin can be
    /// spent in the next block, with the number and total amount of those coins.
    pub fn compute(snapshot: &WalletSnapshot) -> (r: Self)
        requires
            coins_total(snapshot.coins@) <= u64::MAX,
        ensures
            r.wf(),
            r@ == catalog_of(snapshot@),
    {
        let ghost paths = snapshot@.recovery_paths;
        let ghost coins = snapshot.coins@;
        let tip = snapshot.tip_height;
        let mut out: Vec<RecoveryPath> = Vec::new();
        let mut i: usize = 0;
        while i < snapshot.recovery_paths.len()
            invariant
                i <= snapshot.recovery_paths.len(),
                paths == snapshot@.recovery_paths,
                coins == snapshot.coins@,
                tip == snapshot.tip_height,
                coins_total(coins) <= u64::MAX,
                out@.map_values(|p: RecoveryPath| p@) == catalog_of_paths(paths.take(i as int), coins, tip),
            decreases snapshot.recovery_paths.len() - i,
        {
            let p = &snapshot.recovery_paths[i];
            proof {
                let next = paths.take(i + 1);
                assert(next.drop_last() =~= paths.take(i as int));
                assert(next.last() == p@);
            }
            let (count, total) = matured_coins(&snapshot.coins, p.sequence, tip);
            if 1 <= p.threshold && p.threshold <= p.origins.len() && count > 0 {
                let entry = RecoveryPath {
                    sequence: p.sequence,
                    threshold: p.threshold,
                    origins: copy_origins(&p.origins),
                    total_amount: total,
                    number_of_coins: count,
                };
                let ghost before = out@;
                out.push(entry);
                assert(out@.map_values(|q: RecoveryPath| q@) =~= before.map_values(
                    |q: RecoveryPath| q@,
                ).push(entry@));
            }
            i = i + 1;
        }
        assert(paths.take(i as int) =~= paths);
        let r = RecoveryPathCatalog { paths: out };
        proof {
            lemma_catalog_entries(paths, coins, tip);
        }
        r
    }
}

} // verus!
