use liana_recovery::aliases::{KeyAliasRegistry, SignerLabel};
use liana_recovery::catalog::{
    coins_total_fits, matured_coins, Coin, PathPolicy, RecoveryPath, RecoveryPathCatalog, WalletSnapshot,
};
use liana_recovery::types::{copy_origins, Fingerprint, Network, Origin};
use liana_recovery::validate::{
    address_text_valid, feerate_text_valid, validate_address, validate_feerate, ValidatedField,
};
use liana_recovery::workflow::{
    recovery, recovery_path_view, RecoveryEvent, RecoveryPathSelector, RecoveryWorkflow,
};

const MAINNET_ADDRESS: &str = "bc1qw508d6qejxtdg4y5r3zarvary0c5xw7kv8f3t4";
const TESTNET_ADDRESS: &str = "tb1qw508d6qejxtdg4y5r3zarvary0c5xw7kxpjzsx";

fn origin(fp: u32) -> Origin {
    Origin { fingerprint: Fingerprint { value: fp }, derivation_paths: vec![vec![0, fp]] }
}

fn policy(sequence: u16, threshold: usize, fps: &[u32]) -> PathPolicy {
    PathPolicy { sequence, threshold, origins: fps.iter().map(|f| origin(*f)).collect() }
}

fn coin(amount: u64, height: Option<u32>) -> Coin {
    Coin { amount, block_height: height }
}

fn recovery_path(threshold: usize, fps: &[u32], total: u64, coins: usize) -> RecoveryPath {
    RecoveryPath {
        sequence: 10,
        threshold,
        origins: fps.iter().map(|f| origin(*f)).collect(),
        total_amount: total,
        number_of_coins: coins,
    }
}

fn snapshot() -> WalletSnapshot {
    WalletSnapshot {
        tip_height: 100,
        coins: vec![
            coin(50_000, Some(10)),
            coin(70_000, Some(60)),
            coin(30_000, Some(95)),
            coin(1_000_000, None),
        ],
        recovery_paths: vec![
            policy(20, 1, &[1]),
            policy(50, 2, &[1, 2]),
            policy(200, 1, &[3]),
        ],
    }
}

fn summary(c: &RecoveryPathCatalog) -> Vec<(u16, usize, usize, u64, usize)> {
    (0..c.len())
        .map(|i| {
            let p = c.get(i);
            (p.sequence, p.threshold, p.origins.len(), p.total_amount, p.number_of_coins)
        })
        .collect()
}

fn workflow_with(catalog: RecoveryPathCatalog) -> RecoveryWorkflow {
    let mut w = RecoveryWorkflow::new(Network::Bitcoin, KeyAliasRegistry::new());
    w.set_catalog(catalog);
    w
}

#[test]
fn catalog_aggregates_matured_coins_in_descriptor_order() {
    let c = RecoveryPathCatalog::compute(&snapshot());
    // Coins at heights 10 and 60 are 91 and 41 blocks old at the next block.
    assert_eq!(summary(&c), vec![(20, 1, 1, 120_000, 2), (50, 2, 2, 50_000, 1)]);
}

#[test]
fn catalog_timelock_boundary_is_the_next_block() {
    let s = WalletSnapshot {
        tip_height: 100,
        coins: vec![coin(1_000, Some(91)), coin(2_000, Some(92))],
        recovery_paths: vec![policy(10, 1, &[7])],
    };
    let c = RecoveryPathCatalog::compute(&s);
    assert_eq!(summary(&c), vec![(10, 1, 1, 1_000, 1)]);
}

#[test]
fn catalog_is_deterministic() {
    let a = RecoveryPathCatalog::compute(&snapshot());
    let b = RecoveryPathCatalog::compute(&snapshot());
    assert_eq!(summary(&a), summary(&b));
}

#[test]
fn catalog_leaves_out_malformed_paths() {
    let s = WalletSnapshot {
        tip_height: 1_000,
        coins: vec![coin(5_000, Some(1))],
        recovery_paths: vec![
            policy(1, 0, &[1]),
            policy(2, 1, &[]),
            policy(3, 3, &[1, 2]),
            policy(4, 2, &[1, 2]),
        ],
    };
    let c = RecoveryPathCatalog::compute(&s);
    assert_eq!(summary(&c), vec![(4, 2, 2, 5_000, 1)]);
    for i in 0..c.len() {
        let p = c.get(i);
        assert!(1 <= p.threshold && p.threshold <= p.origins.len());
    }
}

#[test]
fn catalog_is_empty_without_matured_coins() {
    let s = WalletSnapshot {
        tip_height: 100,
        coins: vec![coin(5_000, Some(100)), coin(6_000, None)],
        recovery_paths: vec![policy(10, 1, &[1])],
    };
    let c = RecoveryPathCatalog::compute(&s);
    assert!(c.is_empty());
    assert_eq!(c.len(), 0);
}

#[test]
fn shared_coin_counts_in_full_for_each_path() {
    let s = WalletSnapshot {
        tip_height: 500,
        coins: vec![coin(80_000, Some(100))],
        recovery_paths: vec![policy(10, 1, &[1]), policy(300, 1, &[2])],
    };
    let c = RecoveryPathCatalog::compute(&s);
    assert_eq!(summary(&c), vec![(10, 1, 1, 80_000, 1), (300, 1, 1, 80_000, 1)]);
}

#[test]
fn matured_coins_counts_and_sums() {
    let coins = vec![coin(1, Some(1)), coin(2, Some(50)), coin(4, Some(99)), coin(8, None)];
    assert_eq!(matured_coins(&coins, 50, 100), (2, 3));
    assert_eq!(matured_coins(&coins, 0, 100), (3, 7));
    assert_eq!(matured_coins(&Vec::new(), 0, 100), (0, 0));
}

#[test]
fn coins_total_fits_detects_overflow() {
    assert!(coins_total_fits(&Vec::new()));
    assert!(coins_total_fits(&vec![coin(u64::MAX - 1, None), coin(1, Some(3))]));
    assert!(!coins_total_fits(&vec![coin(u64::MAX, None), coin(1, Some(3))]));
}

#[test]
fn from_paths_keeps_order_and_drops_unmeetable_thresholds() {
    let c = RecoveryPathCatalog::from_paths(vec![
        recovery_path(2, &[1, 2], 150_000, 3),
        recovery_path(0, &[1], 1, 1),
        recovery_path(1, &[], 1, 1),
        recovery_path(1, &[3], 0, 0),
    ]);
    assert_eq!(summary(&c), vec![(10, 2, 2, 150_000, 3), (10, 1, 1, 0, 0)]);
}

#[test]
fn copy_origins_keeps_everything() {
    let o = vec![origin(4), origin(9)];
    let c = copy_origins(&o);
    assert_eq!(c.len(), 2);
    assert_eq!(c[1].fingerprint, Fingerprint { value: 9 });
    assert_eq!(c[1].derivation_paths, vec![vec![0, 9]]);
}

#[test]
fn feerate_validation() {
    assert!(validate_feerate("12"));
    assert!(validate_feerate("  12 "));
    assert!(validate_feerate("+5"));
    assert!(!validate_feerate("0"));
    assert!(!validate_feerate("-3"));
    assert!(!validate_feerate("abc"));
    assert!(!validate_feerate("1.5"));
    assert!(!validate_feerate(""));
    assert!(!validate_feerate("   "));
    assert!(validate_feerate("18446744073709551615"));
    assert!(!validate_feerate("18446744073709551616"));
    assert!(feerate_text_valid("42"));
    assert!(!feerate_text_valid(" 42"));
}

#[test]
fn address_validation() {
    assert!(validate_address(MAINNET_ADDRESS, Network::Bitcoin));
    assert!(validate_address(&format!("  {}  ", MAINNET_ADDRESS), Network::Bitcoin));
    assert!(!validate_address(MAINNET_ADDRESS, Network::Testnet));
    assert!(validate_address(TESTNET_ADDRESS, Network::Testnet));
    assert!(!validate_address(TESTNET_ADDRESS, Network::Bitcoin));
    assert!(!validate_address("bc1q...", Network::Bitcoin));
    assert!(!validate_address("", Network::Bitcoin));
    assert!(!validate_address("   ", Network::Bitcoin));
    assert!(address_text_valid(MAINNET_ADDRESS, Network::Bitcoin));
    assert!(!address_text_valid("", Network::Bitcoin));
}

#[test]
fn fields_store_the_trimmed_text() {
    let f = ValidatedField::feerate(" 7 ");
    assert_eq!(f.value, "7");
    assert!(f.valid);
    assert!(f.is_filled());
    let a = ValidatedField::address(" nope ", Network::Bitcoin);
    assert_eq!(a.value, "nope");
    assert!(!a.valid);
    let e = ValidatedField::new();
    assert_eq!(e.value, "");
    assert!(!e.valid);
    assert!(!e.is_filled());
}

#[test]
fn selector_rules() {
    let mut s = RecoveryPathSelector::new();
    assert_eq!(s.selected(), None);
    s.select(3, 2);
    assert_eq!(s.selected(), None);
    s.select(1, 2);
    assert_eq!(s.selected(), Some(1));
    s.select(1, 2);
    assert_eq!(s.selected(), Some(1));
    s.select(2, 2);
    assert_eq!(s.selected(), Some(1));
    s.revalidate(2);
    assert_eq!(s.selected(), Some(1));
    s.revalidate(1);
    assert_eq!(s.selected(), None);
    s.select(0, 1);
    s.reset();
    assert_eq!(s.selected(), None);
}

#[test]
fn out_of_range_selection_is_ignored() {
    let mut w = workflow_with(RecoveryPathCatalog::compute(&snapshot()));
    w.select_path(0);
    w.select_path(2);
    assert_eq!(w.selected_path(), Some(0));
    w.select_path(usize::MAX);
    assert_eq!(w.selected_path(), Some(0));
}

#[test]
fn reselecting_keeps_the_selection() {
    let mut w = workflow_with(RecoveryPathCatalog::compute(&snapshot()));
    w.select_path(1);
    w.select_path(1);
    assert_eq!(w.selected_path(), Some(1));
}

#[test]
fn recompute_clears_a_vanished_selection() {
    let mut w = workflow_with(RecoveryPathCatalog::empty());
    w.update_snapshot(&snapshot());
    assert_eq!(w.catalog().len(), 2);
    w.select_path(1);
    assert_eq!(w.selected_path(), Some(1));
    let smaller = WalletSnapshot {
        tip_height: 100,
        coins: vec![coin(50_000, Some(10))],
        recovery_paths: vec![policy(20, 1, &[1]), policy(500, 1, &[2])],
    };
    w.update_snapshot(&smaller);
    assert_eq!(w.catalog().len(), 1);
    assert_eq!(w.selected_path(), None);
}

#[test]
fn recompute_keeps_a_selection_still_in_range() {
    let mut w = workflow_with(RecoveryPathCatalog::empty());
    w.update_snapshot(&snapshot());
    w.select_path(0);
    w.update_snapshot(&snapshot());
    assert_eq!(w.selected_path(), Some(0));
    w.set_catalog(RecoveryPathCatalog::empty());
    assert_eq!(w.selected_path(), None);
}

#[test]
fn can_proceed_needs_every_condition() {
    let mut w = workflow_with(RecoveryPathCatalog::compute(&snapshot()));
    assert!(!w.can_proceed());
    w.edit_address(MAINNET_ADDRESS);
    w.edit_feerate("3");
    assert!(!w.can_proceed());
    w.select_path(0);
    assert!(w.can_proceed());
    w.edit_address("not an address");
    assert!(!w.can_proceed());
    w.edit_address("");
    assert!(!w.address().valid);
    assert!(!w.can_proceed());
    w.edit_address(MAINNET_ADDRESS);
    assert!(w.can_proceed());
    w.edit_feerate("x");
    assert!(!w.can_proceed());
    w.edit_feerate("");
    assert!(!w.can_proceed());
    w.edit_feerate("9");
    assert!(w.can_proceed());
    w.reset_selection();
    assert!(!w.can_proceed());
}

#[test]
fn example_two_paths_then_zero_feerate() {
    let catalog = RecoveryPathCatalog::from_paths(vec![
        recovery_path(2, &[1, 2], 150_000, 3),
        recovery_path(1, &[3], 0, 0),
    ]);
    let mut w = workflow_with(catalog);
    w.select_path(1);
    w.edit_address(MAINNET_ADDRESS);
    w.edit_feerate("12");
    assert!(w.can_proceed());
    w.edit_feerate("0");
    assert!(!w.can_proceed());
}

#[test]
fn empty_catalog_never_proceeds() {
    let mut w = workflow_with(RecoveryPathCatalog::empty());
    w.edit_address(MAINNET_ADDRESS);
    w.edit_feerate("12");
    w.select_path(0);
    assert_eq!(w.selected_path(), None);
    assert!(!w.can_proceed());
    let screen = w.screen();
    assert!(!screen.paths_available);
    assert!(!screen.next_enabled);
}

#[test]
fn events_are_routed_to_their_field() {
    let mut w = workflow_with(RecoveryPathCatalog::compute(&snapshot()));
    assert!(!w.handle(RecoveryEvent::Proceed));
    assert!(!w.handle(RecoveryEvent::EditAddress(MAINNET_ADDRESS.to_string())));
    assert!(w.address().valid);
    assert!(!w.feerate().valid);
    assert!(!w.handle(RecoveryEvent::EditFeerate(" 4 ".to_string())));
    assert_eq!(w.feerate().value, "4");
    assert!(w.address().valid);
    assert!(!w.handle(RecoveryEvent::SelectPath(7)));
    assert_eq!(w.selected_path(), None);
    assert!(!w.handle(RecoveryEvent::SelectPath(1)));
    assert!(w.handle(RecoveryEvent::Proceed));
    assert_eq!(w.selected_path(), Some(1));
    assert_eq!(w.network(), Network::Bitcoin);
}

#[test]
fn aliases_label_signers() {
    let mut reg = KeyAliasRegistry::new();
    reg.insert(Fingerprint { value: 1 }, "alice".to_string());
    assert_eq!(reg.alias(Fingerprint { value: 1 }), Some(&"alice".to_string()));
    assert_eq!(reg.alias(Fingerprint { value: 2 }), None);
    reg.insert(Fingerprint { value: 1 }, "carol".to_string());
    assert_eq!(reg.label(Fingerprint { value: 1 }), SignerLabel::Alias(Fingerprint { value: 1 }, "carol".to_string()));
    assert_eq!(reg.label(Fingerprint { value: 2 }), SignerLabel::Raw(Fingerprint { value: 2 }));
    let labels = reg.labels(&vec![origin(2), origin(1)]);
    assert_eq!(
        labels,
        vec![SignerLabel::Raw(Fingerprint { value: 2 }), SignerLabel::Alias(Fingerprint { value: 1 }, "carol".to_string())]
    );
}

#[test]
fn path_rows_show_selection_and_aliases() {
    let mut reg = KeyAliasRegistry::new();
    reg.insert(Fingerprint { value: 2 }, "bob".to_string());
    let mut w = RecoveryWorkflow::new(Network::Bitcoin, reg);
    w.update_snapshot(&snapshot());
    w.select_path(1);
    let rows = w.path_rows();
    assert_eq!(rows.len(), 2);
    assert!(!rows[0].selected);
    assert!(rows[1].selected);
    assert_eq!(rows[1].index, 1);
    assert_eq!(rows[1].total_amount, 50_000);
    assert_eq!(
        rows[1].signers,
        vec![SignerLabel::Raw(Fingerprint { value: 1 }), SignerLabel::Alias(Fingerprint { value: 2 }, "bob".to_string())]
    );
    assert_eq!(w.path_labels(1), rows[1].signers);
    assert_eq!(w.aliases().alias(Fingerprint { value: 2 }), Some(&"bob".to_string()));
}

#[test]
fn recovery_screen_decisions() {
    let addr = ValidatedField::address(MAINNET_ADDRESS, Network::Bitcoin);
    let fee = ValidatedField::feerate("12");
    let bad_fee = ValidatedField::feerate("0");
    let s = recovery(2, Some(1), &fee, &addr);
    assert!(s.paths_available);
    assert_eq!(s.path_count, 2);
    assert!(s.next_enabled);
    assert!(!recovery(2, None, &fee, &addr).next_enabled);
    assert!(!recovery(2, Some(1), &bad_fee, &addr).next_enabled);
    let none = recovery(0, Some(0), &fee, &addr);
    assert!(!none.paths_available);
    assert!(!none.next_enabled);
}

#[test]
fn recovery_path_view_plurals() {
    let reg = KeyAliasRegistry::new();
    let origins = vec![origin(5), origin(6)];
    let row = recovery_path_view(3, 2, &origins, 1_234, 0, &reg, true);
    assert_eq!(row.index, 3);
    assert!(row.selected);
    assert!(row.signatures_plural);
    assert!(!row.coins_plural);
    assert_eq!(row.total_amount, 1_234);
    assert_eq!(row.signers.len(), 2);
    let single = recovery_path_view(0, 1, &origins, 5, 4, &reg, false);
    assert!(!single.signatures_plural);
    assert!(single.coins_plural);
    assert_eq!(single.number_of_coins, 4);
}
