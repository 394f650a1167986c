use pallets::stat_tracker::{Config, Pallet, Stats};

#[test]
fn register_new_wallet_gives_the_default_reputation() {
    let mut p = Pallet::new(Config { default_reputation: 5 });
    assert_eq!(p.wallet_reputation(1), None);
    assert_eq!(p.register_new_wallet(1), Ok(()));
    assert_eq!(p.wallet_reputation(1), Some(Stats { reputation: 5 }));
}

#[test]
fn register_new_wallet_resets_earlier_stats() {
    let mut p = Pallet::new(Config { default_reputation: 5 });
    p.wallet_reputation.insert(1, Stats { reputation: 99 });
    p.register_new_wallet(1).unwrap();
    assert_eq!(p.wallet_reputation(1), Some(Stats { reputation: 5 }));
}

#[test]
fn create_moderator_btree_maps_every_moderator_to_the_default() {
    let mut p = Pallet::new(Config { default_reputation: 7 });
    p.wallet_reputation.insert(3, Stats { reputation: 1 });
    p.wallet_reputation.insert(9, Stats { reputation: 2 });
    let btree = p.create_moderator_btree(vec![3, 1, 3]).unwrap();
    assert_eq!(btree.len(), 2);
    assert_eq!(btree.get(&1), Some(&7));
    assert_eq!(btree.get(&3), Some(&7));
    assert_eq!(p.wallet_reputation(3), Some(Stats { reputation: 7 }));
    assert_eq!(p.wallet_reputation(1), Some(Stats { reputation: 7 }));
    assert_eq!(p.wallet_reputation(9), Some(Stats { reputation: 2 }));
}

#[test]
fn create_moderator_btree_of_nobody_is_empty() {
    let mut p = Pallet::new(Config { default_reputation: 7 });
    let btree = p.create_moderator_btree(vec![]).unwrap();
    assert!(btree.is_empty());
    assert!(p.wallet_reputation.is_empty());
}
