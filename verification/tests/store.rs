use liquidity_pool_staking::{Address, LpStakingAccount, PositionStore};

fn owner(n: u8) -> Address {
    Address::new([n; 32])
}

fn account(n: u8, amount: u64) -> LpStakingAccount {
    LpStakingAccount {
        user: owner(n),
        lp_amount: amount,
        reward_debt: 3,
        last_stake_time: 4,
        lockup_end_time: 5,
    }
}

#[test]
fn new_position_is_empty_and_unlocked() {
    assert_eq!(
        LpStakingAccount::new(owner(1), 77),
        LpStakingAccount {
            user: owner(1),
            lp_amount: 0,
            reward_debt: 0,
            last_stake_time: 77,
            lockup_end_time: 77,
        }
    );
}

#[test]
fn empty_store_has_nothing() {
    let store = PositionStore::new();
    assert_eq!(store.len(), 0);
    assert_eq!(store.get(&owner(1)), None);
    assert_eq!(store.at(0), None);
    assert_eq!(store.total(), Some(0));
}

#[test]
fn get_or_create_does_not_change_the_store() {
    let store = PositionStore::new();
    assert_eq!(store.get_or_create(&owner(1), 9), LpStakingAccount::new(owner(1), 9));
    assert_eq!(store.len(), 0);
    assert_eq!(store.get(&owner(1)), None);
}

#[test]
fn save_adds_then_replaces() {
    let mut store = PositionStore::new();
    store.save(account(1, 10));
    store.save(account(2, 20));
    assert_eq!(store.len(), 2);
    assert_eq!(store.get(&owner(1)), Some(account(1, 10)));
    assert_eq!(store.get(&owner(2)), Some(account(2, 20)));
    assert_eq!(store.get(&owner(3)), None);

    store.save(account(1, 15));
    assert_eq!(store.len(), 2);
    assert_eq!(store.get(&owner(1)), Some(account(1, 15)));
    assert_eq!(store.get(&owner(2)), Some(account(2, 20)));
    assert_eq!(store.get_or_create(&owner(1), 0), account(1, 15));
    assert_eq!(store.at(0), Some(account(1, 15)));
    assert_eq!(store.at(1), Some(account(2, 20)));
    assert_eq!(store.at(2), None);
}

#[test]
fn total_is_the_sum_of_the_principal() {
    let mut store = PositionStore::new();
    store.save(account(1, 10));
    store.save(account(2, 20));
    store.save(account(3, 0));
    assert_eq!(store.total(), Some(30));
    store.save(account(2, 5));
    assert_eq!(store.total(), Some(15));
}

#[test]
fn total_out_of_range_is_none() {
    let mut store = PositionStore::new();
    store.save(account(1, u64::MAX));
    assert_eq!(store.total(), Some(u64::MAX));
    store.save(account(2, 1));
    assert_eq!(store.total(), None);
}
