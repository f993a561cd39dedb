use liquidity_pool_staking::{CustomError, Pool};

fn pool(rate: u64, index: u64, last: i64, total: u64) -> Pool {
    Pool {
        reward_rate: rate,
        reward_multiplier: 1,
        accumulated_reward_per_share: index,
        last_update_time: last,
        total_staked: total,
    }
}

#[test]
fn new_pool_is_empty() {
    let p = Pool::new(100, 3, 42);
    assert_eq!(
        p,
        Pool {
            reward_rate: 100,
            reward_multiplier: 3,
            accumulated_reward_per_share: 0,
            last_update_time: 42,
            total_staked: 0,
        }
    );
}

#[test]
fn refresh_adds_rate_times_time_per_share() {
    let mut p = pool(100, 0, 0, 1000);
    assert_eq!(p.refresh(10), Ok(()));
    assert_eq!(p, pool(100, 1, 10, 1000));
}

#[test]
fn refresh_rounds_down() {
    let mut p = pool(100, 5, 0, 1001);
    assert_eq!(p.refresh(10), Ok(()));
    assert_eq!(p, pool(100, 5, 10, 1001));

    let mut p = pool(7, 5, 100, 3);
    assert_eq!(p.refresh(105), Ok(()));
    // 7 * 5 / 3 = 11
    assert_eq!(p, pool(7, 16, 105, 3));
}

#[test]
fn refresh_of_an_empty_pool_only_moves_the_time() {
    let mut p = pool(100, 9, 0, 0);
    assert_eq!(p.refresh(1_000_000), Ok(()));
    assert_eq!(p, pool(100, 9, 1_000_000, 0));
}

#[test]
fn refresh_of_an_empty_pool_never_overflows() {
    let mut p = pool(u64::MAX, u64::MAX, i64::MIN, 0);
    assert_eq!(p.refresh(i64::MAX), Ok(()));
    assert_eq!(p, pool(u64::MAX, u64::MAX, i64::MAX, 0));
}

#[test]
fn refresh_with_an_earlier_time_adds_nothing() {
    let mut p = pool(100, 9, 50, 10);
    assert_eq!(p.refresh(40), Ok(()));
    assert_eq!(p, pool(100, 9, 40, 10));
}

#[test]
fn refresh_twice_at_one_time_does_nothing_the_second_time() {
    let mut p = pool(100, 0, 0, 1000);
    assert_eq!(p.refresh(10), Ok(()));
    let once = p;
    assert_eq!(p.refresh(10), Ok(()));
    assert_eq!(p, once);
}

#[test]
fn index_never_goes_down() {
    let mut p = pool(3, 0, 0, 2);
    let mut last_index = 0;
    for now in [5, 5, 3, 9, 100, 20, 101] {
        assert_eq!(p.refresh(now), Ok(()));
        assert!(p.accumulated_reward_per_share >= last_index);
        assert_eq!(p.last_update_time, now);
        last_index = p.accumulated_reward_per_share;
    }
    // Steps of 5, 0, 0 (back to 3), 6, 91, 0 (back to 20) and 81 at rate 3
    // over 2: 7 + 0 + 0 + 9 + 136 + 0 + 121.
    assert_eq!(p.accumulated_reward_per_share, 273);
}

#[test]
fn refresh_refuses_a_product_out_of_range() {
    let mut p = pool(u64::MAX, 0, 0, 1);
    let before = p;
    assert_eq!(p.refresh(2), Err(CustomError::ArithmeticOverflow));
    assert_eq!(p, before);

    // The quotient would fit, the product does not.
    let mut p = pool(u64::MAX, 0, 0, u64::MAX);
    let before = p;
    assert_eq!(p.refresh(2), Err(CustomError::ArithmeticOverflow));
    assert_eq!(p, before);
}

#[test]
fn refresh_refuses_an_index_out_of_range() {
    let mut p = pool(10, u64::MAX - 4, 0, 2);
    let before = p;
    assert_eq!(p.refresh(1), Err(CustomError::ArithmeticOverflow));
    assert_eq!(p, before);

    let mut p = pool(10, u64::MAX - 5, 0, 2);
    assert_eq!(p.refresh(1), Ok(()));
    assert_eq!(p, pool(10, u64::MAX, 1, 2));
}
