use bitcoin_rpc_provider::coins::{select_coins, MAX_COIN_VALUE, MAX_MONEY, SEARCHED_POOL};

fn sum(values: &[u64], chosen: &[usize]) -> u64 {
    chosen.iter().map(|i| values[*i]).sum()
}

fn check_choice(values: &[u64], target: u64, chosen: &[usize]) {
    let mut places = chosen.to_vec();
    places.sort();
    places.dedup();
    assert_eq!(places.len(), chosen.len());
    assert!(!chosen.is_empty());
    assert!(sum(values, chosen) >= target);
    if target > 0 {
        assert!(sum(values, &chosen[..chosen.len() - 1]) < target);
    }
}

#[test]
fn too_few_coins() {
    assert!(select_coins(1, 20, &vec![]).is_none());
    assert!(select_coins(0, 20, &vec![]).is_none());
    assert!(select_coins(100, 20, &vec![99]).is_none());
    assert!(select_coins(100, 20, &vec![30, 30, 39]).is_none());
}

#[test]
fn just_enough_coins() {
    let chosen = select_coins(100, 20, &vec![30, 30, 40]).unwrap();
    check_choice(&[30, 30, 40], 100, &chosen);
    assert_eq!(chosen.len(), 3);
}

#[test]
fn selections_without_change_are_preferred() {
    let values = vec![50_000, 7_000, 1_000_000, 3_010, 20_000];
    for _ in 0..50 {
        let chosen = select_coins(10_000, 20, &values).unwrap();
        check_choice(&values, 10_000, &chosen);
        let mut places = chosen.clone();
        places.sort();
        assert_eq!(places, vec![1, 3]);
    }
}

#[test]
fn selections_with_change() {
    let values = vec![50_000, 70_000, 1_000_000, 30_000];
    for _ in 0..50 {
        let chosen = select_coins(60_000, 20, &values).unwrap();
        check_choice(&values, 60_000, &chosen);
    }
}

#[test]
fn cost_of_change_bounds_the_excess() {
    let values = vec![120, 5_000];
    for _ in 0..20 {
        assert_eq!(select_coins(100, 20, &values).unwrap(), vec![0]);
    }
    let narrow: Vec<_> = (0..200)
        .map(|_| select_coins(100, 19, &values).unwrap())
        .collect();
    assert!(narrow.contains(&vec![1]));
}

#[test]
fn large_pools() {
    let values: Vec<u64> = (1..=3000).map(|i| i * 997 % 10_007 + 1).collect();
    let total: u64 = values.iter().sum();
    for target in [1, 5_000, 1_000_000, total] {
        let chosen = select_coins(target, 20, &values).unwrap();
        check_choice(&values, target, &chosen);
    }
    assert!(select_coins(total + 1, 20, &values).is_none());
}

#[test]
fn nothing_to_fund_takes_one_coin() {
    let chosen = select_coins(0, 20, &vec![5, 6]).unwrap();
    assert_eq!(chosen.len(), 1);
}

#[test]
fn oversized_coins_are_passed_over() {
    assert!(select_coins(1, 20, &vec![MAX_COIN_VALUE + 1, u64::MAX]).is_none());
    assert_eq!(
        select_coins(1, 20, &vec![u64::MAX, MAX_COIN_VALUE]).unwrap(),
        vec![1]
    );
    assert_eq!(
        select_coins(MAX_MONEY, 20, &vec![u64::MAX, MAX_MONEY]).unwrap(),
        vec![1]
    );
}

#[test]
fn small_pools_reach_large_targets_without_change() {
    let values = vec![MAX_MONEY, 7, MAX_MONEY, MAX_MONEY - 1, 5];
    for _ in 0..20 {
        let target = 3 * MAX_MONEY + 4;
        let chosen = select_coins(target, 20, &values).unwrap();
        check_choice(&values, target, &chosen);
        assert!(sum(&values, &chosen) <= target + 20);
        let chosen = select_coins(2 * MAX_MONEY, 0, &values).unwrap();
        assert_eq!(sum(&values, &chosen), 2 * MAX_MONEY);
    }
    assert!(select_coins(4 * MAX_MONEY, 20, &values).is_none());
    assert!(select_coins(MAX_MONEY + 1, 2, &values).is_none());
    let chosen = select_coins(MAX_MONEY + 1, 3, &values).unwrap();
    assert_eq!(sum(&values, &chosen), MAX_MONEY + 4);
}

#[test]
fn selections_without_change_are_found_in_pools_of_searched_size() {
    let values: Vec<u64> = (0..SEARCHED_POOL as u32).map(|i| 3u64.pow(i)).collect();
    for mask in [1u32, 0b101, 0b111_0000_1111, 0x7fff, 0x2aaa, 0x5555] {
        let places: Vec<usize> = (0..SEARCHED_POOL).filter(|i| mask >> i & 1 == 1).collect();
        let target = sum(&values, &places);
        let mut chosen = select_coins(target, 0, &values).unwrap();
        chosen.sort();
        assert_eq!(chosen, places);
    }
}
