use cosmwasm_std::{to_json_vec, BankQuery, Empty, QueryRequest};
use http_wasm_mock::base64_text::round_trip;
use http_wasm_mock::coins::{amount_in, is_kept_entry, supplies_fit_in, supply_of, Coin};
use http_wasm_mock::simulator::LocalSimulator;

fn coin(amount: u128, denom: &str) -> Coin {
    Coin { denom: denom.to_string(), amount }
}

fn all_balances_wire(address: &str) -> Vec<u8> {
    to_json_vec(&QueryRequest::<Empty>::Bank(BankQuery::AllBalances {
        address: address.to_string(),
    }))
    .unwrap()
}

#[test]
fn amount_in_sums_one_denomination() {
    let coins = [coin(3, "a"), coin(10, "b"), coin(4, "a"), coin(0, "a")];
    assert_eq!(amount_in(&coins, &String::from("a")), Some(7));
    assert_eq!(amount_in(&coins, &String::from("b")), Some(10));
    assert_eq!(amount_in(&coins, &String::from("c")), Some(0));
    assert_eq!(amount_in(&[], &String::from("a")), Some(0));
}

#[test]
fn amount_in_tells_when_the_sum_does_not_fit() {
    let fits = [coin(u128::MAX - 1, "a"), coin(1, "a"), coin(5, "b")];
    assert_eq!(amount_in(&fits, &String::from("a")), Some(u128::MAX));

    let over = [coin(u128::MAX, "a"), coin(5, "b"), coin(1, "a")];
    assert_eq!(amount_in(&over, &String::from("a")), None);
    assert_eq!(amount_in(&over, &String::from("b")), Some(5));
}

#[test]
fn last_entry_of_an_address_is_the_kept_one() {
    let one = [coin(1, "a")];
    let seed: [(&str, &[Coin]); 4] = [("x", &one), ("y", &one), ("x", &one), ("z", &one)];
    assert!(!is_kept_entry(&seed, 0));
    assert!(is_kept_entry(&seed, 1));
    assert!(is_kept_entry(&seed, 2));
    assert!(is_kept_entry(&seed, 3));
}

#[test]
fn supply_counts_kept_entries_only() {
    let first = [coin(100, "a"), coin(1, "b")];
    let second = [coin(20, "a")];
    let third = [coin(3, "a"), coin(2, "b"), coin(4, "a")];
    let seed: [(&str, &[Coin]); 3] = [("x", &first), ("y", &second), ("x", &third)];
    assert_eq!(supply_of(&seed, &String::from("a")), Some(27));
    assert_eq!(supply_of(&seed, &String::from("b")), Some(2));
    assert_eq!(supply_of(&seed, &String::from("c")), Some(0));
    assert_eq!(supply_of(&[], &String::from("a")), Some(0));
}

#[test]
fn supply_tells_when_it_does_not_fit() {
    let most = [coin(u128::MAX, "a")];
    let one = [coin(1, "a"), coin(1, "b")];
    let seed: [(&str, &[Coin]); 2] = [("x", &most), ("y", &one)];
    assert_eq!(supply_of(&seed, &String::from("a")), None);
    assert_eq!(supply_of(&seed, &String::from("b")), Some(1));
    assert!(!supplies_fit_in(&seed));
}

#[test]
fn supplies_fit_denomination_by_denomination() {
    let first = [coin(u128::MAX, "a"), coin(u128::MAX - 1, "b")];
    let second = [coin(1, "b")];
    let seed: [(&str, &[Coin]); 2] = [("x", &first), ("y", &second)];
    assert!(supplies_fit_in(&seed));
    assert!(supplies_fit_in(&[]));

    let third = [coin(1, "b")];
    let seed: [(&str, &[Coin]); 3] = [("x", &first), ("y", &second), ("z", &third)];
    assert!(!supplies_fit_in(&seed));
}

#[test]
fn replaced_entries_do_not_count_towards_the_supply() {
    let most = [coin(u128::MAX, "a")];
    let seed: [(&str, &[Coin]); 2] = [("x", &most), ("x", &most)];
    assert!(supplies_fit_in(&seed));
    assert_eq!(supply_of(&seed, &String::from("a")), Some(u128::MAX));

    let simulator = LocalSimulator::new(&seed);
    assert_eq!(
        simulator.raw_query(&all_balances_wire("x")),
        Ok(Ok(format!("{{\"amount\":[{{\"denom\":\"a\",\"amount\":\"{}\"}}]}}", u128::MAX)
            .into_bytes()))
    );
}

#[test]
fn simulator_keeps_the_last_entry_of_an_address() {
    let early = [coin(1, "a")];
    let late = [coin(2, "b"), coin(3, "a")];
    let seed: [(&str, &[Coin]); 2] = [("x", &early), ("x", &late)];
    let simulator = LocalSimulator::new(&seed);
    assert_eq!(
        simulator.raw_query(&all_balances_wire("x")),
        Ok(Ok(b"{\"amount\":[{\"denom\":\"b\",\"amount\":\"2\"},{\"denom\":\"a\",\"amount\":\"3\"}]}"
            .to_vec()))
    );
}

#[test]
fn simulator_built_at_the_limit_of_a_supply() {
    let first = [coin(u128::MAX - 7, "a")];
    let second = [coin(7, "a")];
    let seed: [(&str, &[Coin]); 2] = [("x", &first), ("y", &second)];
    assert!(supplies_fit_in(&seed));
    let simulator = LocalSimulator::new(&seed);
    assert_eq!(
        simulator.raw_query(&all_balances_wire("y")),
        Ok(Ok(b"{\"amount\":[{\"denom\":\"a\",\"amount\":\"7\"}]}".to_vec()))
    );
}

#[test]
fn base64_round_trip_returns_the_bytes() {
    let every_byte: Vec<u8> = (0..=255).collect();
    for length in 0..=every_byte.len() {
        assert_eq!(round_trip(&every_byte[..length]), every_byte[..length].to_vec());
    }
    assert_eq!(round_trip(b"{\"balance\":\"42\"}"), b"{\"balance\":\"42\"}".to_vec());
}
