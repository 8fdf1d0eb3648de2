use minter::chain::Env;
use minter::state::TokenPositionMapping;
use minter::tokens::{
    assign_token_ids, cut_seed, draw, find_token, list_positions, number, pick, random_token_list,
    shuffle_positions,
};
use rand_core::SeedableRng;
use sha2::Digest;
use shuffle::shuffler::Shuffler;

fn env_at(height: u64) -> Env {
    Env { height, time: 0, contract: "minter".to_string() }
}

fn at(position: u32, token_id: u32) -> TokenPositionMapping {
    TokenPositionMapping { position, token_id }
}

#[test]
fn numbers_run_from_one() {
    assert_eq!(number(0), Vec::<u32>::new());
    assert_eq!(number(4), vec![1, 2, 3, 4]);
}

#[test]
fn seed_is_the_first_half_of_a_digest() {
    let digest: Vec<u8> = (0u8..32).collect();
    assert_eq!(cut_seed(&digest), [0, 1, 2, 3, 4, 5, 6, 7, 8, 9, 10, 11, 12, 13, 14, 15]);
}

#[test]
fn tokens_are_numbered_in_the_given_order() {
    assert_eq!(assign_token_ids(&vec![3, 1, 2]), vec![at(1, 2), at(2, 3), at(3, 1)]);
    assert_eq!(assign_token_ids(&vec![1]), vec![at(1, 1)]);
    assert_eq!(assign_token_ids(&vec![]), vec![]);
}

#[test]
fn random_list_is_the_shuffle_of_the_seeded_generator() {
    let list = random_token_list(&env_at(12345), number(10)).unwrap();

    let seed: [u8; 16] = [
        28, 107, 205, 103, 153, 96, 153, 181, 48, 218, 148, 211, 63, 28, 252, 20,
    ];
    assert_eq!(sha2::Sha256::digest(b"1234510").to_vec()[0..16].to_vec(), seed.to_vec());
    let mut rng = rand_xoshiro::Xoshiro128PlusPlus::from_seed(seed);
    let mut expected: Vec<u32> = vec![1, 2, 3, 4, 5, 6, 7, 8, 9, 10];
    shuffle::fy::FisherYates::default().shuffle(&mut expected, &mut rng).unwrap();
    assert_eq!(list, expected);
    assert_ne!(list, number(10));

    let mut sorted = list;
    sorted.sort();
    assert_eq!(sorted, number(10));
}

#[test]
fn random_order_ignores_the_values() {
    let indices = random_token_list(&env_at(9), number(20)).unwrap();
    let values: Vec<u32> = (0..20).map(|i| 1000 - (i / 3) * 7).collect();
    let moved = random_token_list(&env_at(9), values.iter().copied().collect()).unwrap();
    let expected: Vec<u32> = indices.iter().map(|i| values[(*i - 1) as usize]).collect();
    assert_eq!(moved, expected);
    assert_ne!(moved, values);
}

#[test]
fn random_list_depends_on_the_block_and_the_length() {
    let here = random_token_list(&env_at(1), number(50)).unwrap();
    let there = random_token_list(&env_at(2), number(50)).unwrap();
    assert_ne!(here, there);
    assert_eq!(random_token_list(&env_at(1), vec![]).unwrap(), Vec::<u32>::new());
    assert_eq!(random_token_list(&env_at(1), vec![7]).unwrap(), vec![7]);
}

#[test]
fn shuffle_exchanges_tokens_one_after_another() {
    let mut table = vec![at(2, 10), at(5, 20), at(9, 30)];
    // 2 with 5: 20 10 30; 5 with 9: 20 30 10; 9 with 2: 10 30 20.
    shuffle_positions(&mut table, &vec![5, 9, 2]);
    assert_eq!(table, vec![at(2, 10), at(5, 30), at(9, 20)]);

    let mut table = vec![at(2, 10), at(5, 20), at(9, 30)];
    shuffle_positions(&mut table, &vec![2, 5, 9]);
    assert_eq!(table, vec![at(2, 10), at(5, 20), at(9, 30)]);

    let mut table = vec![at(2, 10), at(5, 20), at(9, 30)];
    // 2 with 9: 30 20 10; 5 with 5; 9 with 2: 10 20 30.
    shuffle_positions(&mut table, &vec![9, 5, 2]);
    assert_eq!(table, vec![at(2, 10), at(5, 20), at(9, 30)]);
}

#[test]
fn positions_and_tokens_are_found() {
    let table = vec![at(2, 10), at(5, 20), at(9, 20)];
    assert_eq!(list_positions(&table), vec![2, 5, 9]);
    assert_eq!(find_token(&table, 20), Some(1));
    assert_eq!(find_token(&table, 10), Some(0));
    assert_eq!(find_token(&table, 5), None);
}

#[test]
fn drawn_numbers() {
    let buyer = "buyer".to_string();
    assert_eq!(draw(&buyer, 100, 12345), 2_774_166_167);
    assert_eq!(draw(&buyer, 3, 12345), 753_602_874);
    assert_eq!(draw(&"creator".to_string(), 10, 1), 825_493_307);
}

#[test]
fn picks_from_both_ends() {
    assert_eq!(pick(100, 2_774_166_167), 82);
    assert_eq!(pick(1000, 123), 976);
    assert_eq!(pick(1000, 122), 22);
    assert_eq!(pick(1000, 49), 950);
    assert_eq!(pick(1000, 50), 0);
    assert_eq!(pick(3, 7), 1);
    assert_eq!(pick(3, 8), 2);
    assert_eq!(pick(1, u32::MAX), 0);
    for r in 0..500 {
        let index = pick(200, r);
        assert!(index < 50 || (150 <= index && index < 200));
    }
}
