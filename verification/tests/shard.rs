use control_plane_worker::shard::{djb2_hash, get_max_shards, shard_for_attempt};

#[test]
fn addresses_are_hashed() {
    assert_eq!(djb2_hash(""), 5381);
    assert_eq!(djb2_hash("a"), 177670);
    assert_eq!(djb2_hash("0.0.0.0"), 3782668911);
    assert_eq!(djb2_hash("203.0.113.7"), 1072318432);
    assert_eq!(djb2_hash("\u{e9}"), 5866513);
}

#[test]
fn the_number_of_shards_is_configured() {
    assert_eq!(get_max_shards(None), 250);
    assert_eq!(get_max_shards(Some("")), 250);
    assert_eq!(get_max_shards(Some("many")), 250);
    assert_eq!(get_max_shards(Some("-1")), 250);
    assert_eq!(get_max_shards(Some(" 8")), 250);
    assert_eq!(get_max_shards(Some("4294967296")), 250);
    assert_eq!(get_max_shards(Some("8")), 8);
    assert_eq!(get_max_shards(Some("+8")), 8);
    assert_eq!(get_max_shards(Some("0")), 0);
    assert_eq!(get_max_shards(Some("4294967295")), u32::MAX);
}

#[test]
fn attempts_go_round_once() {
    for start in [0, 3, 4, 7, u32::MAX] {
        let mut seen: Vec<u32> = (0..5).map(|a| shard_for_attempt(start, a, 5)).collect();
        assert_eq!(seen[0], start % 5);
        assert_eq!(seen[1], (seen[0] + 1) % 5);
        seen.sort();
        assert_eq!(seen, vec![0, 1, 2, 3, 4]);
    }
}

#[test]
fn large_shard_numbers_do_not_overflow() {
    let max = u32::MAX;
    assert_eq!(shard_for_attempt(max - 1, 1, max), 0);
    assert_eq!(shard_for_attempt(max - 1, max - 1, max), max - 2);
}
