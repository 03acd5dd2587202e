use hashchain::block::{meets_difficulty, Block, MineOutcome};
use hashchain::chain::{Blockchain, DEFAULT_ATTEMPT_CAP, DEFAULT_DIFFICULTY};
use hashchain::encoding::{push_decimal, to_lower_hex};

fn fixed_block(data: &str) -> Block {
    Block::with_timestamp(1, String::new(), data.to_string(), 1700000000)
}

fn is_lower_hex_64(s: &str) -> bool {
    s.len() == 64 && s.chars().all(|c| c.is_ascii_digit() || ('a'..='f').contains(&c))
}

#[test]
fn decimal_rendering() {
    let mut s = String::from("x");
    push_decimal(&mut s, 0);
    assert_eq!(s, "x0");
    let mut s = String::new();
    push_decimal(&mut s, 1234567890);
    assert_eq!(s, "1234567890");
    let mut s = String::new();
    push_decimal(&mut s, u64::MAX);
    assert_eq!(s, "18446744073709551615");
}

#[test]
fn hex_rendering() {
    assert_eq!(to_lower_hex(&[]), "");
    assert_eq!(to_lower_hex(&[0x00, 0x0f, 0xab, 0xff, 0x10]), "000fabff10");
}

#[test]
fn difficulty_check() {
    assert!(!meets_difficulty(&String::new(), 0));
    assert!(meets_difficulty(&"abc".to_string(), 0));
    assert!(meets_difficulty(&"00ab".to_string(), 2));
    assert!(!meets_difficulty(&"00ab".to_string(), 3));
    assert!(!meets_difficulty(&"0a0b".to_string(), 2));
    assert!(!meets_difficulty(&"00".to_string(), 5));
}

#[test]
fn new_block_is_unmined() {
    let b = Block::new(3, "prev".to_string(), "payload".to_string());
    assert_eq!(b.index, 3);
    assert_eq!(b.previous_hash, "prev");
    assert_eq!(b.data, "payload");
    assert_eq!(b.nonce, 0);
    assert_eq!(b.hash, "");
}

#[test]
fn digest_of_canonical_text() {
    let b = Block::with_timestamp(0, String::new(), String::new(), 0);
    assert_eq!(
        b.calculate_hash(),
        "2ac9a6746aca543af8dff39894cfe8173afba21eb01c6fae33d52947222855ef"
    );
    let mut b = Block::with_timestamp(7, "abc".to_string(), "Send A to B".to_string(), 1700000000);
    b.nonce = 42;
    assert_eq!(
        b.calculate_hash(),
        "a7984e496c2238ad83e87586acbeb3008a36484d3bcdb1b3367a97b7194f2588"
    );
}

#[test]
fn digest_of_non_ascii_payload() {
    let b = Block::with_timestamp(3, "prev".to_string(), "héllo ✓".to_string(), 1000);
    assert_eq!(
        b.calculate_hash(),
        "848d03d392be2575e49074425b415b24935c2c32c6636b3c789cca1708b2f6ab"
    );
}

#[test]
fn digest_is_deterministic() {
    let a = fixed_block("payload");
    let mut b = fixed_block("payload");
    b.hash = "something else".to_string();
    let first = a.calculate_hash();
    assert_eq!(first, a.calculate_hash());
    assert_eq!(first, b.calculate_hash());
    assert!(is_lower_hex_64(&first));
}

#[test]
fn search_finds_first_conforming_nonce() {
    let mut b = fixed_block("payload");
    assert_eq!(b.mine_block(1, 100), MineOutcome::Found);
    assert_eq!(b.nonce, 14);
    assert_eq!(b.hash, "073e8b2168aa71d819ce991ce72ee702992cb95c75f314bd992dc85eb0952b4e");

    let mut b = fixed_block("payload");
    assert_eq!(b.mine_block(2, 1000), MineOutcome::Found);
    assert_eq!(b.nonce, 539);
    assert!(b.hash.starts_with("00"));
    assert_eq!(b.hash, b.calculate_hash());
}

#[test]
fn search_gives_up_after_cap() {
    let mut b = fixed_block("payload");
    assert_eq!(b.mine_block(2, 10), MineOutcome::GaveUp);
    assert_eq!(b.nonce, 10);
    assert_eq!(b.hash, "1db94a227a5914957be5e66d637c0cf1ae8b1ccd458f226670df5c5e40b34105");
    assert_eq!(b.hash, b.calculate_hash());
}

#[test]
fn search_give_up_counts_from_starting_nonce() {
    let mut b = fixed_block("payload");
    b.nonce = 5;
    assert_eq!(b.mine_block(2, 10), MineOutcome::GaveUp);
    assert_eq!(b.nonce, 15);
    assert_eq!(b.hash, "39e1ff2359e19efe1449959a53182a185ea9935832dd1d8ec743b6383c4d4f3d");
}

#[test]
fn search_with_zero_difficulty_stops_at_once() {
    let mut b = fixed_block("payload");
    assert_eq!(b.mine_block(0, 100), MineOutcome::Found);
    assert_eq!(b.nonce, 0);
    assert_eq!(b.hash, b.calculate_hash());
}

#[test]
fn search_with_zero_cap_makes_one_attempt() {
    let mut b = fixed_block("payload");
    assert_eq!(b.mine_block(2, 0), MineOutcome::GaveUp);
    assert_eq!(b.nonce, 0);
    assert_eq!(b.hash, b.calculate_hash());
}

#[test]
fn search_with_unreachable_difficulty_gives_up() {
    let mut b = fixed_block("payload");
    assert_eq!(b.mine_block(65, 3), MineOutcome::GaveUp);
    assert_eq!(b.nonce, 3);
}

#[test]
fn genesis_record() {
    let c = Blockchain::new(2, 100);
    assert_eq!(c.get_total_blocks(), 1);
    assert_eq!(c.difficulty(), 2);
    assert_eq!(c.attempt_cap(), 100);
    let g = &c.blocks()[0];
    assert_eq!(g.index, 0);
    assert_eq!(g.previous_hash, "");
    assert_eq!(g.data, "Genesis Block");
    assert!(is_lower_hex_64(&g.hash));
    assert_eq!(g.hash, g.calculate_hash());
    // Either the search found a conforming digest within the cap, or it gave
    // up at the cap with a non-conforming one.
    if g.hash.starts_with("00") {
        assert!(g.nonce <= 100);
    } else {
        assert_eq!(g.nonce, 100);
    }
}

#[test]
fn append_links_to_genesis() {
    let mut c = Blockchain::new(DEFAULT_DIFFICULTY, DEFAULT_ATTEMPT_CAP);
    let genesis_hash = c.blocks()[0].hash.clone();
    c.add_block(Block::new(1, String::new(), "Send A to B".to_string()));
    assert_eq!(c.get_total_blocks(), 2);
    let b = &c.blocks()[1];
    assert_eq!(b.previous_hash, genesis_hash);
    assert_eq!(b.data, "Send A to B");
    assert_eq!(b.index, 1);
    assert_eq!(b.hash, b.calculate_hash());
}

#[test]
fn append_keeps_linkage_and_grows_by_one() {
    let mut c = Blockchain::new(1, 50);
    for i in 1..6u32 {
        let before = c.get_total_blocks();
        c.add_block(Block::new(i, "ignored".to_string(), format!("record {}", i)));
        assert_eq!(c.get_total_blocks(), before + 1);
    }
    let blocks = c.blocks();
    assert_eq!(blocks.len(), 6);
    for i in 1..blocks.len() {
        assert_eq!(blocks[i].previous_hash, blocks[i - 1].hash);
        assert_eq!(blocks[i].hash, blocks[i].calculate_hash());
        assert!(blocks[i].hash.starts_with('0') || blocks[i].nonce == 50);
    }
}

#[test]
fn append_keeps_caller_index() {
    let mut c = Blockchain::new(0, 5);
    c.add_block(Block::new(9, String::new(), "out of order".to_string()));
    assert_eq!(c.blocks()[1].index, 9);
    assert_eq!(c.blocks()[1].nonce, 0);
}

#[test]
fn append_mines_from_given_nonce() {
    let mut c = Blockchain::new(70, 4);
    let mut b = fixed_block("payload");
    b.nonce = 7;
    c.add_block(b);
    assert_eq!(c.blocks()[0].nonce, 4);
    assert_eq!(c.blocks()[1].nonce, 11);
}

#[test]
fn digest_length_is_fixed() {
    for data in ["", "payload", "héllo ✓"] {
        let b = fixed_block(data);
        assert!(is_lower_hex_64(&b.calculate_hash()));
    }
    let mut b = fixed_block("payload");
    assert_eq!(b.mine_block(2, 3), MineOutcome::GaveUp);
    assert!(is_lower_hex_64(&b.hash));
    assert!(!meets_difficulty(&b.hash, 2));
    let c = Blockchain::new(2, 100);
    assert!(is_lower_hex_64(&c.blocks()[0].hash));
}
