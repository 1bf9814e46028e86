use ashmaize_py::{
    build_salt, candidate_salt, hash, hash_batch, hash_batch_with_params, hash_with_params,
    meets_difficulty, mine_batch, mine_batch_with_seed, nonce_at, nonce_bytes, try_candidate,
    MiningResult, DEFAULT_INSTRUCTIONS, DEFAULT_LOOPS,
};

/// A small deterministic stand-in for the memory-hard engine: mixes the text and tuning.
fn toy_engine(s: &String, loops: u32, instrs: u32) -> [u8; 64] {
    let mut state: u64 = 0xcbf2_9ce4_8422_2325 ^ ((loops as u64) << 32) ^ (instrs as u64);
    for b in s.as_bytes() {
        state ^= *b as u64;
        state = state.wrapping_mul(0x0000_0100_0000_01b3);
    }
    let mut out = [0u8; 64];
    for i in 0..64 {
        state ^= state >> 29;
        state = state.wrapping_mul(0xbf58_476d_1ce4_e5b9);
        out[i] = (state >> 24) as u8;
    }
    out
}

fn prefix(d: &[u8; 64]) -> u32 {
    u32::from_be_bytes([d[0], d[1], d[2], d[3]])
}

fn is_lower_hex(s: &str) -> bool {
    s.chars().all(|c| c.is_ascii_digit() || ('a'..='f').contains(&c))
}

#[test]
fn meets_zero_mask_only_zero_prefix() {
    let mut d = [0u8; 64];
    assert!(meets_difficulty(&d, 0));
    d[3] = 1;
    assert!(!meets_difficulty(&d, 0));
    d = [0u8; 64];
    d[0] = 0x80;
    assert!(!meets_difficulty(&d, 0));
}

#[test]
fn meets_full_mask_accepts_all() {
    let d = [0xffu8; 64];
    assert!(meets_difficulty(&d, 0xFFFF_FFFF));
    let mut e = [0u8; 64];
    e[0] = 0x12;
    e[1] = 0x34;
    assert!(meets_difficulty(&e, 0xFFFF_FFFF));
}

#[test]
fn meets_is_subset_test() {
    let mut d = [0u8; 64];
    d[0] = 0xab;
    d[1] = 0xcd;
    d[2] = 0xef;
    d[3] = 0x00;
    assert!(meets_difficulty(&d, 0xFFFF_FF00));
    d[3] = 0x01;
    assert!(!meets_difficulty(&d, 0xFFFF_FF00));
    // bytes beyond the fourth do not count
    let mut e = [0xffu8; 64];
    e[0] = 0;
    e[1] = 0;
    e[2] = 0;
    e[3] = 0;
    assert!(meets_difficulty(&e, 0));
    // a numerically smaller prefix is not enough: bits must lie inside the mask
    let mut f = [0u8; 64];
    f[3] = 0x02;
    assert!(!meets_difficulty(&f, 0x0000_0005));
    f[3] = 0x04;
    assert!(meets_difficulty(&f, 0x0000_0005));
}

#[test]
fn hash_has_128_lower_hex_chars() {
    let p = String::from("hello");
    let h = hash(&toy_engine, &p);
    assert_eq!(h.len(), 128);
    assert!(is_lower_hex(&h));
    let long = "x".repeat(5000);
    assert_eq!(hash(&toy_engine, &long).len(), 128);
    assert_eq!(hash_with_params(&toy_engine, &String::new(), 1, 1).len(), 128);
}

#[test]
fn hash_is_hex_of_engine_digest() {
    let fixed = |_: &String, _: u32, _: u32| -> [u8; 64] {
        let mut d = [0u8; 64];
        d[0] = 0xab;
        d[1] = 0x01;
        d[63] = 0xf0;
        d
    };
    let h = hash(&fixed, &String::from("anything"));
    let mut expected = String::from("ab01");
    expected.push_str(&"00".repeat(61));
    expected.push_str("f0");
    assert_eq!(h, expected);
}

#[test]
fn hash_is_default_params() {
    for p in ["", "a", "hello", "some longer preimage"] {
        let p = String::from(p);
        assert_eq!(hash(&toy_engine, &p), hash_with_params(&toy_engine, &p, 8, 256));
    }
    assert_eq!(DEFAULT_LOOPS, 8);
    assert_eq!(DEFAULT_INSTRUCTIONS, 256);
    let p = String::from("hello");
    assert_ne!(hash(&toy_engine, &p), hash_with_params(&toy_engine, &p, 2, 256));
}

#[test]
fn hash_twice_is_identical() {
    let p = String::from("hello");
    let a = hash(&toy_engine, &p);
    let b = hash(&toy_engine, &p);
    assert_eq!(a.len(), 128);
    assert_eq!(a, b);
}

#[test]
fn hash_batch_matches_single_hashes() {
    let items = vec![String::from("a"), String::from("b"), String::from("c")];
    let r = hash_batch(&toy_engine, &items);
    assert_eq!(r.len(), 3);
    assert_eq!(r[0], hash(&toy_engine, &items[0]));
    assert_eq!(r[1], hash(&toy_engine, &items[1]));
    assert_eq!(r[2], hash(&toy_engine, &items[2]));
    assert_ne!(r[0], r[1]);
}

#[test]
fn hash_batch_keeps_order_of_many() {
    let items: Vec<String> = (0..500).map(|i| format!("item-{}", i)).collect();
    let r = hash_batch_with_params(&toy_engine, &items, 3, 64);
    assert_eq!(r.len(), items.len());
    for i in 0..items.len() {
        assert_eq!(r[i], hash_with_params(&toy_engine, &items[i], 3, 64));
    }
}

#[test]
fn hash_batch_of_empty_is_empty() {
    let items: Vec<String> = Vec::new();
    assert!(hash_batch(&toy_engine, &items).is_empty());
}

#[test]
fn nonce_bytes_are_big_endian() {
    assert_eq!(nonce_bytes(0x0102_0304_0506_0708), [1, 2, 3, 4, 5, 6, 7, 8]);
    assert_eq!(nonce_bytes(0), [0; 8]);
    assert_eq!(nonce_bytes(u64::MAX), [0xff; 8]);
}

#[test]
fn nonce_wraps_around() {
    assert_eq!(nonce_at(10, 5), 15);
    assert_eq!(nonce_at(u64::MAX, 0), u64::MAX);
    assert_eq!(nonce_at(u64::MAX, 1), 0);
    assert_eq!(nonce_at(u64::MAX - 1, 4), 2);
}

#[test]
fn salt_is_hex_nonce_then_suffix() {
    assert_eq!(build_salt(0x0102_0304_0506_07ab, "suffix"), "01020304050607absuffix");
    assert_eq!(build_salt(0, ""), "0000000000000000");
    assert_eq!(candidate_salt(0xffff_ffff_ffff_fffe, 3, "x"), "0000000000000001x");
}

#[test]
fn candidate_salts_differ_within_batch() {
    let mut seen = std::collections::HashSet::new();
    for i in 0..2000u32 {
        assert!(seen.insert(candidate_salt(u64::MAX - 1000, i, "p")));
    }
}

#[test]
fn try_candidate_follows_mask() {
    let salt = candidate_salt(7, 3, "abc");
    let d = toy_engine(&salt, 8, 256);
    assert_eq!(try_candidate(&toy_engine, 7, 3, "abc", 0xFFFF_FFFF), Some(salt.clone()));
    let expected = if (prefix(&d) | 0x0000_FFFF) == 0x0000_FFFF { Some(salt) } else { None };
    assert_eq!(try_candidate(&toy_engine, 7, 3, "abc", 0x0000_FFFF), expected);
}

#[test]
fn mine_batch_scenario_mask_ffffff00() {
    let r = mine_batch(&toy_engine, "suffix", 0xFFFF_FF00, 100_000).into_salt();
    if !r.is_empty() {
        assert!(r.ends_with("suffix"));
        assert_eq!(r.len(), 16 + 6);
        let d = toy_engine(&r, 8, 256);
        assert_eq!(prefix(&d) & !0xFFFF_FF00u32, 0);
    }
}

#[test]
fn mine_batch_full_mask_always_finds() {
    match mine_batch(&toy_engine, "suffix", 0xFFFF_FFFF, 10) {
        MiningResult::Found(s) => {
            assert!(s.ends_with("suffix"));
            assert_eq!(s.len(), 22);
            assert!(is_lower_hex(&s[..16]));
        }
        MiningResult::NotFound => panic!("every candidate meets the full mask"),
    }
}

#[test]
fn mine_batch_not_found_is_empty_sentinel() {
    let never = |_: &String, _: u32, _: u32| -> [u8; 64] { [0xffu8; 64] };
    let r = mine_batch(&never, "suffix", 0, 50);
    assert_eq!(r, MiningResult::NotFound);
    assert_eq!(r.into_salt(), "");
    assert_eq!(mine_batch(&toy_engine, "s", 0xFFFF_FFFF, 0), MiningResult::NotFound);
}

#[test]
fn mine_batch_with_seed_returns_a_batch_candidate() {
    let seed: u64 = 12345;
    let r = mine_batch_with_seed(&toy_engine, seed, "tail", 0xF0FF_FFFF, 5000);
    match r {
        MiningResult::Found(s) => {
            let idx = (0..5000u32).find(|i| candidate_salt(seed, *i, "tail") == s);
            assert!(idx.is_some());
            assert_eq!(prefix(&toy_engine(&s, 8, 256)) & !0xF0FF_FFFFu32, 0);
        }
        MiningResult::NotFound => {
            for i in 0..5000u32 {
                let d = toy_engine(&candidate_salt(seed, i, "tail"), 8, 256);
                assert!(!meets_difficulty(&d, 0xF0FF_FFFF));
            }
        }
    }
}

#[test]
fn mine_batch_with_seed_single_candidate() {
    let seed: u64 = 99;
    let salt = candidate_salt(seed, 0, "z");
    let d = toy_engine(&salt, 8, 256);
    let mask = prefix(&d);
    assert_eq!(mine_batch_with_seed(&toy_engine, seed, "z", mask, 1), MiningResult::Found(salt));
    if mask != 0 {
        let tighter = mask & (mask - 1);
        assert_eq!(mine_batch_with_seed(&toy_engine, seed, "z", tighter, 1), MiningResult::NotFound);
    }
}
