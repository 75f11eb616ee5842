use lattice_hash::account::{compute_lt_hash, Account};
use lattice_hash::lthash::LtHash;
use lattice_hash::LTHASH_LEN;

fn pattern_state(seed: u8) -> Vec<u8> {
    (0..LTHASH_LEN)
        .map(|i| (i as u8).wrapping_mul(31).wrapping_add(seed))
        .collect()
}

fn sample_account(tag: u8) -> Account {
    Account {
        lamports: 1_000 + tag as u64,
        data: (0..128).map(|i| (i as u8).wrapping_add(tag)).collect(),
        is_executable: tag % 2,
        owner: (0..32).map(|i| (i as u8).wrapping_mul(3).wrapping_add(tag)).collect(),
        pubkey: bs58::encode((0..32).map(|i| (i as u8) ^ tag).collect::<Vec<u8>>()).into_string(),
    }
}

#[test]
fn expand_deterministic() {
    let mut a = LtHash::new();
    a.init();
    a.append(b"hello");
    a.append(b" world");
    let ea = a.fini();

    let mut b = LtHash::new();
    b.init();
    b.append(b"hello");
    b.append(b" world");
    let eb = b.fini();

    assert_eq!(ea, eb);
}

#[test]
fn expand_is_a_stream_digest() {
    // The element depends only on the concatenated byte stream, not on the
    // chunk boundaries it arrived with.
    let mut a = LtHash::new();
    a.init();
    a.append(b"hello world");
    let ea = a.fini();

    let mut b = LtHash::new();
    b.init();
    b.append(b"hel");
    b.append(b"lo ");
    b.append(b"world");
    let eb = b.fini();

    assert_eq!(ea, eb);
}

#[test]
fn width_invariant() {
    for input in [
        Vec::new(),
        vec![0u8],
        (0..128).map(|i| i as u8).collect::<Vec<u8>>(),
        (0..4096).map(|i| (i % 251) as u8).collect::<Vec<u8>>(),
    ] {
        let mut h = LtHash::new();
        h.init();
        h.append(&input);
        let element = h.fini();
        assert_eq!(element.len(), LTHASH_LEN);
    }
}

#[test]
fn group_inverse() {
    let s = pattern_state(7);
    let e = pattern_state(42);
    let added = LtHash::add(&s, &e);
    assert_eq!(LtHash::sub(&added, &e), s);
    let subtracted = LtHash::sub(&s, &e);
    assert_eq!(LtHash::add(&subtracted, &e), s);
}

#[test]
fn lane_arithmetic_exact_values() {
    let mut a = vec![0u8; LTHASH_LEN];
    let mut b = vec![0u8; LTHASH_LEN];
    a[0] = 200;
    b[0] = 100;
    a[1] = 1;
    b[1] = 2;
    b[2] = 1;

    let sum = LtHash::add(&a, &b);
    assert_eq!(sum[0], 44); // 200 + 100 wraps mod 256
    assert_eq!(sum[1], 3);
    assert_eq!(sum[2], 1);
    assert_eq!(&sum[3..], &vec![0u8; LTHASH_LEN - 3][..]);

    let diff = LtHash::sub(&a, &b);
    assert_eq!(diff[0], 100);
    assert_eq!(diff[1], 255); // 1 - 2 wraps mod 256
    assert_eq!(diff[2], 255); // 0 - 1 wraps mod 256
}

#[test]
fn commutativity_and_associativity() {
    let a = pattern_state(1);
    let b = pattern_state(2);
    let c = pattern_state(3);

    assert_eq!(LtHash::add(&a, &b), LtHash::add(&b, &a));
    assert_eq!(
        LtHash::add(&LtHash::add(&a, &b), &c),
        LtHash::add(&a, &LtHash::add(&b, &c))
    );
    assert_eq!(
        LtHash::add(&LtHash::add(&a, &b), &c),
        LtHash::add(&LtHash::add(&c, &b), &a)
    );
}

#[test]
fn identity_laws() {
    let e = pattern_state(99);
    assert_eq!(LtHash::add(&LtHash::identity(), &e), e);
    assert_eq!(LtHash::sub(&e, &e), LtHash::identity());
    assert_eq!(LtHash::identity(), vec![0u8; LTHASH_LEN]);
}

#[test]
fn zero_balance_is_identity() {
    let mut account = sample_account(5);
    account.lamports = 0;
    // A closed record contributes nothing: exactly the identity element,
    // never the expansion of its remaining fields.
    assert_eq!(compute_lt_hash(&account), vec![0u8; LTHASH_LEN]);
}

#[test]
fn nonzero_balance_is_not_identity() {
    let account = sample_account(5);
    assert_ne!(compute_lt_hash(&account), vec![0u8; LTHASH_LEN]);
}

#[test]
fn checksum_format() {
    let state = pattern_state(17);
    let checksum = LtHash::out(&state);
    assert_eq!(checksum.len(), 32);
    for c in checksum.chars() {
        assert!(c.is_ascii_hexdigit());
        assert!(!c.is_ascii_uppercase());
    }
}

#[test]
fn checksum_reads_the_whole_state() {
    // Two states equal in their first bytes but different further on must
    // not share a checksum: the short digest covers all LTHASH_LEN bytes.
    let a = vec![0u8; LTHASH_LEN];
    let mut b = vec![0u8; LTHASH_LEN];
    b[LTHASH_LEN - 1] = 1;
    assert_ne!(LtHash::out(&a), LtHash::out(&b));
}

#[test]
fn every_field_changes_the_element() {
    let base = sample_account(9);
    let base_element = compute_lt_hash(&base);

    let mut changed = sample_account(9);
    changed.lamports += 1;
    assert_ne!(compute_lt_hash(&changed), base_element);

    let mut changed = sample_account(9);
    changed.data[0] = changed.data[0].wrapping_add(1);
    assert_ne!(compute_lt_hash(&changed), base_element);

    let mut changed = sample_account(9);
    changed.is_executable = 1 - changed.is_executable;
    assert_ne!(compute_lt_hash(&changed), base_element);

    let mut changed = sample_account(9);
    changed.owner[31] = changed.owner[31].wrapping_add(1);
    assert_ne!(compute_lt_hash(&changed), base_element);

    let mut changed = sample_account(9);
    changed.pubkey.push('x');
    assert_ne!(compute_lt_hash(&changed), base_element);
}
