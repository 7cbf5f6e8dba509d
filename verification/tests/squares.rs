use lichtspiel::squares::Squares;

#[test]
fn non_zero_seed_at_default() {
    let rng = Squares::default();
    assert_ne!(rng.key, 0)
}

#[test]
fn non_zero_key() {
    let rng = Squares::with(0, 0);
    assert_ne!(rng.key, 0)
}

#[test]
fn reference_u64() {
    let key = 0x548c9decbce65297_u64;
    let ctr = 0_u64;
    let mut rng = Squares::with(ctr, key);
    let expected = [
        0x36d88366cee633a5_u64,
        0x944716e00e60dfaa_u64,
        0xc8a8f4e0678654bf_u64,
        0x35cc666aab11c80d_u64,
        0x7094eab1cbae8747_u64,
        0xa2a1b6f56e92a96f_u64,
        0xd884957d48007552_u64,
        0xe61f37b97d593453_u64,
        0xe4d45c4762b10dad_u64,
        0xb0dbd071f201dd2a_u64,
    ];
    for exp in expected.iter() {
        let r: u64 = rng.random();
        println!("{:x} v {:x}", r, exp);
        assert_eq!(r, *exp)
    }
}

#[test]
fn reference_u32() {
    let key = 0x548c9decbce65297_u64;
    let ctr = 0_u64;
    let mut rng = Squares::with(ctr, key);
    let expected = [
        0x36d88366_u32,
        0x944716e0_u32,
        0xc8a8f4e0_u32,
        0x35cc666a_u32,
        0x7094eab1_u32,
        0xa2a1b6f5_u32,
        0xd884957d_u32,
        0xe61f37b9_u32,
        0xe4d45c47_u32,
        0xb0dbd071_u32,
    ];
    for exp in expected.iter() {
        let r: u32 = rng.random_u32();
        println!("{:x} v {:x}", r, exp);
        assert_eq!(r, *exp)
    }
}

#[test]
fn test_example_runs_u64() {
    let key = 0x548c9decbce65297_u64;
    let ctr = 0_u64;
    let mut rng = Squares::new(ctr, key);
    let expected = [
        0x36d88366cee633a5_u64,
        0x944716e00e60dfaa_u64,
        0xc8a8f4e0678654bf_u64,
        0x35cc666aab11c80d_u64,
        0x7094eab1cbae8747_u64,
        0xa2a1b6f56e92a96f_u64,
        0xd884957d48007552_u64,
        0xe61f37b97d593453_u64,
        0xe4d45c4762b10dad_u64,
        0xb0dbd071f201dd2a_u64,
    ];
    for exp in expected.iter() {
        let r = rng.random_u64();
        println!("{:x} v {:x}", r, exp);
        assert_eq!(r, *exp)
    }
}

#[test]
fn test_example_runs_u32() {
    let key = 0x548c9decbce65297_u64;
    let ctr = 0_u64;
    let mut rng = Squares::new(ctr, key);
    let expected = [
        0x36d88366_u32,
        0x944716e0_u32,
        0xc8a8f4e0_u32,
        0x35cc666a_u32,
        0x7094eab1_u32,
        0xa2a1b6f5_u32,
        0xd884957d_u32,
        0xe61f37b9_u32,
        0xe4d45c47_u32,
        0xb0dbd071_u32,
    ];
    for exp in expected.iter() {
        let r = rng.random_u32();
        println!("{:x} v {:x}", r, exp);
        assert_eq!(r, *exp)
    }
}

#[test]
fn check_equality() {
    let rngd = Squares::default();
    let rng1 = Squares::with_seed(0);
    let rng2 = Squares::new(0, 0);
    let rng3 = Squares::new(0, 4);
    assert_eq!(rngd, rng1);
    assert_eq!(rng1, rng2);
    assert_ne!(rng2, rng3);
}

#[test]
fn set_stream_moves_the_key() {
    let mut rng = Squares::with(5, 7);
    rng.set_stream(11);
    assert_eq!(rng.key, 11);
    assert_eq!(rng.ctr, 5);
}
