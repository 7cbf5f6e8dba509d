use lichtspiel::splitmix::{SplitMix32, SplitMix64, Splitmix};

#[test]
fn reference() {
    let seed = 1234567u64;
    let mut rng = Splitmix::new(seed);
    let expected = [
        6457827717110365317_u64,
        3203168211198807973_u64,
        9817491932198370423_u64,
        4593380528125082431_u64,
        16408922859458223821_u64,
    ];
    for val in expected.iter() {
        assert_eq!(val, &rng.random())
    }
}

#[test]
fn splitmix_zero_seed() {
    let seed = 0u64;
    let mut rng = Splitmix::new(seed);
    assert_ne!(rng.random(), 0u64);
    assert_ne!(rng.random(), 0u64);
}

#[test]
fn check_first_5() {
    let s = 1234567;
    let mut rng = SplitMix32::with_seed(s);
    assert_eq!(rng.random_u32(), 4101310354);
    assert_eq!(rng.random_u32(), 1937531806);
    assert_eq!(rng.random_u32(), 3079499796);
    assert_eq!(rng.random_u32(), 1553139234);
    assert_eq!(rng.random_u32(), 1247708653);
}

#[test]
fn splitmix32_zero_seed() {
    let s = 0;
    let mut rng32 = SplitMix32::with_seed(s);
    let mut rng64 = SplitMix32::with_seed(s);

    assert_ne!(rng64.random_u32(), 0);
    assert_ne!(rng32.random_u32(), 0);
}

#[test]
fn init() {
    let s = 1234567;
    let mut rng = SplitMix64::with(s);
    assert_eq!(rng.random_u64(), 6457827717110365317);
    assert_eq!(rng.random_u64(), 3203168211198807973);
    assert_eq!(rng.random_u64(), 9817491932198370423);
    assert_eq!(rng.random_u64(), 4593380528125082431);
    assert_eq!(rng.random_u64(), 16408922859458223821);
}

#[test]
fn splitmix64_zero_seed() {
    let s = 0;
    let mut rng32 = SplitMix64::with(s);
    let mut rng64 = SplitMix64::with(s);

    assert_ne!(rng64.random_u64(), 0);
    assert_ne!(rng32.random_u64(), 0);
}

#[test]
fn splitmix32_u64_concatenates_high_first() {
    let mut a = SplitMix32::with_seed(9);
    let mut b = SplitMix32::with_seed(9);
    let high = a.random_u32();
    let low = a.random_u32();
    assert_eq!(b.random_u64(), ((high as u64) << 32) | (low as u64));
}

#[test]
fn splitmix64_u32_takes_high_half() {
    let mut a = SplitMix64::with(3);
    let mut b = SplitMix64::with(3);
    let full = a.random_u64();
    assert_eq!(b.random_u32(), (full >> 32) as u32);
}
