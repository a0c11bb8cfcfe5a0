use rand_core::{RngCore, SeedableRng};
use splitmix::generator::{SMGen, SeedError};
use splitmix::mix::{
    count_ones, mix64, mix64_variant_13, mix_gamma, shift_xor, shift_xor_mult, GOLDEN_GAMMA,
};
use splitmix::wrapper::SMGenClone;

#[test]
fn shift_xor_values() {
    assert_eq!(shift_xor(4, 0xf0), 0xff);
    assert_eq!(shift_xor(65, 0x10), 0x18);
    assert_eq!(shift_xor(33, 0), 0);
}

#[test]
fn shift_xor_mult_value() {
    assert_eq!(
        shift_xor_mult(33, 0xff51afd7ed558ccd, 1 << 40),
        0xfe64b8f6aac66680
    );
}

#[test]
fn mixers_values() {
    assert_eq!(mix64(0), 0);
    assert_eq!(mix64(1), 0xb456bcfd0644ecaa);
    assert_eq!(mix64_variant_13(1), 0x5692161d100b05e5);
}

#[test]
fn count_ones_values() {
    assert_eq!(count_ones(0), 0);
    assert_eq!(count_ones(u64::MAX), 64);
    assert_eq!(count_ones(0xf0f0), 8);
}

#[test]
fn mix_gamma_corrects_poor_candidate() {
    // the candidate for 0 is 1, with a single bit transition
    assert_eq!(mix_gamma(0), 0xaaaaaaaaaaaaaaab);
}

#[test]
fn mix_gamma_keeps_good_candidate() {
    assert_eq!(mix_gamma(GOLDEN_GAMMA), 0xe220a8397b1dcdaf);
}

#[test]
fn seed_zero_reference_vector() {
    let g = SMGen::seed_from_u64(0);
    assert_eq!(g.seed(), 0);
    assert_eq!(g.gamma(), 0xe220a8397b1dcdaf);
}

#[test]
fn seed_forty_two_five_draws() {
    let mut g = SMGen::seed_from_u64(42);
    let seed0 = g.seed();
    let gamma = g.gamma();
    assert_eq!(seed0, 0x81087961ccd697bd);
    assert_eq!(gamma, 0xbdd732262feb6e95);
    let expected: [u64; 5] = [
        0x3edfab87fcc20652,
        0xfcb6ddae2cad74e7,
        0xba8e0fd45c98e37c,
        0x786541fa8c845211,
        0x363c7420bc6fc0a6,
    ];
    for (i, e) in expected.iter().enumerate() {
        let w = g.next_u64();
        assert_eq!(w, *e);
        assert_eq!(w, seed0.wrapping_add((i as u64 + 1).wrapping_mul(gamma)));
    }
}

#[test]
fn same_seed_same_stream() {
    for s in [0u64, 1, 42, u64::MAX] {
        let mut a = SMGen::seed_from_u64(s);
        let mut b = SMGen::seed_from_u64(s);
        for _ in 0..100 {
            assert_eq!(a.next_u64(), b.next_u64());
        }
    }
}

#[test]
fn gamma_odd_and_dispersed() {
    for s in (0u64..2000).chain([u64::MAX, GOLDEN_GAMMA.wrapping_neg()]) {
        let g = SMGen::seed_from_u64(s);
        let gamma = g.gamma();
        assert_eq!(gamma & 1, 1);
        assert!((gamma ^ (gamma >> 1)).count_ones() >= 24);
    }
}

#[test]
fn two_draws_advance_by_twice_gamma() {
    let mut g = SMGen::seed_from_u64(1);
    let seed0 = g.seed();
    let gamma = g.gamma();
    g.next_u64();
    let w = g.next_u64();
    assert_eq!(w, seed0.wrapping_add(gamma.wrapping_mul(2)));
    assert_eq!(w, 0xd66b18d61849a62c);
}

#[test]
fn next_u32_is_high_half() {
    let mut g = SMGen::seed_from_u64(42);
    assert_eq!(g.next_u32(), 0x3edfab87);
    assert_eq!(g.next_u32(), 0xfcb6ddae);
}

#[test]
fn split_values() {
    let mut g = SMGen::seed_from_u64(7);
    let gamma = g.gamma();
    let child = g.split();
    assert_eq!(child.seed(), 0x9717bd9c2ea65ea9);
    assert_eq!(child.gamma(), 0xacd6b4095162dd67);
    assert_eq!(g.seed(), 0x3b9eed93e8c9325d);
    assert_eq!(g.gamma(), gamma);
}

#[test]
fn split_twice_on_copies_agrees() {
    let base = SMGen::seed_from_u64(99);
    let mut a = base.clone();
    let mut b = base.clone();
    for _ in 0..4 {
        let ca = a.split();
        let cb = b.split();
        assert_eq!(ca, cb);
        assert_eq!(a, b);
    }
}

#[test]
fn split_moves_parent_by_twice_gamma() {
    for s in [0u64, 3, 42, u64::MAX] {
        let mut g = SMGen::seed_from_u64(s);
        let before = g.seed();
        let gamma = g.gamma();
        let child = g.split();
        assert_eq!(g.seed(), before.wrapping_add(gamma.wrapping_mul(2)));
        assert_eq!(g.gamma(), gamma);
        assert_eq!(child.gamma() & 1, 1);
        assert_ne!(child, g);
    }
}

#[test]
fn fill_whole_words_matches_draws() {
    let mut a = SMGen::seed_from_u64(42);
    let mut b = SMGen::seed_from_u64(42);
    let mut buf = [0u8; 40];
    a.fill_bytes(&mut buf);
    let mut expected = Vec::new();
    for _ in 0..5 {
        expected.extend_from_slice(&b.next_u64().to_le_bytes());
    }
    assert_eq!(buf.to_vec(), expected);
    assert_eq!(a, b);
}

#[test]
fn fill_sixteen_bytes_exact() {
    let mut g = SMGen::seed_from_u64(42);
    let mut buf = [0u8; 16];
    g.fill_bytes(&mut buf);
    assert_eq!(
        buf,
        [82, 6, 194, 252, 135, 171, 223, 62, 231, 116, 173, 44, 174, 221, 182, 252]
    );
}

#[test]
fn fill_tail_of_six_uses_low_bytes() {
    let mut g = SMGen::seed_from_u64(42);
    let mut buf = [0u8; 22];
    g.fill_bytes(&mut buf);
    assert_eq!(&buf[16..], &[124, 227, 152, 92, 212, 15]);
    assert_eq!(g.seed(), 0xba8e0fd45c98e37c);
}

#[test]
fn fill_tail_of_three_uses_high_half() {
    let mut g = SMGen::seed_from_u64(42);
    let mut buf = [0u8; 19];
    g.fill_bytes(&mut buf);
    assert_eq!(&buf[16..], &[212, 15, 142]);
    assert_eq!(g.seed(), 0xba8e0fd45c98e37c);
}

#[test]
fn fill_empty_draws_nothing() {
    let mut g = SMGen::seed_from_u64(5);
    let before = g.clone();
    let mut buf: [u8; 0] = [];
    g.fill_bytes(&mut buf);
    assert_eq!(g, before);
}

#[test]
fn try_fill_bytes_succeeds() {
    let mut a = SMGen::seed_from_u64(8);
    let mut b = SMGen::seed_from_u64(8);
    let mut x = [0u8; 13];
    let mut y = [0u8; 13];
    assert!(a.try_fill_bytes(&mut x).is_ok());
    b.fill_bytes(&mut y);
    assert_eq!(x, y);
}

#[test]
fn from_seed_matches_seed_from_u64() {
    let bytes: [u8; 8] = [1, 2, 3, 4, 5, 6, 7, 8];
    let g = SMGen::from_seed(bytes);
    assert_eq!(g, SMGen::seed_from_u64(u64::from_le_bytes(bytes)));
    assert_eq!(g.seed(), 0x9b57670d1b21778d);
    assert_eq!(g.gamma(), 0x2b9b24bd81caf33);
}

#[test]
fn from_bytes_accepts_eight() {
    let bytes = [9u8, 0, 0, 0, 0, 0, 0, 0x80];
    let g = SMGen::from_bytes(&bytes).unwrap();
    assert_eq!(g, SMGen::seed_from_u64(0x8000_0000_0000_0009));
}

#[test]
fn from_bytes_rejects_other_lengths() {
    assert_eq!(SMGen::from_bytes(&[]), Err(SeedError::InvalidSeedLength));
    assert_eq!(SMGen::from_bytes(&[1; 7]), Err(SeedError::InvalidSeedLength));
    assert_eq!(SMGen::from_bytes(&[1; 9]), Err(SeedError::InvalidSeedLength));
}

#[test]
fn trait_methods_agree_with_inherent() {
    let mut a: SMGen = SeedableRng::seed_from_u64(42);
    let mut b = SMGen::seed_from_u64(42);
    assert_eq!(RngCore::next_u64(&mut a), b.next_u64());
    assert_eq!(RngCore::next_u32(&mut a), b.next_u32());
    let mut x = [0u8; 11];
    let mut y = [0u8; 11];
    RngCore::fill_bytes(&mut a, &mut x);
    b.fill_bytes(&mut y);
    assert_eq!(x, y);
    let c: SMGen = SeedableRng::from_seed([3; 8]);
    assert_eq!(c, SMGen::from_seed([3; 8]));
}

#[test]
fn handle_split_matches_generator_split() {
    let mut h = SMGenClone::seed_from_u64(7);
    let mut g = SMGen::seed_from_u64(7);
    let child = h.split();
    let expected = g.split();
    assert_eq!(child.into_inner(), expected);
    assert_eq!(h.into_inner(), g);
}

#[test]
fn handle_draws_match_generator() {
    let mut h = SMGenClone::from_seed([1, 2, 3, 4, 5, 6, 7, 8]);
    let mut g = SMGen::from_seed([1, 2, 3, 4, 5, 6, 7, 8]);
    assert_eq!(h.next_u64(), g.next_u64());
    assert_eq!(h.next_u32(), g.next_u32());
    let mut x = [0u8; 21];
    let mut y = [0u8; 21];
    assert!(h.try_fill_bytes(&mut x).is_ok());
    g.fill_bytes(&mut y);
    assert_eq!(x, y);
    let mut w = SMGenClone::new(SMGen::seed_from_u64(4));
    let mut z = [0u8; 5];
    RngCore::fill_bytes(&mut w, &mut z);
    assert_ne!(z, [0u8; 5]);
}
