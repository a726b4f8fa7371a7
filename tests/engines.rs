use small_rngs::{
    BitGenerator, MswsRng, MwpRng, PcgXsh64LcgRng, PcgXsl128McgRng, PcgXsl64LcgRng, Xsm32Rng,
    Xsm64Rng,
};

fn seq16() -> [u8; 16] {
    let mut s = [0u8; 16];
    for i in 0..16 {
        s[i] = (i + 1) as u8;
    }
    s
}

fn seq12() -> [u8; 12] {
    let mut s = [0u8; 12];
    for i in 0..12 {
        s[i] = (i + 1) as u8;
    }
    s
}

fn seq24() -> [u8; 24] {
    let mut s = [0u8; 24];
    for i in 0..24 {
        s[i] = (i + 1) as u8;
    }
    s
}

fn seed_from_words(a: u64, b: u64) -> [u8; 16] {
    let mut s = [0u8; 16];
    s[..8].copy_from_slice(&a.to_le_bytes());
    s[8..].copy_from_slice(&b.to_le_bytes());
    s
}

fn msws_seq() -> MswsRng {
    MswsRng::try_from_seed(seq16()).expect("seed accepted")
}

#[test]
fn msws_golden() {
    let mut rng = msws_seq();
    assert_eq!(rng.next_u32(), 0xc3de1059);
    assert_eq!(rng.next_u32(), 0x30cc2aba);
    assert_eq!(rng.next_u64(), 0xcf28a127bcfe72a5);
    assert_eq!(rng.next_u64(), 0xe3ae1bf513094b69);
    let mut rng = msws_seq();
    let mut buf = [0u8; 11];
    rng.fill_bytes(&mut buf);
    assert_eq!(buf, [89, 16, 222, 195, 82, 182, 45, 185, 186, 42, 204]);
}

#[test]
fn msws_from_seed_matches_try_from_seed() {
    let mut a = MswsRng::from_seed(seq16());
    let mut b = msws_seq();
    for _ in 0..5 {
        assert_eq!(a.next_u64(), b.next_u64());
    }
}

#[test]
fn msws_rejects_zero_seed() {
    assert!(MswsRng::try_from_seed([0u8; 16]).is_none());
}

#[test]
fn msws_rejects_stream_without_high_bits() {
    assert!(MswsRng::try_from_seed(seed_from_words(0x0000_0000_ffff_fffe, 7)).is_none());
    assert!(MswsRng::try_from_seed(seed_from_words(0x0000_0000_ffff_ffff, 7)).is_none());
}

#[test]
fn msws_accepts_stream_with_a_high_bit() {
    assert!(MswsRng::try_from_seed(seed_from_words(0x0000_0001_0000_0000, 0)).is_some());
    assert!(MswsRng::try_from_seed(seed_from_words(0x8000_0000_0000_0000, 0)).is_some());
}

#[test]
fn msws_stream_word_decision() {
    assert!(!MswsRng::accepts_stream_word(0));
    assert!(!MswsRng::accepts_stream_word(0xffff_ffff));
    assert!(MswsRng::accepts_stream_word(0x1_0000_0000));
    assert!(MswsRng::accepts_stream_word(u64::MAX));
}

#[test]
fn msws_from_words_matches_seed() {
    let s = seq16();
    let first = u64::from_le_bytes([s[0], s[1], s[2], s[3], s[4], s[5], s[6], s[7]]);
    let second = u64::from_le_bytes([s[8], s[9], s[10], s[11], s[12], s[13], s[14], s[15]]);
    let mut a = MswsRng::from_words(first, second);
    let mut b = msws_seq();
    for _ in 0..5 {
        assert_eq!(a.next_u64(), b.next_u64());
    }
}

#[test]
fn pcg_xsh_golden() {
    let mut rng = PcgXsh64LcgRng::from_seed(seq16());
    assert_eq!(rng.next_u32(), 0x4f1f04a0);
    assert_eq!(rng.next_u32(), 0xb43c2576);
    assert_eq!(rng.next_u64(), 0xf0e038aaedabe6d5);
    assert_eq!(rng.next_u64(), 0xe97ce9aeb0cae8e3);
    let mut rng = PcgXsh64LcgRng::from_seed(seq16());
    let mut buf = [0u8; 11];
    rng.fill_bytes(&mut buf);
    assert_eq!(buf, [160, 4, 31, 79, 118, 37, 60, 180, 213, 230, 171]);
}

#[test]
fn pcg_xsh_zero_state_unit_increment() {
    let mut rng = PcgXsh64LcgRng::from_seed(seed_from_words(0, 1));
    assert_eq!(rng.next_u32(), 0);
    assert_eq!(rng.next_u32(), 0xe4c14788);
}

#[test]
fn pcg_xsh_even_increment_is_forced_odd() {
    let mut a = PcgXsh64LcgRng::from_seed(seed_from_words(0, 0));
    let mut b = PcgXsh64LcgRng::from_seed(seed_from_words(0, 1));
    for _ in 0..5 {
        assert_eq!(a.next_u32(), b.next_u32());
    }
}

#[test]
fn pcg_xsl_golden() {
    let mut rng = PcgXsl64LcgRng::from_seed(seq16());
    assert_eq!(rng.next_u32(), 0xc1473500);
    assert_eq!(rng.next_u32(), 0xc39a52be);
    assert_eq!(rng.next_u64(), 0x302028317b21ce35);
    assert_eq!(rng.next_u64(), 0x11405d368929ff24);
    let mut rng = PcgXsl64LcgRng::from_seed(seq16());
    let mut buf = [0u8; 11];
    rng.fill_bytes(&mut buf);
    assert_eq!(buf, [0, 53, 71, 193, 190, 82, 154, 195, 53, 206, 33]);
}

#[test]
fn pcg_xsl_zero_seed() {
    let mut rng = PcgXsl64LcgRng::from_seed([0u8; 16]);
    assert_eq!(rng.next_u32(), 1);
    assert_eq!(rng.next_u32(), 0x60629891);
    assert_eq!(rng.next_u64(), 0xffd0254594a1d88e);
}

#[test]
fn pcg_xsl_128_golden() {
    let mut rng = PcgXsl128McgRng::from_seed(seq16());
    assert_eq!(rng.next_u32(), 0x31066494);
    assert_eq!(rng.next_u32(), 0x55a1dbb6);
    assert_eq!(rng.next_u64(), 0xf2059081c038a751);
    assert_eq!(rng.next_u64(), 0x3cfd9694d73b847f);
    let mut rng = PcgXsl128McgRng::from_seed(seq16());
    let mut buf = [0u8; 11];
    rng.fill_bytes(&mut buf);
    assert_eq!(buf, [148, 100, 6, 49, 151, 197, 95, 0, 182, 219, 161]);
}

#[test]
fn pcg_xsl_128_zero_seed_stays_zero() {
    let mut rng = PcgXsl128McgRng::from_seed([0u8; 16]);
    assert_eq!(rng.next_u64(), 0);
    assert_eq!(rng.next_u32(), 0);
}

#[test]
fn mwp_golden() {
    let mut rng = MwpRng::from_seed(seq16());
    assert_eq!(rng.next_u32(), 0x40601447);
    assert_eq!(rng.next_u32(), 0x3e55de45);
    assert_eq!(rng.next_u64(), 0x5484f2dd6409e50c);
    assert_eq!(rng.next_u64(), 0xa72664ec044711a5);
    let mut rng = MwpRng::from_seed(seq16());
    let mut buf = [0u8; 11];
    rng.fill_bytes(&mut buf);
    assert_eq!(buf, [97, 105, 255, 65, 184, 131, 189, 145, 69, 222, 85]);
}

#[test]
fn mwp_zero_seed() {
    let mut rng = MwpRng::from_seed([0u8; 16]);
    assert_eq!(rng.next_u32(), 0x69c549c4);
    assert_eq!(rng.next_u32(), 0x560aafc9);
    assert_eq!(rng.next_u64(), 0xb2339b0f5b6ed7cf);
}

#[test]
fn mwp_widths_use_different_output_functions() {
    let mut a = MwpRng::from_seed(seq16());
    let mut b = MwpRng::from_seed(seq16());
    assert_eq!(a.next_u32(), 0x40601447);
    assert_eq!(b.next_u64() as u32, 0x41ff6961);
}

#[test]
fn xsm32_golden() {
    let mut rng = Xsm32Rng::from_seed(seq12());
    assert_eq!(rng.next_u32(), 0x96295e09);
    assert_eq!(rng.next_u32(), 0x16c524a7);
    assert_eq!(rng.next_u64(), 0xa10b4825a8a6db5c);
    assert_eq!(rng.next_u64(), 0xdb26bb47bde364dc);
    let mut rng = Xsm32Rng::from_seed(seq12());
    let mut buf = [0u8; 11];
    rng.fill_bytes(&mut buf);
    assert_eq!(buf, [9, 94, 41, 150, 167, 36, 197, 22, 92, 219, 166]);
}

#[test]
fn xsm32_zero_seed() {
    let mut rng = Xsm32Rng::from_seed([0u8; 12]);
    assert_eq!(rng.next_u32(), 0xad1c051c);
    assert_eq!(rng.next_u32(), 0x0ac74815);
    assert_eq!(rng.next_u64(), 0x2e0519679702fa93);
}

#[test]
fn xsm64_golden() {
    let mut rng = Xsm64Rng::from_seed(seq24());
    assert_eq!(rng.next_u32(), 0x7046ded0);
    assert_eq!(rng.next_u32(), 0xfb5eae99);
    assert_eq!(rng.next_u64(), 0x9173128a8beecb48);
    assert_eq!(rng.next_u64(), 0xc87177576fcb9fc9);
    let mut rng = Xsm64Rng::from_seed(seq24());
    let mut buf = [0u8; 11];
    rng.fill_bytes(&mut buf);
    assert_eq!(buf, [208, 222, 70, 112, 35, 89, 1, 244, 153, 174, 94]);
}

#[test]
fn xsm64_zero_seed() {
    let mut rng = Xsm64Rng::from_seed([0u8; 24]);
    assert_eq!(rng.next_u32(), 0xd6680000);
    assert_eq!(rng.next_u32(), 0x1442ec78);
    assert_eq!(rng.next_u64(), 0x17de02cc28d4043b);
}

fn mixed_calls<G: BitGenerator>(rng: &mut G) -> Vec<u64> {
    let mut out = Vec::new();
    for i in 0..12 {
        if i % 3 == 0 {
            out.push(rng.next_u32() as u64);
        } else {
            out.push(rng.next_u64());
        }
    }
    out
}

#[test]
fn same_seed_gives_same_stream() {
    assert_eq!(mixed_calls(&mut msws_seq()), mixed_calls(&mut msws_seq()));
    assert_eq!(
        mixed_calls(&mut PcgXsh64LcgRng::from_seed(seq16())),
        mixed_calls(&mut PcgXsh64LcgRng::from_seed(seq16()))
    );
    assert_eq!(
        mixed_calls(&mut PcgXsl64LcgRng::from_seed(seq16())),
        mixed_calls(&mut PcgXsl64LcgRng::from_seed(seq16()))
    );
    assert_eq!(
        mixed_calls(&mut PcgXsl128McgRng::from_seed(seq16())),
        mixed_calls(&mut PcgXsl128McgRng::from_seed(seq16()))
    );
    assert_eq!(
        mixed_calls(&mut MwpRng::from_seed(seq16())),
        mixed_calls(&mut MwpRng::from_seed(seq16()))
    );
    assert_eq!(
        mixed_calls(&mut Xsm32Rng::from_seed(seq12())),
        mixed_calls(&mut Xsm32Rng::from_seed(seq12()))
    );
    assert_eq!(
        mixed_calls(&mut Xsm64Rng::from_seed(seq24())),
        mixed_calls(&mut Xsm64Rng::from_seed(seq24()))
    );
}

fn wide_is_two_narrow<G: BitGenerator + Clone>(rng: &G) {
    let mut a = rng.clone();
    let mut b = rng.clone();
    for _ in 0..4 {
        let lo = a.next_u32() as u64;
        let hi = a.next_u32() as u64;
        assert_eq!(b.next_u64(), lo | (hi << 32));
    }
}

fn narrow_is_low_half<G: BitGenerator + Clone>(rng: &G) {
    let mut a = rng.clone();
    let mut b = rng.clone();
    for _ in 0..4 {
        assert_eq!(a.next_u32(), b.next_u64() as u32);
    }
}

#[test]
fn output_widths_agree() {
    wide_is_two_narrow(&PcgXsh64LcgRng::from_seed(seq16()));
    wide_is_two_narrow(&PcgXsl64LcgRng::from_seed(seq16()));
    wide_is_two_narrow(&Xsm32Rng::from_seed(seq12()));
    narrow_is_low_half(&PcgXsl128McgRng::from_seed(seq16()));
    narrow_is_low_half(&msws_seq());
    narrow_is_low_half(&Xsm64Rng::from_seed(seq24()));
}

#[test]
fn fill_eight_and_sixteen_bytes() {
    let rng = msws_seq();
    let mut a = rng.clone();
    let mut b = rng.clone();
    let mut buf8 = [0u8; 8];
    a.fill_bytes(&mut buf8);
    assert_eq!(buf8, b.next_u64().to_le_bytes());

    let mut a = Xsm64Rng::from_seed(seq24());
    let mut b = a.clone();
    let mut buf16 = [0u8; 16];
    a.fill_bytes(&mut buf16);
    let mut expected = Vec::new();
    expected.extend_from_slice(&b.next_u64().to_le_bytes());
    expected.extend_from_slice(&b.next_u64().to_le_bytes());
    assert_eq!(buf16.to_vec(), expected);
    assert_eq!(a.next_u64(), b.next_u64());
}

#[test]
fn fill_short_buffer_keeps_leading_bytes() {
    let mut a = PcgXsl128McgRng::from_seed(seq16());
    let mut b = a.clone();
    let mut buf = [0u8; 3];
    a.fill_bytes(&mut buf);
    assert_eq!(buf[..], b.next_u64().to_le_bytes()[..3]);

    let mut a = Xsm64Rng::from_seed(seq24());
    let mut b = a.clone();
    let mut buf = [0u8; 6];
    a.fill_bytes(&mut buf);
    assert_eq!(buf[..], b.next_u64().to_le_bytes()[..6]);
    assert_eq!(a.next_u64(), b.next_u64());
}

#[test]
fn fill_empty_buffer_leaves_state() {
    let mut a = PcgXsh64LcgRng::from_seed(seq16());
    let mut b = a.clone();
    let mut buf: [u8; 0] = [];
    a.fill_bytes(&mut buf);
    assert_eq!(a.next_u64(), b.next_u64());
}

#[test]
fn clone_continues_the_same_stream() {
    let mut a = MwpRng::from_seed(seq16());
    a.next_u64();
    let mut b = a.clone();
    for _ in 0..4 {
        assert_eq!(a.next_u64(), b.next_u64());
        assert_eq!(a.next_u32(), b.next_u32());
    }
}

#[test]
fn zero_seeds_construct() {
    let _ = PcgXsh64LcgRng::from_seed([0u8; 16]);
    let _ = PcgXsl64LcgRng::from_seed([0u8; 16]);
    let _ = PcgXsl128McgRng::from_seed([0u8; 16]);
    let _ = MwpRng::from_seed([0u8; 16]);
    let _ = Xsm32Rng::from_seed([0u8; 12]);
    let _ = Xsm64Rng::from_seed([0u8; 24]);
    assert!(MswsRng::try_from_seed([0u8; 16]).is_none());
}

#[test]
fn msws_small_stream_constant() {
    let seed = seed_from_words(0x1_0000_0000, 0);
    let mut rng = MswsRng::from_seed(seed);
    assert_eq!(rng.next_u64(), 0x0000_0001_0000_0001);
    assert_eq!(rng.next_u64(), 0x0000_0003_0000_0004);

    let mut rng = MswsRng::from_seed(seed);
    let mut buf = [0u8; 16];
    rng.fill_bytes(&mut buf);
    assert_eq!(buf, [1, 0, 0, 0, 1, 0, 0, 0, 4, 0, 0, 0, 3, 0, 0, 0]);

    let mut rng = MswsRng::from_seed(seed);
    let mut buf = [0u8; 3];
    rng.fill_bytes(&mut buf);
    assert_eq!(buf, [1, 0, 0]);
    assert_eq!(rng.next_u64(), 0x0000_0003_0000_0004);
}

#[test]
fn pcg_zero_seed_wide_outputs() {
    let mut rng = PcgXsh64LcgRng::from_seed([0u8; 16]);
    assert_eq!(rng.next_u64(), 0xe4c1_4788_0000_0000);
    let mut rng = PcgXsh64LcgRng::from_seed([0u8; 16]);
    let mut buf = [0u8; 8];
    rng.fill_bytes(&mut buf);
    assert_eq!(buf, [0x00, 0x00, 0x00, 0x00, 0x88, 0x47, 0xc1, 0xe4]);
    let mut rng = PcgXsl64LcgRng::from_seed([0u8; 16]);
    assert_eq!(rng.next_u64(), 0x6062_9891_0000_0001);
    let mut rng = Xsm64Rng::from_seed([0u8; 24]);
    assert_eq!(rng.next_u64(), 0x23b2_c9ac_d668_0000);
}
