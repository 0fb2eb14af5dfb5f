use cyber_divination::entropy::{
    generate_timing_digit, mix_entropy, sample_from_mix, splitmix64, EntropySource, SystemEntropy,
};

#[test]
fn generated_digits_stay_in_yarrow_domain() {
    for throw_no in 1..=32 {
        let sample = generate_timing_digit(throw_no).expect("entropy sample");
        assert!(matches!(sample.digit, 2 | 3));
        assert!(sample.fingerprint.starts_with("0x"));
    }
}

#[test]
fn system_entropy_gives_hex_fingerprints() {
    let mut source = SystemEntropy::new();
    let sample = source.next_digit(1).expect("sample");
    assert!(matches!(sample.digit, 2 | 3));
    assert_eq!(sample.fingerprint.len(), 18);
    assert!(sample.fingerprint[2..]
        .chars()
        .all(|c| c.is_ascii_digit() || ('A'..='F').contains(&c)));
}

fn splitmix64_by_hand(mut x: u64) -> u64 {
    x = x.wrapping_add(0x9E37_79B9_7F4A_7C15);
    x = (x ^ (x >> 30)).wrapping_mul(0xBF58_476D_1CE4_E5B9);
    x = (x ^ (x >> 27)).wrapping_mul(0x94D0_49BB_1331_11EB);
    x ^ (x >> 31)
}

#[test]
fn splitmix64_known_values() {
    assert_eq!(splitmix64(0), 0xE220_A839_7B1D_CDAF);
    for x in [1u64, 42, u64::MAX, 0x0123_4567_89AB_CDEF] {
        assert_eq!(splitmix64(x), splitmix64_by_hand(x));
    }
}

#[test]
fn mixing_folds_clock_throw_and_os_bytes() {
    let os: [u8; 16] = [1, 2, 3, 4, 5, 6, 7, 8, 9, 10, 11, 12, 13, 14, 15, 16];
    let now: u128 = 0x0000_0001_0000_0002_0000_0003_0000_0004;
    let throw_no: usize = 5;
    let mut expected = (now as u64) ^ ((now >> 64) as u64) ^ (throw_no as u64).rotate_left(17);
    for chunk in os.chunks_exact(8) {
        expected ^= u64::from_le_bytes(chunk.try_into().unwrap());
        expected = splitmix64_by_hand(expected);
    }
    assert_eq!(mix_entropy(now, &os, throw_no), expected);
}

#[test]
fn sample_of_a_mixed_word() {
    let even = sample_from_mix(0x00AB_CDEF_0123_4568);
    assert_eq!(even.digit, 2);
    assert_eq!(even.fingerprint, "0x00ABCDEF01234568");
    let odd = sample_from_mix(0xFFFF_FFFF_FFFF_FFFF);
    assert_eq!(odd.digit, 3);
    assert_eq!(odd.fingerprint, "0xFFFFFFFFFFFFFFFF");
    assert_eq!(sample_from_mix(1).fingerprint, format!("0x{:016X}", 1u64));
}

#[test]
fn splitmix64_gives_distinct_outputs_for_distinct_inputs() {
    let inputs = [0u64, 1, 2, 3, 0x9E37_79B9_7F4A_7C15, u64::MAX, u64::MAX - 1, 1 << 63];
    let outputs: Vec<u64> = inputs.iter().map(|&x| splitmix64(x)).collect();
    for i in 0..outputs.len() {
        for j in (i + 1)..outputs.len() {
            assert_ne!(outputs[i], outputs[j]);
        }
    }
}
