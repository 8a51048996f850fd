use steam_bridge::double::double_bits_to_id;
use steam_bridge::double::id_to_double_bits;
use steam_bridge::double::EXACT_LIMIT;

fn through_double(id: u64) -> u64 {
    double_bits_to_id(id_to_double_bits(id))
}

#[test]
fn exact_limit_is_two_to_the_53() {
    assert_eq!(EXACT_LIMIT, 1u64 << 53);
}

#[test]
fn identifiers_below_the_limit_come_back() {
    let samples = [
        0u64,
        1,
        2,
        3,
        42,
        123456789,
        76561197960265728,
        (1 << 32) - 1,
        1 << 32,
        (1 << 52) + 1,
        (1 << 53) - 2,
        (1 << 53) - 1,
    ];
    for id in samples {
        if id < EXACT_LIMIT {
            assert_eq!(through_double(id), id);
        }
    }
    let mut id: u64 = 1;
    while id < EXACT_LIMIT {
        assert_eq!(through_double(id), id);
        assert_eq!(through_double(id - 1), id - 1);
        id = id * 3 + 1;
    }
}

#[test]
fn encoding_is_the_cast_to_a_double() {
    let samples = [
        0u64,
        1,
        2,
        3,
        7,
        123456789,
        76561197960265728,
        76561198012345678,
        (1 << 53) - 1,
        1 << 53,
        (1 << 53) + 1,
        (1 << 53) + 2,
        (1 << 53) + 3,
        (1 << 54) + 2,
        (1 << 54) + 6,
        (1 << 60) + (1 << 7),
        (1 << 60) + (1 << 7) + 1,
        (1 << 63) + (1 << 10),
        (1 << 63) + (3 << 10),
        u64::MAX - 1024,
        u64::MAX - 1023,
        u64::MAX,
    ];
    for id in samples {
        assert_eq!(id_to_double_bits(id), (id as f64).to_bits(), "id {}", id);
    }
    assert_eq!(id_to_double_bits(1), 0x3FF0_0000_0000_0000);
    assert_eq!(id_to_double_bits(123456789), 0x419D_6F34_5400_0000);
}

#[test]
fn decoding_is_the_cast_from_a_double() {
    let samples = [
        0.0f64,
        -0.0,
        0.5,
        0.999,
        1.0,
        1.5,
        2.0,
        123456789.0,
        123456789.75,
        9007199254740991.0,
        9007199254740992.0,
        9007199254740994.0,
        1.0e19,
        18446744073709549568.0,
        18446744073709551616.0,
        1.0e300,
        -1.0,
        -123456789.0,
        f64::INFINITY,
        f64::NEG_INFINITY,
        f64::NAN,
        f64::MIN_POSITIVE,
        5e-324,
        f64::MAX,
    ];
    for value in samples {
        assert_eq!(double_bits_to_id(value.to_bits()), value as u64, "value {}", value);
    }
    assert_eq!(double_bits_to_id(0x4000_0000_0000_0000), 2);
    assert_eq!(double_bits_to_id((-f64::NAN).to_bits()), 0);
}

#[test]
fn identifiers_above_the_limit_are_rounded() {
    assert_eq!(through_double((1 << 53) + 1), 1 << 53);
    assert_eq!(through_double((1 << 53) + 3), (1 << 53) + 4);
    assert_eq!(through_double(u64::MAX), u64::MAX);
}

fn next(state: &mut u64) -> u64 {
    *state ^= *state << 13;
    *state ^= *state >> 7;
    *state ^= *state << 17;
    *state
}

#[test]
fn encoding_agrees_with_the_cast_on_many_values() {
    let mut state: u64 = 0x9E37_79B9_7F4A_7C15;
    for _ in 0..200_000 {
        let word = next(&mut state);
        let id = word >> (next(&mut state) % 64);
        assert_eq!(id_to_double_bits(id), (id as f64).to_bits(), "id {}", id);
    }
    for k in 0..64u32 {
        let base = 1u64 << k;
        for delta in 0..4u64 {
            for id in [base.wrapping_add(delta), base.wrapping_sub(delta), (base | (base >> 1)).wrapping_add(delta)] {
                assert_eq!(id_to_double_bits(id), (id as f64).to_bits(), "id {}", id);
            }
        }
        if k >= 54 {
            let half = 1u64 << (k - 53);
            for id in [base + half, base + half - 1, base + half + 1, base + 3 * half, base + 3 * half - 1] {
                assert_eq!(id_to_double_bits(id), (id as f64).to_bits(), "id {}", id);
            }
        }
    }
}

#[test]
fn decoding_agrees_with_the_cast_on_many_values() {
    let mut state: u64 = 0x2545_F491_4F6C_DD1D;
    for _ in 0..200_000 {
        let bits = next(&mut state);
        assert_eq!(double_bits_to_id(bits), f64::from_bits(bits) as u64, "bits {:#x}", bits);
        let positive = bits >> 1;
        assert_eq!(double_bits_to_id(positive), f64::from_bits(positive) as u64, "bits {:#x}", positive);
    }
    for exponent in 0..0x800u64 {
        for fraction in [0u64, 1, 0x8_0000_0000_0000, 0xF_FFFF_FFFF_FFFF, 0x5_5555_5555_5555] {
            for sign in [0u64, 1] {
                let bits = (sign << 63) | (exponent << 52) | fraction;
                assert_eq!(double_bits_to_id(bits), f64::from_bits(bits) as u64, "bits {:#x}", bits);
            }
        }
    }
}
