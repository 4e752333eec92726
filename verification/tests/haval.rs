use hope::api::{hash, haval_bytes};
use hope::state::{HashState, HavalError};
use hope::words::pack_block;

fn hex(bytes: &[u8]) -> String {
    let mut s = String::new();
    for b in bytes {
        s.push_str(&format!("{:02X}", b));
    }
    s
}

#[test]
fn test_haval() {
    println!("{:02X?}", haval_bytes("hello world".as_bytes()));
}

#[test]
fn empty_3_128() {
    assert_eq!(
        hex(&hash(b"", 3, 128).unwrap()),
        "C68F39913F901F3DDF44C707357A7D70"
    );
}

#[test]
fn single_byte_3_128() {
    assert_eq!(
        hex(&hash(b"a", 3, 128).unwrap()),
        "0CD40739683E15F01CA5DBCEEF4059F1"
    );
}

#[test]
fn word_3_128() {
    assert_eq!(
        hex(&hash(b"HAVAL", 3, 128).unwrap()),
        "DC1F3C893D17CC4EDD9AE94AF76A0AF0"
    );
}

#[test]
fn empty_3_160() {
    assert_eq!(
        hex(&hash(b"", 3, 160).unwrap()),
        "D353C3AE22A25401D257643836D7231A9A95F953"
    );
}

#[test]
fn single_byte_3_160() {
    assert_eq!(
        hex(&hash(b"a", 3, 160).unwrap()),
        "4DA08F514A7275DBC4CECE4A347385983983A830"
    );
}

#[test]
fn empty_4_192() {
    assert_eq!(
        hex(&hash(b"", 4, 192).unwrap()),
        "4A8372945AFA55C7DEAD800311272523CA19D42EA47B72DA"
    );
}

#[test]
fn empty_4_224() {
    assert_eq!(
        hex(&hash(b"", 4, 224).unwrap()),
        "3E56243275B3B81561750550E36FCD676AD2F5DD9E15F2E89E6ED78E"
    );
}

#[test]
fn empty_5_160() {
    assert_eq!(
        hex(&hash(b"", 5, 160).unwrap()),
        "255158CFC1EED1A7BE7C55DDD64D9790415B933B"
    );
}

#[test]
fn empty_5_256() {
    assert_eq!(
        hex(&hash(b"", 5, 256).unwrap()),
        "BE417BB4DD5CFB76C7126F4F8EEB1553A449039307B1A3CD451DBFDC0FBBE330"
    );
}

#[test]
fn single_byte_5_256() {
    assert_eq!(
        hex(&hash(b"a", 5, 256).unwrap()),
        "DE8FD5EE72A5E4265AF0A756F4E1A1F65C9B2B2F47CF17ECF0D1B88679A3E22F"
    );
}

#[test]
fn digest_length_for_every_config() {
    for &p in &[3u32, 4, 5] {
        for &w in &[128u32, 160, 192, 224, 256] {
            let d = hash(b"some input", p, w).unwrap();
            assert_eq!(d.len(), (w / 8) as usize);
        }
    }
}

#[test]
fn invalid_width_rejected() {
    assert_eq!(
        HashState::new(3, 100).err().unwrap(),
        HavalError::ConfigurationError
    );
    assert_eq!(
        hash(b"x", 3, 100).err().unwrap(),
        HavalError::ConfigurationError
    );
}

#[test]
fn invalid_passes_rejected() {
    assert_eq!(
        HashState::new(2, 128).err().unwrap(),
        HavalError::ConfigurationError
    );
    assert_eq!(
        hash(b"x", 6, 256).err().unwrap(),
        HavalError::ConfigurationError
    );
}

#[test]
fn determinism_two_calls() {
    let input = b"determinism check input";
    for &p in &[3u32, 4, 5] {
        for &w in &[128u32, 160, 192, 224, 256] {
            assert_eq!(hash(input, p, w).unwrap(), hash(input, p, w).unwrap());
        }
    }
}

#[test]
fn chunked_absorption_matches_one_shot() {
    let mut input = Vec::new();
    for i in 0..300u32 {
        input.push((i * 7 + 3) as u8);
    }
    let whole = hash(&input, 5, 256).unwrap();

    for &cuts in &[
        &[0usize, 300][..],
        &[1, 299][..],
        &[128, 172][..],
        &[127, 1, 172][..],
        &[50, 0, 78, 172][..],
        &[299, 1][..],
    ] {
        let mut st = HashState::new(5, 256).unwrap();
        let mut at = 0usize;
        for &n in cuts {
            st.update(&input[at..at + n]).unwrap();
            at += n;
        }
        assert_eq!(at, 300);
        assert_eq!(st.finalize().unwrap(), whole);
    }
}

#[test]
fn chunked_absorption_with_long_final_remainder() {
    // 250 bytes leave a 122-byte remainder, so finalization pads across two
    // closing blocks.
    let mut input = Vec::new();
    for i in 0..250u32 {
        input.push((i * 13 + 1) as u8);
    }
    let whole = hash(&input, 3, 192).unwrap();
    let mut st = HashState::new(3, 192).unwrap();
    st.update(&input[..100]).unwrap();
    st.update(&input[100..]).unwrap();
    assert_eq!(st.finalize().unwrap(), whole);
}

#[test]
fn parameter_sensitivity() {
    let input = b"The quick brown fox jumps over the lazy dog";
    let mut digests: Vec<Vec<u8>> = Vec::new();
    for &p in &[3u32, 4, 5] {
        for &w in &[128u32, 160, 192, 224, 256] {
            digests.push(hash(input, p, w).unwrap());
        }
    }
    for i in 0..digests.len() {
        for j in 0..digests.len() {
            if i != j {
                assert_ne!(digests[i], digests[j]);
            }
        }
    }
}

#[test]
fn avalanche_smoke() {
    let mut input = vec![0x5Au8; 64];
    let base = hash(&input, 3, 128).unwrap();
    input[20] ^= 0x04;
    let flipped = hash(&input, 3, 128).unwrap();
    let mut diff = 0u32;
    for i in 0..16 {
        diff += (base[i] ^ flipped[i]).count_ones();
    }
    assert!(diff > 16, "too few output bits changed: {}", diff);
    assert!(diff < 112, "too many output bits changed: {}", diff);
}

#[test]
fn finalized_state_rejects_use() {
    let mut st = HashState::new(3, 128).unwrap();
    st.update(b"abc").unwrap();
    let d = st.finalize().unwrap();
    assert_eq!(d, hash(b"abc", 3, 128).unwrap());
    assert_eq!(st.update(b"more").err().unwrap(), HavalError::StateMisuseError);
    assert_eq!(st.finalize().err().unwrap(), HavalError::StateMisuseError);
}

#[test]
fn empty_update_is_legal_noop() {
    let mut st = HashState::new(4, 160).unwrap();
    st.update(b"").unwrap();
    st.update(b"payload").unwrap();
    st.update(b"").unwrap();
    assert_eq!(st.finalize().unwrap(), hash(b"payload", 4, 160).unwrap());
}

#[test]
fn haval_bytes_matches_three_pass_128() {
    let data = b"hello world";
    assert_eq!(haval_bytes(data).to_vec(), hash(data, 3, 128).unwrap());
}

#[test]
fn pack_is_little_endian_per_word() {
    let mut buf = vec![0u8; 128];
    buf[0] = 0x01;
    buf[4] = 0x00;
    buf[5] = 0x80;
    buf[126] = 0xAB;
    buf[127] = 0xCD;
    let words = pack_block(&buf, 0);
    assert_eq!(words[0], 0x0000_0001);
    assert_eq!(words[1], 0x0000_8000);
    assert_eq!(words[31], 0xCDAB_0000);
}
