use invite_protocol::crypto::PublicKey;
use invite_protocol::sas::compute_sas;

fn key(fill: u8) -> PublicKey {
    PublicKey::from_bytes(vec![fill; 32]).unwrap()
}

#[test]
fn sas_is_deterministic() {
    let gk = key(1);
    let ck = key(2);
    let gn = b"greeter-nonce".to_vec();
    let cn = b"claimer-nonce".to_vec();
    let first = compute_sas(&gk, &ck, &gn, &cn);
    let second = compute_sas(&gk.duplicate(), &ck.duplicate(), &gn.clone(), &cn.clone());
    assert_eq!(first, second);
}

#[test]
fn sas_codes_are_four_symbols_from_the_alphabet() {
    let (claimer_code, greeter_code) = compute_sas(
        &key(1),
        &key(2),
        &b"greeter-nonce".to_vec(),
        &b"claimer-nonce".to_vec(),
    );
    for code in [&claimer_code, &greeter_code] {
        assert_eq!(code.chars().count(), 4);
        for c in code.chars() {
            assert!("ABCDEFGHJKLMNPQRSTUVWXYZ23456789".contains(c));
        }
    }
}

#[test]
fn sas_changes_when_any_input_changes() {
    let gk = key(1);
    let ck = key(2);
    let gn = b"greeter-nonce".to_vec();
    let cn = b"claimer-nonce".to_vec();
    let base = compute_sas(&gk, &ck, &gn, &cn);

    // A single flipped bit in any input moves the codes.
    let mut gk2 = vec![1u8; 32];
    gk2[0] ^= 1;
    let gk2 = PublicKey::from_bytes(gk2).unwrap();
    assert_ne!(base, compute_sas(&gk2, &ck, &gn, &cn));

    let mut ck2 = vec![2u8; 32];
    ck2[31] ^= 0x80;
    let ck2 = PublicKey::from_bytes(ck2).unwrap();
    assert_ne!(base, compute_sas(&gk, &ck2, &gn, &cn));

    let mut gn2 = gn.clone();
    gn2[0] ^= 1;
    assert_ne!(base, compute_sas(&gk, &ck, &gn2, &cn));

    let mut cn2 = cn.clone();
    cn2[0] ^= 1;
    assert_ne!(base, compute_sas(&gk, &ck, &gn, &cn2));
}

#[test]
fn swapped_nonces_do_not_collide() {
    // The length prefixes keep the four inputs apart even when their
    // concatenation would be identical.
    let gk = key(1);
    let ck = key(2);
    let a = compute_sas(&gk, &ck, &b"ab".to_vec(), &b"c".to_vec());
    let b = compute_sas(&gk, &ck, &b"a".to_vec(), &b"bc".to_vec());
    assert_ne!(a, b);
}
