use colabie::keys::{generate_keypair, PRIVATE_KEY_LEN, PUBLIC_KEY_LEN};
use fips204::ml_dsa_87;
use fips204::traits::{SerDes, Signer, Verifier};

#[test]
fn keypair_has_ml_dsa_87_lengths() {
    let (public, private) = generate_keypair().expect("entropy");
    assert_eq!(public.len(), PUBLIC_KEY_LEN);
    assert_eq!(private.len(), PRIVATE_KEY_LEN);
    assert_eq!(public.len(), 2592);
    assert_eq!(private.len(), 4896);
    let (again, _) = generate_keypair().expect("entropy");
    assert_ne!(public, again);
}

#[test]
fn private_key_belongs_to_public_key() {
    let (public, private) = generate_keypair().expect("entropy");
    let private: [u8; PRIVATE_KEY_LEN] = private.try_into().unwrap();
    let public: [u8; PUBLIC_KEY_LEN] = public.try_into().unwrap();
    let sk = ml_dsa_87::PrivateKey::try_from_bytes(private).unwrap();
    assert_eq!(sk.get_public_key().into_bytes(), public);
    let pk = ml_dsa_87::PublicKey::try_from_bytes(public).unwrap();
    let signature = sk.try_sign(b"colabie", b"").unwrap();
    assert!(pk.verify(b"colabie", &signature, b""));
}
