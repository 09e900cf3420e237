use helium_crypto::{KeyTag, KeyType, Keypair, Network, PublicKey, Sign, Verify};
use helium_multi_gateway::keypair::{GatewayKeypair, MAX_SIGNATURE_LEN};
use helium_multi_gateway::keys_dir::{KeyFile, KeysDir};
use helium_multi_gateway::mac::MacAddress;

const MAC: MacAddress = MacAddress { bytes: [0xAA, 0xBB, 0xCC, 0xDD, 0xEE, 0xFF, 0x00, 0x11] };

const ENTROPY: [u8; 32] = [
    248, 55, 78, 168, 99, 123, 22, 203, 36, 250, 136, 86, 110, 119, 198, 170, 248, 55, 78, 168, 99,
    123, 22, 203, 36, 250, 136, 86, 110, 119, 198, 170,
];

const PUBLIC: [u8; 32] = [
    185, 118, 86, 186, 8, 131, 178, 232, 103, 147, 246, 193, 186, 72, 71, 232, 25, 244, 178, 49, 35,
    157, 89, 72, 28, 17, 212, 63, 72, 54, 42, 9,
];

fn ed25519_key() -> Vec<u8> {
    let mut key = vec![1u8];
    key.extend_from_slice(&ENTROPY);
    key.extend_from_slice(&PUBLIC);
    key
}

fn tagged(tag: u8, bytes: &[u8]) -> Vec<u8> {
    let mut key = vec![tag];
    key.extend_from_slice(bytes);
    key
}

#[test]
fn new_keypair_of_entropy() {
    let keypair = GatewayKeypair::generate(&ENTROPY).unwrap();
    assert_eq!(keypair.to_vec(), ed25519_key());
    assert_eq!(keypair.public_key(), Some(tagged(1, &PUBLIC)));
    let public_key = PublicKey::from_bytes(tagged(1, &PUBLIC)).unwrap();
    assert_eq!(keypair.address(), Some(public_key.to_string()));
    assert!(keypair.is_shown());
}

#[test]
fn bad_entropy_makes_no_keypair() {
    assert_eq!(GatewayKeypair::generate(&[0; 32]).err().unwrap().text, "entropy is all zeros");
    assert!(GatewayKeypair::generate(&[1; 31]).is_err());
    assert!(GatewayKeypair::generate(&[]).is_err());
    assert!(GatewayKeypair::generate(&[1; 33]).is_err());
    assert!(GatewayKeypair::generate(&[1; 32]).is_ok());
}

#[test]
fn saved_keypair_reads_back() {
    let keypair = GatewayKeypair::generate(&ENTROPY).unwrap();
    let read = GatewayKeypair::from_bytes(keypair.to_vec()).unwrap();
    assert_eq!(read.to_vec(), keypair.to_vec());
    assert_eq!(read.public_key(), keypair.public_key());
    assert_eq!(read.address(), keypair.address());
    let copy = read.clone();
    assert_eq!(copy.to_vec(), keypair.to_vec());
    assert_eq!(copy.address(), keypair.address());
}

#[test]
fn no_keypair_in_other_bytes() {
    assert_eq!(GatewayKeypair::from_bytes(vec![]).err().unwrap().text, "key is empty");
    assert!(GatewayKeypair::from_bytes(vec![1]).is_err());
    assert!(GatewayKeypair::from_bytes(vec![0]).is_err());
    assert!(GatewayKeypair::from_bytes(tagged(0, &[0; 32])).is_err());
    assert!(GatewayKeypair::from_bytes(tagged(3, &[0; 32])).is_err());
    assert!(GatewayKeypair::from_bytes(tagged(0x0f, &[7; 64])).is_err());
    assert!(GatewayKeypair::from_bytes(tagged(0xf1, &[7; 64])).is_err());
    assert!(GatewayKeypair::from_bytes(tagged(1, &[7; 63])).is_err());
}

#[test]
fn every_kind_of_key_reads_and_signs() {
    for (tag, key_type) in
        [(0u8, KeyType::EccCompact), (1, KeyType::Ed25519), (3, KeyType::Secp256k1)]
    {
        for (network_bits, network) in [(0u8, Network::MainNet), (0x10, Network::TestNet)] {
            let key_tag = KeyTag { network, key_type };
            assert_eq!(u8::from(key_tag), tag | network_bits);
            let outside = Keypair::generate_from_entropy(key_tag, &ENTROPY).unwrap();
            let keypair = GatewayKeypair::from_bytes(outside.to_vec()).unwrap();
            assert_eq!(keypair.public_key(), Some(outside.public_key().to_vec()));
            assert_eq!(keypair.address(), Some(outside.public_key().to_string()));
            let signature = keypair.sign(b"hello world").unwrap();
            assert!(signature.len() <= MAX_SIGNATURE_LEN);
            assert!(outside.public_key().verify(b"hello world", &signature).is_ok());
            assert!(keypair.verify(b"hello world", &signature));
            assert!(!keypair.verify(b"hello worlds", &signature));
            assert!(!keypair.verify(b"hello world", &signature[1..]));
            assert!(keypair.verify(b"", &outside.sign(b"").unwrap()));
        }
    }
}

#[test]
fn keys_that_are_not_compact_sign_but_are_not_shown() {
    let key_tag = KeyTag { network: Network::MainNet, key_type: KeyType::EccCompact };
    let mut unshown = 0;
    for n in 1u8..40 {
        let mut secret = [0u8; 32];
        secret[31] = n;
        let compact = Keypair::generate_from_entropy(key_tag, &secret).is_ok();
        let keypair = GatewayKeypair::from_bytes(tagged(0, &secret)).unwrap();
        assert_eq!(keypair.to_vec(), tagged(0, &secret));
        assert_eq!(keypair.is_shown(), compact);
        assert_eq!(keypair.public_key().is_some(), compact);
        assert_eq!(keypair.address().is_some(), compact);
        let signature = keypair.sign(b"data").unwrap();
        assert!(keypair.verify(b"data", &signature));
        if !compact {
            unshown += 1;
        }
    }
    assert!(unshown > 0);
}

#[test]
fn bytes_behind_a_key_do_not_count() {
    let mut key = ed25519_key();
    key.extend_from_slice(&[1, 2, 3]);
    let keypair = GatewayKeypair::from_bytes(key.clone()).unwrap();
    assert_eq!(keypair.to_vec(), key);
    assert_eq!(keypair.public_key(), Some(tagged(1, &PUBLIC)));
    let signature = keypair.sign(b"data").unwrap();
    assert!(keypair.verify(b"data", &signature));
}

#[test]
fn public_half_is_taken_as_it_stands() {
    let mut key = ed25519_key();
    key[64] ^= 1;
    let keypair = GatewayKeypair::from_bytes(key.clone()).unwrap();
    assert_eq!(keypair.public_key(), Some(tagged(1, &key[33..])));
    let signature = keypair.sign(b"data").unwrap();
    assert_eq!(signature.len(), 64);
    assert!(!keypair.verify(b"data", &signature));
}

#[test]
fn load_passes_over_other_files() {
    let dir = KeysDir::new("/keys".to_string());
    assert_eq!(dir.path(), "/keys");
    let file = |name: &str, contents: Option<Vec<u8>>| KeyFile { name: name.to_string(), contents };
    let keypairs = dir.load(vec![
        file("AABBCCDDEEFF0011.key", Some(ed25519_key())),
        file("notes.txt", Some(ed25519_key())),
        file("a", Some(ed25519_key())),
        file("broken.key", Some(vec![1, 2, 3])),
        file("empty.key", Some(vec![])),
        file("locked.key", None),
        file("spare.key", Some(ed25519_key())),
    ]);
    assert_eq!(keypairs.len(), 2);
    assert_eq!(keypairs[0].0, "AABBCCDDEEFF0011");
    assert_eq!(keypairs[0].1.to_vec(), ed25519_key());
    assert_eq!(keypairs[1].0, "spare");
}

#[test]
fn existing_key_is_kept() {
    let dir = KeysDir::new("/keys".to_string());
    let provision = dir.get_or_create(&MAC, Some(ed25519_key()), &[9; 32]).unwrap();
    assert_eq!(provision.file_name, "AABBCCDDEEFF0011.key");
    assert_eq!(provision.keypair.to_vec(), ed25519_key());
    assert!(!provision.created);
    assert!(dir.get_or_create(&MAC, Some(vec![1]), &[9; 32]).is_err());
}

#[test]
fn missing_key_is_created_and_loads_back() {
    let dir = KeysDir::new("/keys".to_string());
    let provision = dir.get_or_create(&MAC, None, &ENTROPY).unwrap();
    assert_eq!(provision.file_name, "AABBCCDDEEFF0011.key");
    assert!(provision.created);
    assert_eq!(provision.keypair.to_vec(), ed25519_key());
    let loaded = dir.load(vec![KeyFile {
        name: provision.file_name,
        contents: Some(provision.keypair.to_vec()),
    }]);
    assert_eq!(loaded[0].0, "AABBCCDDEEFF0011");
    assert_eq!(loaded[0].1.address(), provision.keypair.address());
    assert!(dir.get_or_create(&MAC, None, &[0; 32]).is_err());
}
