use rcli::process::text::{check_mac, decoded_signature, loaded, signature_array};
use rcli::{
    process_text_keygen, process_text_keygen_with, process_text_sign, process_text_verify, Blake3,
    Ed22519Signer, Ed22519Verifier, RandomSource, TextError, TextSignFormat,
};

/// A source that always takes the first item, leaves the order alone, and
/// whose secret key is the one of RFC 8032.
struct Fixed;

impl RandomSource for Fixed {
    fn pick(&mut self, set: &[u8]) -> Option<u8> {
        set.first().copied()
    }

    fn shuffle(&mut self, _items: &mut Vec<u8>) {}

    fn secret(&mut self) -> [u8; 32] {
        ED25519_SK
    }
}

/// A secret key and its public key, from the test vectors of RFC 8032.
const ED25519_SK: [u8; 32] = [
    0x9d, 0x61, 0xb1, 0x9d, 0xef, 0xfd, 0x5a, 0x60, 0xba, 0x84, 0x4a, 0xf4, 0x92, 0xec, 0x2c, 0xc4,
    0x44, 0x49, 0xc5, 0x69, 0x7b, 0x32, 0x69, 0x19, 0x70, 0x3b, 0xac, 0x03, 0x1c, 0xae, 0x7f, 0x60,
];

const ED25519_PK: [u8; 32] = [
    0xd7, 0x5a, 0x98, 0x01, 0x82, 0xb1, 0x0a, 0xb7, 0xd5, 0x4b, 0xfe, 0xd3, 0xc9, 0x64, 0x07, 0x3a,
    0x0e, 0xe1, 0x72, 0xf3, 0xda, 0xa6, 0x23, 0x25, 0xaf, 0x02, 0x1a, 0x68, 0xf7, 0x07, 0x51, 0x1a,
];

/// The key of the test vectors of BLAKE3.
const BLAKE3_KEY: &[u8] = b"whats the Elvish word for friend";

/// What the named key file holds. The library reads no files; a front end
/// hands it their contents.
fn contents(name: &str) -> Vec<u8> {
    match name {
        "fixtures/blake3.txt" => BLAKE3_KEY.to_vec(),
        "fixtures/ed25519.sk" => ED25519_SK.to_vec(),
        "fixtures/ed25519.pk" => ED25519_PK.to_vec(),
        _ => panic!("no file named {}", name),
    }
}

fn hex(bytes: &[u8]) -> String {
    bytes.iter().map(|b| format!("{:02x}", b)).collect()
}

#[test]
fn test_blake3_sign_verify() {
    let blake3 = Blake3::try_new(&contents("fixtures/blake3.txt")).unwrap();
    let data = b"Hello, world!";
    let sig = blake3.sign(&data[..]);
    let verified = blake3.verify(&data[..], &sig).unwrap();
    assert!(verified);
}

#[test]
fn test_ed22519_sign_verify() {
    let signer = Ed22519Signer::try_new(&contents("fixtures/ed25519.sk")).unwrap();
    let verifier = Ed22519Verifier::try_new(&contents("fixtures/ed25519.pk")).unwrap();
    let data = b"Hello, world!";
    let sig = signer.sign(&data[..]);
    let verified = verifier.verify(&data[..], &sig).unwrap();
    assert!(verified);
}

#[test]
fn blake3_sign_gives_the_keyed_hash() {
    let blake3 = Blake3::try_new(BLAKE3_KEY).unwrap();
    assert_eq!(
        hex(&blake3.sign(b"")),
        "92b2b75604ed3c761f9d6f62392c8a9227ad0ea3f09573e783f1498a4ed60d26"
    );
    let key: [u8; 32] = BLAKE3_KEY.try_into().unwrap();
    assert_eq!(
        blake3.sign(b"Hello, world!"),
        blake3::keyed_hash(&key, b"Hello, world!").as_bytes().to_vec()
    );
    assert_ne!(blake3.sign(b"Hello, world!"), blake3.sign(b""));
    assert_ne!(blake3.sign(b"Hello, world!"), b"Hello, world!".to_vec());
}

#[test]
fn ed25519_sign_gives_the_signature_of_the_rfc() {
    let signer = Ed22519Signer::new(ED25519_SK);
    assert_eq!(
        hex(&signer.sign(b"")),
        "e5564300c360ac729086e2cc806e828a84877f1eb8e5d974d873e065224901555fb8821590a33bacc61e39701cf9b46bd25bf5f0595bbe24655141438e7a100b"
    );
    assert_eq!(
        hex(&signer.sign(b"Hello, world!")),
        "f87b1b200b3e7e9797e18b54ce876b12f833c5e497890c142b75cbf547d688638bdad55aa0aebbcece32d005385a161280fafa51cc14c966b65471ab6a89ea00"
    );
}

#[test]
fn ed25519_public_key_is_derived_from_the_secret() {
    let signer = Ed22519Signer::new(ED25519_SK);
    assert_eq!(signer.public_key(), ED25519_PK);
    assert_eq!(signer.keypair(), vec![ED25519_SK.to_vec(), ED25519_PK.to_vec()]);
}

#[test]
fn sign_returns_text_of_the_scheme_s_length() {
    let text = process_text_sign(b"", BLAKE3_KEY, TextSignFormat::Blake3).unwrap();
    assert_eq!(text, "krK3VgTtPHYfnW9iOSyKkietDqPwlXPng_FJik7WDSY");
    assert_eq!(text.len(), 43);
    let text = process_text_sign(b"Hello, world!", &ED25519_SK, TextSignFormat::Ed22519).unwrap();
    assert_eq!(
        text,
        "-HsbIAs-fpeX4YtUzodrEvgzxeSXiQwUK3XL9UfWiGOL2tVaoK67zs4y0AU4WhYSgPr6UcwUyWa2VHGraonqAA"
    );
    assert_eq!(text.len(), 86);
}

#[test]
fn mac_round_trip() {
    for content in [&b""[..], b"a", b"Hello, world!", &[0u8; 5000]] {
        let keys = process_text_keygen(TextSignFormat::Blake3);
        let text = process_text_sign(content, &keys[0], TextSignFormat::Blake3).unwrap();
        assert_eq!(
            process_text_verify(content, &keys[0], &text, TextSignFormat::Blake3),
            Ok(true)
        );
    }
}

#[test]
fn asymmetric_round_trip() {
    for content in [&b""[..], b"a", b"Hello, world!", &[0u8; 5000]] {
        let keys = process_text_keygen(TextSignFormat::Ed22519);
        let text = process_text_sign(content, &keys[0], TextSignFormat::Ed22519).unwrap();
        assert_eq!(
            process_text_verify(content, &keys[1], &text, TextSignFormat::Ed22519),
            Ok(true)
        );
    }
}

#[test]
fn tampered_content_is_detected() {
    let text = process_text_sign(b"Hello, world!", BLAKE3_KEY, TextSignFormat::Blake3).unwrap();
    assert_eq!(
        process_text_verify(b"Hello, world?", BLAKE3_KEY, &text, TextSignFormat::Blake3),
        Ok(false)
    );
    assert_eq!(
        process_text_verify(b"Hello, world!!", BLAKE3_KEY, &text, TextSignFormat::Blake3),
        Ok(false)
    );
    let text = process_text_sign(b"Hello, world!", &ED25519_SK, TextSignFormat::Ed22519).unwrap();
    assert_eq!(
        process_text_verify(b"Hello, world?", &ED25519_PK, &text, TextSignFormat::Ed22519),
        Ok(false)
    );
    assert_eq!(
        process_text_verify(b"", &ED25519_PK, &text, TextSignFormat::Ed22519),
        Ok(false)
    );
}

#[test]
fn wrong_key_is_detected() {
    let other_key = b"another key of thirty-two bytes!";
    assert_eq!(other_key.len(), 32);
    let text = process_text_sign(b"Hello, world!", BLAKE3_KEY, TextSignFormat::Blake3).unwrap();
    assert_eq!(
        process_text_verify(b"Hello, world!", other_key, &text, TextSignFormat::Blake3),
        Ok(false)
    );
    let other = Ed22519Signer::new([7u8; 32]);
    let text = process_text_sign(b"Hello, world!", &ED25519_SK, TextSignFormat::Ed22519).unwrap();
    assert_eq!(
        process_text_verify(b"Hello, world!", &other.public_key(), &text, TextSignFormat::Ed22519),
        Ok(false)
    );
}

#[test]
fn only_the_first_32_bytes_of_a_mac_key_count() {
    let mut longer = BLAKE3_KEY.to_vec();
    longer.extend_from_slice(b"\n and more");
    let text = process_text_sign(b"Hello, world!", BLAKE3_KEY, TextSignFormat::Blake3).unwrap();
    assert_eq!(process_text_sign(b"Hello, world!", &longer, TextSignFormat::Blake3), Ok(text.clone()));
    assert_eq!(
        process_text_verify(b"Hello, world!", &longer, &text, TextSignFormat::Blake3),
        Ok(true)
    );
}

#[test]
fn signing_is_deterministic() {
    for format in [TextSignFormat::Blake3, TextSignFormat::Ed22519] {
        let keys = process_text_keygen(format);
        let first = process_text_sign(b"Hello, world!", &keys[0], format).unwrap();
        let second = process_text_sign(b"Hello, world!", &keys[0], format).unwrap();
        assert_eq!(first, second);
    }
}

#[test]
fn short_keys_are_refused() {
    for n in [0usize, 1, 16, 31] {
        let key = vec![b'k'; n];
        assert!(matches!(Blake3::try_new(&key), Err(TextError::KeyError)));
        assert!(matches!(Ed22519Signer::try_new(&key), Err(TextError::KeyError)));
        assert!(matches!(Ed22519Verifier::try_new(&key), Err(TextError::KeyError)));
        for format in [TextSignFormat::Blake3, TextSignFormat::Ed22519] {
            assert_eq!(process_text_sign(b"x", &key, format), Err(TextError::KeyError));
            assert_eq!(
                process_text_verify(b"x", &key, "AAAA", format),
                Err(TextError::KeyError)
            );
        }
    }
}

#[test]
fn ed25519_keys_must_be_32_bytes_exactly() {
    let mut longer = ED25519_SK.to_vec();
    longer.push(b'\n');
    assert_eq!(
        process_text_sign(b"x", &longer, TextSignFormat::Ed22519),
        Err(TextError::KeyError)
    );
    let mut longer = ED25519_PK.to_vec();
    longer.push(b'\n');
    assert!(matches!(Ed22519Verifier::try_new(&longer), Err(TextError::KeyError)));
}

#[test]
fn bytes_that_are_no_point_are_no_public_key() {
    // y = 2 is the y-coordinate of no point of the curve.
    let mut bytes = [0u8; 32];
    bytes[0] = 2;
    assert!(matches!(Ed22519Verifier::try_new(&bytes), Err(TextError::KeyError)));
    let text = process_text_sign(b"x", &ED25519_SK, TextSignFormat::Ed22519).unwrap();
    assert_eq!(
        process_text_verify(b"x", &bytes, &text, TextSignFormat::Ed22519),
        Err(TextError::KeyError)
    );
}

#[test]
fn signatures_of_another_length_are_refused() {
    let blake3 = Blake3::try_new(BLAKE3_KEY).unwrap();
    let verifier = Ed22519Verifier::try_new(&ED25519_PK).unwrap();
    for n in [0usize, 1, 31, 33, 63, 64, 65] {
        let raw = vec![0u8; n];
        if n != 32 {
            assert_eq!(blake3.verify(b"x", &raw), Err(TextError::SignatureLengthError));
        }
        if n != 64 {
            assert_eq!(verifier.verify(b"x", &raw), Err(TextError::SignatureLengthError));
        }
    }
    // 32 bytes are a signature of the keyed hash, and none of Ed25519.
    let mac = process_text_sign(b"x", BLAKE3_KEY, TextSignFormat::Blake3).unwrap();
    assert_eq!(
        process_text_verify(b"x", &ED25519_PK, &mac, TextSignFormat::Ed22519),
        Err(TextError::SignatureLengthError)
    );
    let signature = process_text_sign(b"x", &ED25519_SK, TextSignFormat::Ed22519).unwrap();
    assert_eq!(
        process_text_verify(b"x", BLAKE3_KEY, &signature, TextSignFormat::Blake3),
        Err(TextError::SignatureLengthError)
    );
    assert_eq!(
        process_text_verify(b"x", BLAKE3_KEY, "", TextSignFormat::Blake3),
        Err(TextError::SignatureLengthError)
    );
}

#[test]
fn malformed_signature_of_the_right_length_is_false() {
    let verifier = Ed22519Verifier::try_new(&ED25519_PK).unwrap();
    assert_eq!(verifier.verify(b"x", &[0xffu8; 64]), Ok(false));
    assert_eq!(verifier.verify(b"x", &[0u8; 64]), Ok(false));
    let blake3 = Blake3::try_new(BLAKE3_KEY).unwrap();
    assert_eq!(blake3.verify(b"x", &[0u8; 32]), Ok(false));
}

#[test]
fn text_that_is_no_base64_is_refused() {
    for sig in ["!!!", "a b", "abc=", "a", "krK3VgTtPHYfnW9iOSyKkietDqPwlXPng/FJik7WDSY"] {
        assert_eq!(
            process_text_verify(b"Hello, world!", BLAKE3_KEY, sig, TextSignFormat::Blake3),
            Err(TextError::EncodingError)
        );
        assert_eq!(
            process_text_verify(b"Hello, world!", &ED25519_PK, sig, TextSignFormat::Ed22519),
            Err(TextError::EncodingError)
        );
    }
}

#[test]
fn the_key_is_looked_at_before_the_signature() {
    assert_eq!(
        process_text_verify(b"x", b"short", "!!!", TextSignFormat::Blake3),
        Err(TextError::KeyError)
    );
    assert_eq!(
        process_text_verify(b"x", BLAKE3_KEY, "!!!", TextSignFormat::Blake3),
        Err(TextError::EncodingError)
    );
}

#[test]
fn check_mac_compares_in_full() {
    let expected = [9u8; 32];
    assert_eq!(check_mac(&expected, &[9u8; 32]), Ok(true));
    for i in 0..32 {
        let mut given = [9u8; 32];
        given[i] ^= 1;
        assert_eq!(check_mac(&expected, &given), Ok(false));
    }
    assert_eq!(check_mac(&expected, &[9u8; 31]), Err(TextError::SignatureLengthError));
    assert_eq!(check_mac(&expected, &[9u8; 33]), Err(TextError::SignatureLengthError));
}

#[test]
fn signature_array_takes_64_bytes_only() {
    let raw: Vec<u8> = (0u8..64).collect();
    assert_eq!(signature_array(&raw).unwrap().to_vec(), raw);
    assert!(matches!(signature_array(&raw[..63]), Err(TextError::SignatureLengthError)));
    assert!(matches!(signature_array(&[0u8; 65]), Err(TextError::SignatureLengthError)));
}

#[test]
fn decoded_signature_maps_the_codec_s_error() {
    assert_eq!(decoded_signature(Ok(vec![1, 2, 3])), Ok(vec![1, 2, 3]));
    assert_eq!(
        decoded_signature(Err(base64::DecodeError::InvalidPadding)),
        Err(TextError::EncodingError)
    );
    assert_eq!(
        decoded_signature(Err(base64::DecodeError::InvalidByte(0, b'!'))),
        Err(TextError::EncodingError)
    );
}

#[test]
fn generated_mac_key_is_a_password_of_32_characters() {
    let keys = process_text_keygen(TextSignFormat::Blake3);
    assert_eq!(keys.len(), 1);
    assert_eq!(keys[0].len(), 32);
    let all = "ABCDEFGHJKLMNPQRSTUVWXYZabcdefghijkmnopqrstuvwxyz123456789!@#$%^&*?";
    assert!(keys[0].iter().all(|b| all.as_bytes().contains(b)));
    assert!(Blake3::try_new(&keys[0]).is_ok());
}

#[test]
fn generated_pair_is_secret_then_public() {
    let keys = process_text_keygen(TextSignFormat::Ed22519);
    assert_eq!(keys.len(), 2);
    assert_eq!(keys[0].len(), 32);
    assert_eq!(keys[1].len(), 32);
    let signer = Ed22519Signer::try_new(&keys[0]).unwrap();
    assert_eq!(signer.public_key().to_vec(), keys[1]);
    assert!(Ed22519Verifier::try_new(&keys[1]).is_ok());
    assert_ne!(process_text_keygen(TextSignFormat::Ed22519)[0], keys[0]);
}

#[test]
fn hello_world_under_fresh_mac_keys() {
    let content = b"Hello, world!";
    assert_eq!(content.len(), 13);
    let key = process_text_keygen(TextSignFormat::Blake3).remove(0);
    let encoded = process_text_sign(content, &key, TextSignFormat::Blake3).unwrap();
    assert_eq!(encoded.len(), 43);
    assert!(!encoded.contains('='));
    assert!(encoded.chars().all(|c| c.is_ascii_alphanumeric() || c == '-' || c == '_'));
    assert_eq!(Blake3::try_new(&key).unwrap().sign(content).len(), 32);
    assert_eq!(process_text_verify(content, &key, &encoded, TextSignFormat::Blake3), Ok(true));

    let second = process_text_keygen(TextSignFormat::Blake3).remove(0);
    assert_ne!(second, key);
    assert_eq!(process_text_verify(content, &second, &encoded, TextSignFormat::Blake3), Ok(false));
}

#[test]
fn hello_world_under_fresh_pairs() {
    let content = b"Hello, world!";
    let keys = process_text_keygen(TextSignFormat::Ed22519);
    assert_eq!(Ed22519Signer::try_new(&keys[0]).unwrap().sign(content).len(), 64);
    let encoded = process_text_sign(content, &keys[0], TextSignFormat::Ed22519).unwrap();
    assert_eq!(encoded.len(), 86);
    assert_eq!(process_text_verify(content, &keys[1], &encoded, TextSignFormat::Ed22519), Ok(true));
    let unrelated = process_text_keygen(TextSignFormat::Ed22519);
    assert_eq!(
        process_text_verify(content, &unrelated[1], &encoded, TextSignFormat::Ed22519),
        Ok(false)
    );
}

#[test]
fn invalid_base64_is_an_error_and_no_answer() {
    let key = process_text_keygen(TextSignFormat::Blake3).remove(0);
    assert_eq!(
        process_text_verify(b"Hello, world!", &key, "not*base64!", TextSignFormat::Blake3),
        Err(TextError::EncodingError)
    );
}

#[test]
fn keys_are_made_of_what_the_source_gives() {
    let mut source = Fixed;
    assert_eq!(
        process_text_keygen_with(TextSignFormat::Blake3, &mut source),
        vec![b"Aa1!AAAAAAAAAAAAAAAAAAAAAAAAAAAA".to_vec()]
    );
    assert_eq!(
        process_text_keygen_with(TextSignFormat::Ed22519, &mut source),
        vec![ED25519_SK.to_vec(), ED25519_PK.to_vec()]
    );
    assert_eq!(Blake3::generate_with(&mut source)[0].len(), 32);
    assert_eq!(Ed22519Signer::generate_with(&mut source)[1], ED25519_PK.to_vec());
}

#[test]
fn a_source_that_cannot_be_read_is_an_input_error() {
    assert_eq!(loaded(None), Err(TextError::InputError));
    assert_eq!(loaded(Some(vec![1, 2, 3])), Ok(vec![1, 2, 3]));
    assert_eq!(loaded(Some(Vec::new())), Ok(Vec::new()));
}

#[test]
fn every_refusal_has_its_own_message() {
    let all = [
        TextError::InputError,
        TextError::KeyError,
        TextError::EncodingError,
        TextError::SignatureLengthError,
    ];
    for (i, a) in all.iter().enumerate() {
        assert!(!a.message().is_empty());
        for b in &all[i + 1..] {
            assert_ne!(a.message(), b.message());
        }
    }
    assert_eq!(TextError::KeyError.message(), "the key is not a key of this format");
}
