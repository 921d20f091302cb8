use deepchat_desktop::cipher::{
    decrypt, encrypt, encrypt_with_nonce, get_or_create_key, key_choice, needs_key, KeyChoice,
    Vault,
};

fn hex(text: &str) -> Vec<u8> {
    (0..text.len() / 2).map(|i| u8::from_str_radix(&text[2 * i..2 * i + 2], 16).unwrap()).collect()
}

fn key_vault(key: [u8; 32]) -> Vault {
    Vault::Keychain(Ok(key))
}

#[test]
fn encryption_is_aes_256_gcm_after_the_nonce() {
    let message = encrypt_with_nonce(&[0u8; 32], &[0u8; 12], &[0u8; 16]).unwrap();
    let mut expected = vec![0u8; 12];
    expected.extend(hex("cea7403d4d606b6e074ec5d3baf39d18d0d1c8a799996bf0265b98b5d48ab919"));
    assert_eq!(message, expected);
    let empty = encrypt_with_nonce(&[0u8; 32], &[0u8; 12], &[]).unwrap();
    let mut expected = vec![0u8; 12];
    expected.extend(hex("530f8afbc74536b9a963b4f1c4cb738b"));
    assert_eq!(empty, expected);
}

#[test]
fn what_is_encrypted_is_decrypted_with_the_key() {
    for text in ["", "x", "{\"cookies\":\"a=1\"}", "会话"] {
        let sealed = encrypt(text.as_bytes(), key_vault([7; 32])).unwrap();
        assert_eq!(sealed.len(), text.len() + 28);
        assert_eq!(decrypt(&sealed, key_vault([7; 32])), Ok(text.as_bytes().to_vec()));
    }
}

#[test]
fn every_message_has_its_own_nonce() {
    let first = encrypt(b"same", key_vault([7; 32])).unwrap();
    let second = encrypt(b"same", key_vault([7; 32])).unwrap();
    assert_ne!(first[..12], second[..12]);
    assert_ne!(first, second);
}

#[test]
fn another_key_or_a_changed_byte_is_noticed() {
    let refusal = Err("AES-256-GCM 解密失败（密钥可能已变更）".to_string());
    let mut sealed = encrypt(b"secret", key_vault([7; 32])).unwrap();
    assert_eq!(decrypt(&sealed, key_vault([8; 32])), refusal);
    sealed[20] ^= 1;
    assert_eq!(decrypt(&sealed, key_vault([7; 32])), refusal);
    assert_eq!(decrypt(&[0; 12], key_vault([7; 32])), refusal);
    assert_eq!(decrypt(&[0; 27], key_vault([7; 32])), refusal);
}

#[test]
fn short_data_is_incomplete_even_without_a_key() {
    let refusal = Err("加密数据不完整".to_string());
    assert_eq!(decrypt(&[0; 11], key_vault([7; 32])), refusal);
    assert_eq!(decrypt(&[], Vault::Keychain(Err("locked".to_string()))), refusal);
    assert!(!needs_key(&[0; 11]));
    assert!(needs_key(&[0; 12]));
}

#[test]
fn a_missing_key_is_reported() {
    assert_eq!(
        decrypt(&[0; 40], Vault::Keychain(Err("locked".to_string()))),
        Err("locked".to_string())
    );
    assert_eq!(
        encrypt(b"x", Vault::Keychain(Err("locked".to_string()))),
        Err("locked".to_string())
    );
}

#[test]
fn windows_protects_by_itself() {
    assert_eq!(encrypt(b"x", Vault::Dpapi(Ok(vec![1, 2]))), Ok(vec![1, 2]));
    assert_eq!(decrypt(&[1, 2], Vault::Dpapi(Ok(b"x".to_vec()))), Ok(b"x".to_vec()));
    assert_eq!(
        encrypt(b"x", Vault::Dpapi(Err("denied".to_string()))),
        Err("DPAPI 加密失败: denied".to_string())
    );
    assert_eq!(
        decrypt(b"x", Vault::Dpapi(Err("denied".to_string()))),
        Err("DPAPI 解密失败: denied".to_string())
    );
}

#[test]
fn other_platforms_do_not_encrypt() {
    assert_eq!(
        encrypt(b"x", Vault::Unsupported),
        Err("当前平台不支持会话加密（encrypt-session）".to_string())
    );
    assert_eq!(
        decrypt(b"x", Vault::Unsupported),
        Err("当前平台不支持会话解密（encrypt-session）".to_string())
    );
}

#[test]
fn a_stored_key_of_the_right_length_is_used() {
    let stored: Vec<u8> = (0..32).collect();
    match get_or_create_key(Some(stored.clone())) {
        KeyChoice::Stored(key) => assert_eq!(key.to_vec(), stored),
        KeyChoice::Fresh { .. } => panic!("the stored key was not used"),
    }
}

#[test]
fn the_key_that_was_drawn_is_the_new_one() {
    let drawn = [5u8; 32];
    assert!(matches!(
        key_choice(None, drawn),
        KeyChoice::Fresh { key, discard: false } if key == drawn
    ));
    assert!(matches!(
        key_choice(Some(vec![1; 16]), drawn),
        KeyChoice::Fresh { key, discard: true } if key == drawn
    ));
    assert!(matches!(
        key_choice(Some(vec![1; 32]), drawn),
        KeyChoice::Stored(key) if key == [1; 32]
    ));
}

#[test]
fn keys_are_drawn_anew() {
    let drawn = || match get_or_create_key(None) {
        KeyChoice::Fresh { key, .. } => key,
        KeyChoice::Stored(key) => key,
    };
    assert_ne!(drawn(), drawn());
}

#[test]
fn anything_else_gives_way_to_a_new_key() {
    for length in [0usize, 31, 33] {
        match get_or_create_key(Some(vec![0; length])) {
            KeyChoice::Fresh { key, discard } => {
                assert!(discard);
                assert_ne!(key, [0; 32]);
            }
            KeyChoice::Stored(_) => panic!("a key of the wrong length was used"),
        }
    }
    match get_or_create_key(None) {
        KeyChoice::Fresh { key, discard } => {
            assert!(!discard);
            assert_ne!(key, [0; 32]);
        }
        KeyChoice::Stored(_) => panic!("there was no key to use"),
    }
}
