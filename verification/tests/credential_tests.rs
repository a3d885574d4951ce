use zeroize::Zeroize;
use tuck::base64::{base64_decode, base64_encode};
use tuck::credential::{Credential, CredentialError, CredentialScheme, IdentityLabel, InMemoryCredentialStore};
use tuck::file_store::{
    credentials_json, open_credentials, seal_credentials, EncryptedFile, FileCredentialStore, MasterKey,
};

#[test]
fn test_parse_env_label() {
    let label = IdentityLabel::parse("env:API_KEY").unwrap();
    assert_eq!(label.scheme, CredentialScheme::Env);
    assert_eq!(label.path, "API_KEY");
    assert_eq!(label.to_string(), "env:API_KEY");
}

#[test]
fn test_parse_file_label() {
    let label = IdentityLabel::parse("file:/etc/secrets/token").unwrap();
    assert_eq!(label.scheme, CredentialScheme::File);
    assert_eq!(label.path, "/etc/secrets/token");
}

#[test]
fn test_parse_hsm_label() {
    let label = IdentityLabel::parse("hsm:prod-signing-key").unwrap();
    assert_eq!(label.scheme, CredentialScheme::Hsm);
}

#[test]
fn test_parse_vault_label() {
    let label = IdentityLabel::parse("vault:secret/data/prod#token").unwrap();
    assert_eq!(label.scheme, CredentialScheme::Vault);
    assert_eq!(label.path, "secret/data/prod#token");
}

#[test]
fn test_parse_inline_label() {
    let label = IdentityLabel::parse("inline:base64data").unwrap();
    assert_eq!(label.scheme, CredentialScheme::Inline);
    assert!(label.is_inline());
}

#[test]
fn test_parse_missing_scheme() {
    let result = IdentityLabel::parse("just_a_string");
    assert!(matches!(result, Err(CredentialError::InvalidLabel(_))));
}

#[test]
fn test_parse_empty_path() {
    let result = IdentityLabel::parse("env:");
    assert!(matches!(result, Err(CredentialError::InvalidLabel(_))));
}

#[test]
fn test_parse_unknown_scheme() {
    let result = IdentityLabel::parse("unknown:something");
    assert!(matches!(result, Err(CredentialError::InvalidLabel(_))));
}

#[test]
fn test_label_from_str() {
    let label: IdentityLabel = "file:/tmp/secret".parse().unwrap();
    assert_eq!(label.scheme, CredentialScheme::File);
}

#[test]
fn label_errors_name_the_problem() {
    match IdentityLabel::parse("just_a_string") {
        Err(e) => assert_eq!(e.to_string(), "invalid identity_label: missing scheme: just_a_string"),
        Ok(_) => panic!("expected an error"),
    }
    match IdentityLabel::parse("ENV:") {
        Err(CredentialError::InvalidLabel(m)) => assert_eq!(m, "empty path: ENV:"),
        other => panic!("unexpected {:?}", other),
    }
    match IdentityLabel::parse("Unknown:x") {
        Err(CredentialError::InvalidLabel(m)) => assert_eq!(m, "unknown scheme: unknown"),
        other => panic!("unexpected {:?}", other),
    }
    let label = IdentityLabel::parse("ENV:a:b").unwrap();
    assert_eq!(label.scheme, CredentialScheme::Env);
    assert_eq!(label.path, "a:b");
}

#[test]
fn test_credential_creation() {
    let label = IdentityLabel::parse("env:TEST_KEY").unwrap();
    let cred = Credential::new(b"secret_value".to_vec(), label.clone());
    assert_eq!(cred.len(), 12);
    assert!(!cred.is_empty());
    assert_eq!(cred.label(), &label);
}

#[test]
fn test_credential_expose_secret() {
    let label = IdentityLabel::parse("env:TEST_KEY").unwrap();
    let cred = Credential::new(b"my_secret".to_vec(), label);
    assert_eq!(cred.expose_secret(), b"my_secret");
}

#[test]
fn test_credential_expose_secret_str() {
    let label = IdentityLabel::parse("env:TEST_KEY").unwrap();
    let cred = Credential::new(b"hello_world".to_vec(), label);
    assert_eq!(cred.expose_secret_str().unwrap(), "hello_world");
}

#[test]
fn test_credential_debug_redacts_secret() {
    let label = IdentityLabel::parse("env:TEST_KEY").unwrap();
    let cred = Credential::new(b"super_secret".to_vec(), label);
    let debug = cred.redacted();
    assert!(debug.contains("[REDACTED]"));
    assert!(!debug.contains("super_secret"));
}

#[test]
fn test_credential_empty() {
    let label = IdentityLabel::parse("env:TEST_KEY").unwrap();
    let cred = Credential::new(Vec::new(), label);
    assert!(cred.is_empty());
    assert_eq!(cred.len(), 0);
}

#[test]
fn test_credential_clone_zeroizes_original_on_drop() {
    let label = IdentityLabel::parse("env:TEST_KEY").unwrap();
    let original = Credential::new(b"original_secret".to_vec(), label);
    let clone = original.clone();
    assert_eq!(clone.expose_secret(), b"original_secret");
    drop(original);
    assert_eq!(clone.expose_secret(), b"original_secret");
    assert_eq!(clone.len(), 15);
}

#[test]
fn credential_redaction_text_and_invalid_utf8() {
    let label = IdentityLabel::parse("env:K").unwrap();
    let cred = Credential::new(vec![0xFF, 0xFE], label);
    assert_eq!(cred.redacted(), "Credential { label: env:K, len: 2, secret: [REDACTED] }");
    assert!(cred.expose_secret_str().is_err());
}

#[test]
fn test_store_get() {
    let mut store = InMemoryCredentialStore::new();
    let label = IdentityLabel::parse("env:TEST_KEY").unwrap();
    store.insert("env:TEST_KEY", b"test_value");
    let cred = store.get(&label).unwrap();
    assert_eq!(cred.expose_secret(), b"test_value");
}

#[test]
fn test_store_get_not_found() {
    let store = InMemoryCredentialStore::new();
    let label = IdentityLabel::parse("env:MISSING").unwrap();
    let result = store.get(&label);
    assert!(matches!(result, Err(CredentialError::NotFound(_))));
}

#[test]
fn test_store_put_and_get() {
    let mut store = InMemoryCredentialStore::new();
    let label = IdentityLabel::parse("env:NEW_KEY").unwrap();
    store.put(&label, b"new_value").unwrap();
    let cred = store.get(&label).unwrap();
    assert_eq!(cred.expose_secret(), b"new_value");
}

#[test]
fn test_store_delete() {
    let mut store = InMemoryCredentialStore::new();
    let label = IdentityLabel::parse("env:DELETE_ME").unwrap();
    store.insert("env:DELETE_ME", b"value");
    store.delete(&label).unwrap();
    let result = store.get(&label);
    assert!(matches!(result, Err(CredentialError::NotFound(_))));
}

#[test]
fn test_store_list() {
    let mut store = InMemoryCredentialStore::new();
    store.insert("env:KEY1", b"v1");
    store.insert("env:KEY2", b"v2");
    store.insert("file:/tmp/secret", b"v3");
    let labels = store.list().unwrap();
    assert_eq!(labels.len(), 3);
}

#[test]
fn test_store_empty_credential() {
    let mut store = InMemoryCredentialStore::new();
    store.insert("env:EMPTY", b"");
    let label = IdentityLabel::parse("env:EMPTY").unwrap();
    let result = store.get(&label);
    assert!(matches!(result, Err(CredentialError::Empty)));
}

#[test]
fn store_not_found_names_label_and_list_skips_bad_keys() {
    let mut store = InMemoryCredentialStore::new();
    store.insert("not a label", b"x");
    store.insert("hsm:k", b"y");
    let labels = store.list().unwrap();
    assert_eq!(labels.len(), 1);
    assert_eq!(labels[0].scheme, CredentialScheme::Hsm);
    match store.get(&IdentityLabel::parse("vault:nothing").unwrap()) {
        Err(CredentialError::NotFound(k)) => assert_eq!(k, "vault:nothing"),
        other => panic!("unexpected {:?}", other.map(|c| c.len())),
    }
}

#[test]
fn test_master_key_generate_and_export() {
    let key = MasterKey::generate();
    let encoded = key.to_base64();
    let parsed = MasterKey::from_base64(&encoded).unwrap();
    assert_eq!(parsed.to_base64(), key.to_base64());
}

#[test]
fn test_master_key_invalid_length() {
    let short = base64_encode(&[0u8; 16]);
    let result = MasterKey::from_base64(&short);
    assert!(matches!(result, Err(CredentialError::Store(_))));
}

#[test]
fn test_master_key_invalid_base64() {
    let result = MasterKey::from_base64("not valid base64!!!");
    assert!(matches!(result, Err(CredentialError::Store(_))));
}

#[test]
fn master_key_error_messages() {
    match MasterKey::from_base64(&base64_encode(&[1u8; 16])) {
        Err(CredentialError::Store(m)) => assert_eq!(m, "master key must be 32 bytes, got 16"),
        _ => panic!("expected a store error"),
    }
    match MasterKey::from_base64("abc!") {
        Err(CredentialError::Store(m)) => {
            assert_eq!(m, "invalid base64 master key: invalid base64 character: !")
        },
        _ => panic!("expected a store error"),
    }
}

#[test]
fn file_store_test_base64_roundtrip() {
    let data = b"Hello, World! This is a test of base64 encoding.";
    let encoded = base64_encode(data);
    let decoded = base64_decode(&encoded).unwrap();
    assert_eq!(decoded, data);
}

#[test]
fn test_base64_empty() {
    assert_eq!(base64_encode(b""), "");
    assert_eq!(base64_decode("").unwrap(), Vec::<u8>::new());
}

#[test]
fn sealed_file_opens_to_plaintext_and_wrong_key_fails() {
    let key = MasterKey::generate();
    let file = seal_credentials(&key, b"{\"env:K\":[1,2,3]}").unwrap();
    assert_eq!(file.version, 1);
    assert_eq!(base64_decode(&file.nonce).unwrap().len(), 12);
    let opened = open_credentials(&key, &file).unwrap();
    assert_eq!(opened, b"{\"env:K\":[1,2,3]}".to_vec());
    let other = MasterKey::generate();
    match open_credentials(&other, &file) {
        Err(CredentialError::Store(m)) => assert_eq!(m, "decryption failed: aead::Error"),
        _ => panic!("expected a decryption failure"),
    }
}

#[test]
fn open_refuses_bad_version_and_nonce() {
    let key = MasterKey::generate();
    let mut file = seal_credentials(&key, b"x").unwrap();
    file.version = 2;
    match open_credentials(&key, &file) {
        Err(CredentialError::Store(m)) => assert_eq!(m, "unsupported credential file version: 2"),
        _ => panic!("expected a version error"),
    }
    let bad = EncryptedFile { version: 1, nonce: base64_encode(&[0u8; 8]), ciphertext: String::new() };
    match open_credentials(&key, &bad) {
        Err(CredentialError::Store(m)) => assert_eq!(m, "nonce must be 12 bytes, got 8"),
        _ => panic!("expected a nonce error"),
    }
}

#[test]
fn file_store_put_get_list_sorted() {
    let mut store = FileCredentialStore::new("/tmp/creds.enc".to_string(), MasterKey::generate());
    for name in ["vault:z", "env:B", "env:A", "file:/x"] {
        let label = IdentityLabel::parse(name).unwrap();
        store.put(&label, name.as_bytes()).unwrap();
    }
    let labels = store.list().unwrap();
    let texts: Vec<String> = labels.iter().map(|l| l.to_string()).collect();
    assert_eq!(texts, vec!["env:A", "env:B", "file:/x", "vault:z"]);
    let cred = store.get(&IdentityLabel::parse("env:A").unwrap()).unwrap();
    assert_eq!(cred.expose_secret_str().unwrap(), "env:A");
    store.delete(&IdentityLabel::parse("env:A").unwrap()).unwrap();
    assert!(matches!(store.get(&IdentityLabel::parse("env:A").unwrap()), Err(CredentialError::NotFound(_))));
    assert_eq!(store.path(), "/tmp/creds.enc");
}

#[test]
fn file_store_from_entries_later_entry_wins() {
    let entries = vec![("env:K".to_string(), b"old".to_vec()), ("env:K".to_string(), b"new".to_vec())];
    let store = FileCredentialStore::from_entries("/tmp/x".to_string(), MasterKey::generate(), entries);
    let cred = store.get(&IdentityLabel::parse("env:K").unwrap()).unwrap();
    assert_eq!(cred.expose_secret(), b"new");
    assert_eq!(store.entries().len(), 1);
}

#[test]
fn test_credential_zeroize_on_drop() {
    let mut buffer = [0xABu8; 64];
    assert_eq!(buffer[0], 0xAB);
    assert_eq!(buffer[32], 0xAB);
    buffer.zeroize();
    for (i, &byte) in buffer.iter().enumerate() {
        assert_eq!(byte, 0, "byte {i} not zeroed after zeroize()");
    }
}

#[test]
fn test_credential_zeroizing_vec_zeroizes() {
    let mut vec = vec![0xCDu8; 128];
    assert_eq!(vec[0], 0xCD);
    assert_eq!(vec[64], 0xCD);
    vec.zeroize();
    for (i, &byte) in vec.iter().enumerate() {
        assert_eq!(byte, 0, "byte {i} not zeroed after zeroize()");
    }
}

#[test]
fn test_credential_no_secret_in_debug_after_drop() {
    let label = IdentityLabel::parse("env:TEST_KEY").unwrap();
    let secret_marker = b"MARKER_SECRET_12345";
    {
        let _cred = Credential::new(secret_marker.to_vec(), label.clone());
    }
    assert_eq!(label.to_string(), "env:TEST_KEY");
    fn assert_zeroize_on_drop<T: zeroize::ZeroizeOnDrop>() {}
    assert_zeroize_on_drop::<zeroize::Zeroizing<Vec<u8>>>();
}

#[test]
fn credentials_json_exact_text() {
    let entries = vec![("env:A".to_string(), vec![1u8, 2, 255]), ("file:/x\"y".to_string(), Vec::new())];
    let text = credentials_json(&entries);
    assert_eq!(text, "{\"env:A\":[1,2,255],\"file:/x\\\"y\":[]}");
    let parsed: std::collections::HashMap<String, Vec<u8>> = serde_json::from_str(&text).unwrap();
    assert_eq!(parsed.get("env:A"), Some(&vec![1u8, 2, 255]));
    assert_eq!(parsed.get("file:/x\"y"), Some(&Vec::new()));
    assert_eq!(credentials_json(&Vec::new()), "{}");
}

#[test]
fn sealed_store_reopens_with_same_credentials() {
    let key = MasterKey::generate();
    let same_key = MasterKey::from_base64(&key.to_base64()).unwrap();
    let mut store = FileCredentialStore::new("/tmp/creds.enc".to_string(), key);
    store.put(&IdentityLabel::parse("env:A").unwrap(), b"alpha").unwrap();
    store.put(&IdentityLabel::parse("vault:b/c").unwrap(), b"beta").unwrap();
    let file = store.seal_all().unwrap();
    assert_eq!(file.version, 1);
    let reopened = FileCredentialStore::open_sealed("/tmp/creds.enc".to_string(), same_key, &file).unwrap();
    assert_eq!(reopened.get(&IdentityLabel::parse("env:A").unwrap()).unwrap().expose_secret(), b"alpha");
    assert_eq!(reopened.get(&IdentityLabel::parse("vault:b/c").unwrap()).unwrap().expose_secret(), b"beta");
    assert_eq!(reopened.entries().len(), 2);
    assert_eq!(reopened.path(), "/tmp/creds.enc");
}

#[test]
fn open_sealed_with_wrong_key_fails() {
    let mut store = FileCredentialStore::new("/tmp/x".to_string(), MasterKey::generate());
    store.put(&IdentityLabel::parse("env:A").unwrap(), b"alpha").unwrap();
    let file = store.seal_all().unwrap();
    match FileCredentialStore::open_sealed("/tmp/x".to_string(), MasterKey::generate(), &file) {
        Err(CredentialError::Store(m)) => assert_eq!(m, "decryption failed: aead::Error"),
        _ => panic!("expected a decryption failure"),
    }
}

#[test]
fn open_sealed_rejects_plaintext_that_is_not_a_map() {
    let key = MasterKey::generate();
    let same_key = MasterKey::from_base64(&key.to_base64()).unwrap();
    let file = seal_credentials(&key, b"[1,2]").unwrap();
    match FileCredentialStore::open_sealed("/tmp/x".to_string(), same_key, &file) {
        Err(CredentialError::Store(m)) => assert!(m.starts_with("invalid credential map: "), "{m}"),
        _ => panic!("expected an invalid map"),
    }
}

#[test]
fn label_text_round_trips_and_scheme_ignores_case() {
    for scheme in [
        CredentialScheme::Env,
        CredentialScheme::File,
        CredentialScheme::Hsm,
        CredentialScheme::Vault,
        CredentialScheme::Inline,
    ] {
        let l = IdentityLabel::new(scheme, "some/path:with:colons");
        assert_eq!(IdentityLabel::parse(&l.to_string()).unwrap(), l);
    }
    assert_eq!(IdentityLabel::parse("VaUlT:x").unwrap().scheme, CredentialScheme::Vault);
    assert_eq!("HSM:k".parse::<IdentityLabel>().unwrap().scheme, CredentialScheme::Hsm);
    assert!(matches!(IdentityLabel::parse("vaults:x"), Err(CredentialError::InvalidLabel(_))));
}
