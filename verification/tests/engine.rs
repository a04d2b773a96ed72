use krab::cipher::{CipherConfig, UserError};
use krab::crypto::{hash, DerivedKey};
use krab::frame::{u32_from_be, u32_to_be};
use krab::models::RecordOperationConfig;
use krab::payload::{is_payload, marshal, unmarshal};
use krab::record::{serialize_all, Record};
use krab::user::{ReadOnlyRecords, User, Username};

fn config(domain: &str, password: &str) -> RecordOperationConfig {
    RecordOperationConfig::new("krab-user", "password", domain, password, "/tmp/krab")
}

fn with_master(master: &str, domain: &str, password: &str) -> RecordOperationConfig {
    RecordOperationConfig::new("krab-user", master, domain, password, "/tmp/krab")
}

fn create(domain: &str, password: &str) -> Vec<u8> {
    User::new(&config(domain, password), false).unwrap()
}

fn open(file: &Vec<u8>) -> (User, ReadOnlyRecords) {
    User::from("/tmp/krab", "krab-user", "password", Some(file.clone())).unwrap()
}

fn file_of(pairs: &[(&str, &str)]) -> Vec<u8> {
    let derived = DerivedKey::derive_key("password", None);
    let mut file = Vec::new();
    let mut nonce = [0u8; 12];
    for (domain, password) in pairs {
        nonce[0] += 1;
        let cipher = CipherConfig::seal_payload(derived.clone(), nonce, domain, password).unwrap();
        cipher.write(&mut file);
    }
    file
}

fn blank_user() -> User {
    User(Vec::new(), "/tmp/krab".to_string(), Username("krab-user".to_string()))
}

fn pair(domain: &str, password: &str) -> (String, String) {
    (domain.to_string(), password.to_string())
}

#[test]
fn test_derive_key() {
    let data = "krab";
    let derived_key = DerivedKey::derive_key(data, None);
    let key = derived_key.key;
    let salt = derived_key.salt;
    assert_eq!(key.len(), 16);
    assert_eq!(salt.len(), 22);
}

#[test]
fn user_test_derive_key() {
    let data = "kepper-crabby";
    let derived_key = DerivedKey::derive_key(data, None);
    let key = derived_key.key;
    let salt = derived_key.salt;
    assert_eq!(key.len(), 16);
    assert_eq!(salt.len(), 22);
}

#[test]
fn test_marshalling() {
    let domain = "example.com";
    let password = "password";
    let data = CipherConfig::marshal(domain, password);
    let (d, p) = CipherConfig::unmarshal(data.as_str());
    assert_eq!(d, domain);
    assert_eq!(p, password);

    let domain = "example.com with spaces";
    let password = "password with spaces";
    let data = CipherConfig::marshal(domain, password);
    let (d, p) = CipherConfig::unmarshal(data.as_str());
    assert_eq!(d, domain);
    assert_eq!(p, password);

    let domain = "example.com with \\";
    let password = "password with \\";
    let data = CipherConfig::marshal(domain, password);
    let (d, p) = CipherConfig::unmarshal(data.as_str());
    assert_eq!(d, domain);
    assert_eq!(p, password);

    let domain = "example.com with \\ and    spacessss";
    let password = "password with \\ and    spacessss";
    let data = CipherConfig::marshal(domain, password);
    let (d, p) = CipherConfig::unmarshal(data.as_str());
    assert_eq!(d, domain);
    assert_eq!(p, password);
}

#[test]
fn test_cipher_config() {
    let domain = "example.com";
    let password = "password";
    let data = CipherConfig::marshal(domain, password);
    let master_password = "password";
    let cipher = CipherConfig::encrypt_data(domain, password, master_password).unwrap();
    let decrypted = cipher.decrypt_data().unwrap();
    let decrypted = format!("{} {}", decrypted.domain, decrypted.password);
    assert_eq!(decrypted, data);

    let domain = "example.com with  spaces and \\";
    let password = "password with  spaces and \\";
    let data = CipherConfig::marshal(domain, password);
    let marshalled =
        "example.com\\swith\\s\\sspaces\\sand\\s\\\\ password\\swith\\s\\sspaces\\sand\\s\\\\"
            .to_string();
    assert_eq!(data, marshalled);
}

#[test]
fn marshal_escapes_spaces_and_backslashes() {
    assert_eq!(marshal("a b\\c", "p q"), "a\\sb\\\\c p\\sq");
    assert_eq!(marshal("plain", "text"), "plain text");
}

#[test]
fn unmarshal_reads_first_two_tokens() {
    assert_eq!(unmarshal("a\\sb\\\\c p\\sq"), pair("a b\\c", "p q"));
    assert_eq!(unmarshal("  one \t two three"), pair("one", "two"));
}

#[test]
fn escaping_edge_cases_round_trip() {
    let domain = "a b\\c";
    let password = " lead\\\\ and trail \\";
    let data = marshal(domain, password);
    assert!(is_payload(data.as_str()));
    assert_eq!(unmarshal(data.as_str()), pair(domain, password));
    let cipher = CipherConfig::encrypt_data(domain, password, "master").unwrap();
    let opened = cipher.decrypt_data().unwrap();
    assert_eq!(opened.domain, domain);
    assert_eq!(opened.password, password);
}

#[test]
fn backslash_before_s_is_read_back() {
    let data = marshal("\\s", "pw");
    assert_eq!(data, "\\\\s pw");
    assert_eq!(unmarshal(data.as_str()), pair("\\s", "pw"));
    let domain = "\\\\s \\s\\ s";
    let password = "s\\s\\\\ss\\";
    let data = marshal(domain, password);
    assert_eq!(unmarshal(data.as_str()), pair(domain, password));
    let cipher = CipherConfig::seal_payload(
        DerivedKey::new([7u8; 16], vec![1u8; 22]),
        [3u8; 12],
        "\\s",
        password,
    )
    .unwrap();
    let opened = cipher.decrypt_data().unwrap();
    assert_eq!(opened.domain, "\\s");
    assert_eq!(opened.password, password);
}

#[test]
fn unescape_reads_one_escape_at_a_time() {
    assert_eq!(unmarshal("\\\\s x"), pair("\\s", "x"));
    assert_eq!(unmarshal("\\s\\s x"), pair("  ", "x"));
    assert_eq!(unmarshal("\\\\\\s x"), pair("\\ ", "x"));
    assert_eq!(unmarshal("a\\b x\\"), pair("a\\b", "x\\"));
}

#[test]
fn payload_needs_two_tokens() {
    assert!(is_payload("a b"));
    assert!(is_payload(" a\u{a0}b "));
    assert!(!is_payload("only"));
    assert!(!is_payload("  only  "));
    assert!(!is_payload(""));
    assert!(!is_payload(marshal("", "pw").as_str()));
}

#[test]
fn derive_key_is_deterministic() {
    let first = DerivedKey::derive_key("krab", None);
    let again = DerivedKey::derive_key("krab", Some(first.salt.clone()));
    assert_eq!(again.salt, first.salt);
    assert_eq!(again.key, first.key);
    let other = DerivedKey::derive_key("krab", Some(b"0123456789abcdefghijkl".to_vec()));
    assert_ne!(other.key, first.key);
    assert_ne!(&other.key[..], &b"krab"[..]);
}

#[test]
fn hash_is_lowercase_hex_of_sha256() {
    assert_eq!(
        hash("abc".to_string()),
        "ba7816bf8f01cfea414140de5dae2223b00361a396177a9cb410ff61f20015ad"
    );
    assert_eq!(
        hash(String::new()),
        "e3b0c44298fc1c149afbf4c8996fb92427ae41e4649b934ca495991b7852b855"
    );
}

#[test]
fn length_field_is_big_endian() {
    assert_eq!(u32_to_be(0x0102_0304), [1, 2, 3, 4]);
    assert_eq!(u32_to_be(27), [0, 0, 0, 27]);
    assert_eq!(u32_from_be(&vec![9, 0, 0, 1, 2, 9], 1), 258);
    assert_eq!(u32_from_be(&vec![255, 255, 255, 255], 0), u32::MAX);
}

#[test]
fn frame_layout_is_exact() {
    let cipher = CipherConfig::encrypt_data("example.com", "pw1", "password").unwrap();
    let mut buffer = vec![7u8];
    cipher.write(&mut buffer);
    let payload_len = "example.com pw1".len();
    assert_eq!(cipher.ciphertext.len(), payload_len + 16);
    assert_eq!(buffer.len(), 1 + 38 + payload_len + 16);
    assert_eq!(buffer[0], 7);
    assert_eq!(&buffer[1..23], &cipher.salt[..]);
    assert_eq!(&buffer[23..35], &cipher.nonce[..]);
    assert_eq!(&buffer[35..39], &[0, 0, 0, (payload_len + 16) as u8][..]);
    assert_eq!(&buffer[39..], &cipher.ciphertext[..]);
    assert_ne!(&cipher.ciphertext[..payload_len], "example.com pw1".as_bytes());
}

#[test]
fn read_from_bytes_returns_rest_and_offset() {
    let mut file = file_of(&[("example.com", "pw1")]);
    let frame_len = file.len();
    file.extend_from_slice(&[1, 2, 3]);
    let (record, rest, next) = Record::read_from_bytes(file.clone(), "password", 10).unwrap();
    assert_eq!(rest, vec![1, 2, 3]);
    assert_eq!(next, 10 + frame_len as u32);
    assert_eq!(record.offset, 10);
    assert_eq!(&record.cypher.salt[..], &file[0..22]);
    assert_eq!(&record.cypher.nonce[..], &file[22..34]);
    assert_eq!(&record.cypher.ciphertext[..], &file[38..frame_len]);
    let opened = record.data().unwrap();
    assert_eq!(opened.domain, "example.com");
    assert_eq!(opened.password, "pw1");
}

#[test]
fn read_from_bytes_rejects_short_input() {
    assert_eq!(
        Record::read_from_bytes(Vec::new(), "password", 0),
        Err(UserError::ParseFailure)
    );
    assert_eq!(
        Record::read_from_bytes(vec![0u8; 37], "password", 0),
        Err(UserError::ParseFailure)
    );
    let mut claims_more = vec![0u8; 38];
    claims_more[37] = 5;
    claims_more.extend_from_slice(&[1, 2, 3, 4]);
    assert_eq!(
        Record::read_from_bytes(claims_more, "password", 0),
        Err(UserError::ParseFailure)
    );
}

#[test]
fn read_user_reports_missing_and_broken_files() {
    assert_eq!(Record::read_user(None, "password"), Err(UserError::UserNotFound));
    assert_eq!(Record::read_user(Some(Vec::new()), "password"), Ok(Vec::new()));
    assert_eq!(
        Record::read_user(Some(vec![0u8; 5]), "password"),
        Err(UserError::ParseFailure)
    );
    let mut file = file_of(&[("example.com", "pw1")]);
    file.push(0);
    assert_eq!(Record::read_user(Some(file), "password"), Err(UserError::ParseFailure));
}

#[test]
fn decrypt_with_wrong_key_fails() {
    let cipher = CipherConfig::encrypt_data("example.com", "pw1", "password").unwrap();
    let wrong = DerivedKey::derive_key("wrong_password", Some(cipher.salt.clone()));
    let forged = CipherConfig::new(
        wrong.key,
        cipher.salt.clone(),
        cipher.nonce,
        cipher.ciphertext.clone(),
    );
    assert_eq!(forged.decrypt_data(), Err(UserError::DecryptionFailure));
    let mut tampered = cipher.clone();
    tampered.ciphertext[0] ^= 1;
    assert_eq!(tampered.decrypt_data(), Err(UserError::DecryptionFailure));
}

#[test]
fn test_create_user_success() {
    let file = create("example.com", "pw1");
    assert_eq!(file.len(), create_len("example.com", "pw1"));
    let (user, records) = open(&file);
    assert_eq!(records.records(), vec![pair("example.com", "pw1")]);
    assert_eq!(user.username(), "krab-user");
    assert_eq!(user.path(), "/tmp/krab");
    assert_eq!(user.file_name(), hash("krab-user".to_string()));
    assert_eq!(user.last_offset(), 0);
    assert_eq!(serialize_all(&user.0), file);
}

#[test]
fn test_create_user_fail_already_exists() {
    let res = User::new(&config("example.com", "password"), true);
    assert_eq!(res, Err(UserError::AlreadyExists));
}

#[test]
fn test_integrity_success() {
    let file = file_of(&[("example.com", "password")]);
    let (integrity, records) = blank_user().check_integrity(Some(file), "password");
    assert!(integrity);
    assert_eq!(records.unwrap().records(), vec![pair("example.com", "password")]);
}

#[test]
fn test_integrity_fail() {
    let file = file_of(&[("example.com", "password")]);
    let (integrity, records) = blank_user().check_integrity(Some(file), "wrong_password");
    assert!(!integrity);
    assert!(records.is_none());
}

#[test]
fn test_read_record_success() {
    let file = create("example.com", "password");
    let (_, records) = open(&file);
    let records = records.records();
    let (domain, password) = records.first().unwrap();
    assert_eq!(records.len(), 1);
    assert_eq!(domain, "example.com");
    assert_eq!(password, "password");

    let file = create("example2. com", "password");
    let (_, records) = open(&file);
    let records = records.records();
    let (domain, password) = records.first().unwrap();
    assert_eq!(records.len(), 1);
    assert_eq!(domain, "example2. com");
    assert_eq!(password, "password");
}

#[test]
fn open_with_wrong_password_or_without_file_fails() {
    let file = file_of(&[("example.com", "password")]);
    let wrong = User::from("/tmp/krab", "krab-user", "wrong_password", Some(file));
    assert_eq!(wrong.err(), Some(UserError::IntegrityFailure));
    let missing = User::from("/tmp/krab", "krab-user", "password", None);
    assert_eq!(missing.err(), Some(UserError::UserNotFound));
    let broken = User::from("/tmp/krab", "krab-user", "password", Some(vec![0u8; 40]));
    assert_eq!(broken.err(), Some(UserError::IntegrityFailure));
}

#[test]
fn empty_file_is_the_empty_log() {
    let (user, records) =
        User::from("/tmp/krab", "krab-user", "any password", Some(Vec::new())).unwrap();
    assert_eq!(records.records(), Vec::new());
    assert_eq!(user.0.len(), 0);
    assert_eq!(serialize_all(&user.0), Vec::<u8>::new());
    let (integrity, listed) = user.check_integrity(Some(Vec::new()), "password");
    assert!(integrity);
    assert_eq!(listed.unwrap().records(), Vec::new());
}

#[test]
fn user_lives_on_after_its_last_record_is_removed() {
    let file = file_of(&[("example.com", "pw1")]);
    let mut user = blank_user();
    let (records, content) = user
        .remove_record(config("example.com", ""), Some(file))
        .unwrap();
    assert_eq!(records.records(), Vec::new());
    assert_eq!(content, Vec::<u8>::new());
    let missing = user.remove_record(config("example.com", ""), Some(content.clone()));
    assert_eq!(
        missing.err(),
        Some(UserError::RecordNotFound("example.com".to_string()))
    );
    let (records, appended) = user
        .add_record(config("example2.com", "pw2"), Some(content.clone()))
        .unwrap();
    assert_eq!(records.records(), vec![pair("example2.com", "pw2")]);
    let (_, reopened) = open(&appended);
    assert_eq!(reopened.records(), vec![pair("example2.com", "pw2")]);
}

#[test]
fn records_come_back_in_file_order_with_running_offsets() {
    let file = file_of(&[("example.com", "pw1"), ("example2.com", "pw2")]);
    let (user, records) = open(&file);
    assert_eq!(
        records.records(),
        vec![pair("example.com", "pw1"), pair("example2.com", "pw2")]
    );
    assert_eq!(user.0[0].offset, 0);
    assert_eq!(user.0[1].offset, create_len("example.com", "pw1") as u32);
    assert_eq!(user.last_offset(), create_len("example.com", "pw1") as u32);
    assert_eq!(serialize_all(&user.0), file);
}

#[test]
fn test_add_record_success() {
    let mut file = file_of(&[("example.com", "pw1")]);
    let mut user = blank_user();
    let (records, appended) = user
        .add_record(config("example2.com", "pw2"), Some(file.clone()))
        .unwrap();
    assert_eq!(
        records.records(),
        vec![pair("example.com", "pw1"), pair("example2.com", "pw2")]
    );
    assert_eq!(appended.len(), create_len("example2.com", "pw2"));
    file.extend_from_slice(&appended);
    assert_eq!(file, serialize_all(&user.0));
    let (_, reopened) = open(&file);
    let listed = reopened.records();
    assert_eq!(listed.len(), 2);
    assert_eq!(listed.iter().filter(|r| **r == pair("example.com", "pw1")).count(), 1);
    assert_eq!(listed.iter().filter(|r| **r == pair("example2.com", "pw2")).count(), 1);
}

#[test]
fn test_add_record_fail() {
    let file = file_of(&[("example.com", "pw1")]);
    let mut user = blank_user();
    let res = user.add_record(
        with_master("wrong_password", "example2.com", "password2"),
        Some(file),
    );
    assert_eq!(res.err(), Some(UserError::IntegrityFailure));
    assert_eq!(user, blank_user());
    let res = user.add_record(config("example2.com", "password2"), None);
    assert_eq!(res.err(), Some(UserError::IntegrityFailure));
}

#[test]
fn test_add_record_fail_already_exists() {
    let file = file_of(&[("example.com", "pw1")]);
    let (mut user, _) = open(&file);
    let before = user.clone();
    let res = user.add_record(config("example.com", "password2"), Some(file.clone()));
    assert_eq!(
        res.err(),
        Some(UserError::DuplicateRecord("example.com".to_string()))
    );
    assert_eq!(user, before);
    assert_eq!(user.0.len(), 1);
}

#[test]
fn test_remove_record_success() {
    let file = file_of(&[("example.com", "pw1"), ("example2.com", "pw2"), ("example3.com", "pw3")]);
    let mut user = blank_user();
    let first_len = create_len("example.com", "pw1");
    let third_len = create_len("example3.com", "pw3");
    let (records, content) = user
        .remove_record(config("example2.com", ""), Some(file.clone()))
        .unwrap();
    assert_eq!(
        records.records(),
        vec![pair("example.com", "pw1"), pair("example3.com", "pw3")]
    );
    assert_eq!(content.len(), first_len + third_len);
    assert_eq!(&content[..first_len], &file[..first_len]);
    assert_eq!(&content[first_len..], &file[file.len() - third_len..]);
    assert_eq!(content, serialize_all(&user.0));
    assert_eq!(user.0.len(), 2);
}

#[test]
fn test_remove_record_read_user_success() {
    let file = file_of(&[("example.com", "pw1"), ("example2.com", "pw2")]);
    let mut user = blank_user();
    let (_, content) = user
        .remove_record(config("example2.com", ""), Some(file))
        .unwrap();
    let (reopened, records) = open(&content);
    assert_eq!(records.records(), vec![pair("example.com", "pw1")]);
    assert_eq!(reopened.0.len(), 1);
}

fn create_len(domain: &str, password: &str) -> usize {
    38 + domain.len() + 1 + password.len() + 16
}

#[test]
fn test_remove_record_fail_not_found() {
    let file = file_of(&[("example.com", "pw1")]);
    let mut user = blank_user();
    let res = user.remove_record(config("doesnotexist", ""), Some(file));
    assert_eq!(
        res.err(),
        Some(UserError::RecordNotFound("doesnotexist".to_string()))
    );
    assert_eq!(user, blank_user());
}

#[test]
fn test_remove_record_fail_integrity_check() {
    let file = file_of(&[("example.com", "pw1")]);
    let mut user = blank_user();
    let res = user.remove_record(with_master("wrong_password", "example.com", ""), Some(file));
    assert_eq!(res.err(), Some(UserError::IntegrityFailure));
    assert_eq!(user, blank_user());
}

#[test]
fn test_modify_record_success() {
    let file = file_of(&[("example.com", "pw1"), ("other.com", "pw")]);
    let mut user = blank_user();
    let (records, content) = user
        .modify_record(config("example.com", "password2"), Some(file.clone()))
        .unwrap();
    assert_eq!(
        records.records(),
        vec![pair("other.com", "pw"), pair("example.com", "password2")]
    );
    assert_eq!(content, serialize_all(&user.0));
    assert_eq!(
        content.len(),
        create_len("other.com", "pw") + create_len("example.com", "password2")
    );
    assert_eq!(user.0[1].offset, create_len("example.com", "pw1") as u32);
    let opened = user.0[1].data().unwrap();
    assert_eq!(opened.domain, "example.com");
    assert_eq!(opened.password, "password2");
}

#[test]
fn test_modify_integrity_fail() {
    let file = file_of(&[("example.com", "pw1")]);
    let mut user = blank_user();
    let res = user.modify_record(
        with_master("wrong_password", "example.com", "password2"),
        Some(file),
    );
    assert_eq!(res.err(), Some(UserError::IntegrityFailure));
    assert_eq!(user, blank_user());
}

#[test]
fn test_modify_record_fail_not_found() {
    let file = file_of(&[("example.com", "pw1")]);
    let mut user = blank_user();
    let res = user.modify_record(config("example2.com", "password2"), Some(file));
    assert_eq!(
        res.err(),
        Some(UserError::RecordNotFound("example2.com".to_string()))
    );
    assert_eq!(user, blank_user());
}

#[test]
fn read_only_records_are_a_copy() {
    let file = file_of(&[("example.com", "pw1")]);
    let (user, records) = open(&file);
    let mut copy = records.clone();
    copy.add_record(&"other.com".to_string(), &"pw".to_string());
    assert!(copy.contains_domain(&"other.com".to_string()));
    assert!(!records.contains_domain(&"other.com".to_string()));
    copy.remove_record(&"example.com".to_string());
    assert_eq!(copy.records(), vec![pair("other.com", "pw")]);
    assert_eq!(records.records(), vec![pair("example.com", "pw1")]);
    assert_eq!(serialize_all(&user.0), file);
}

#[test]
fn generated_password_uses_the_charset() {
    let charset = "abcdefghijklmnopqrstuvwxyzABCDEFGHIJKLMNOPQRSTUVWXYZ0123456789!@#$%^&*()-_=+[]{}|;:,.<>?";
    let first = krab::password::generate_password();
    let second = krab::password::generate_password();
    assert_eq!(first.chars().count(), 16);
    assert_eq!(second.chars().count(), 16);
    assert!(first.chars().all(|c| charset.contains(c)));
    assert!(second.chars().all(|c| charset.contains(c)));
}

#[test]
fn operation_configs_keep_their_arguments() {
    let add = krab::models::AddRecordConfig::new("u", "m", "d", "p", "/data".to_string());
    assert_eq!(
        add.operation(),
        RecordOperationConfig::new("u", "m", "d", "p", "/data")
    );
    let remove = krab::models::RemoveRecordConfig::new("u", "m", "d", "/data".to_string());
    assert_eq!(
        remove.operation(),
        RecordOperationConfig::new("u", "m", "d", "", "/data")
    );
    let modify = krab::models::ModifyRecordConfig::new("u", "m", "d", "q", "/data".to_string());
    assert_eq!(
        modify.operation(),
        RecordOperationConfig::new("u", "m", "d", "q", "/data")
    );
    let create = krab::models::CreateUserConfig::new("u", "m", "d", "p", "/data".to_string());
    assert_eq!(
        (create.username.as_str(), create.master_pwd.as_str(), create.path.as_str()),
        ("u", "m", "/data")
    );
    assert_eq!(
        create.operation(),
        RecordOperationConfig::new("u", "m", "d", "p", "/data")
    );
}

#[test]
fn models_test_create_user_success() {
    let config =
        krab::models::CreateUserConfig::new("krab-user", "password", "example.com", "password", "/tmp/krab".to_string());
    let file = config.create_user(false).unwrap();
    let (_, records) = open(&file);
    assert_eq!(records.records(), vec![pair("example.com", "password")]);
}

#[test]
fn models_test_create_user_fail_already_exists() {
    let config =
        krab::models::CreateUserConfig::new("krab-user", "password", "example.com", "password", "/tmp/krab".to_string());
    assert_eq!(config.create_user(true), Err(UserError::AlreadyExists));
}
