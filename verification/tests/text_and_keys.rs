use spellbook_api::identifiers::{new_api_key, new_nanoid, NANOID_LENGTH};
use spellbook_api::text::{join3, to_decimal};
use spellbook_api::{calculate_hash, hash_bytes};
use std::collections::hash_map::DefaultHasher;
use std::hash::{Hash, Hasher};

fn std_hash<T: Hash>(value: &T) -> u64 {
    let mut hasher = DefaultHasher::new();
    value.hash(&mut hasher);
    hasher.finish()
}

#[test]
fn decimal_of_small_and_large_numbers() {
    assert_eq!(to_decimal(0), "0");
    assert_eq!(to_decimal(7), "7");
    assert_eq!(to_decimal(10), "10");
    assert_eq!(to_decimal(109), "109");
    assert_eq!(to_decimal(1234567890), "1234567890");
    assert_eq!(to_decimal(u64::MAX), "18446744073709551615");
}

#[test]
fn decimal_agrees_with_the_standard_rendering() {
    let mut n: u64 = 1;
    for _ in 0..64 {
        assert_eq!(to_decimal(n), n.to_string());
        assert_eq!(to_decimal(n - 1), (n - 1).to_string());
        n = n.wrapping_mul(3).wrapping_add(1);
    }
}

#[test]
fn join3_keeps_the_order_of_the_pieces() {
    assert_eq!(join3("a", "b", "c"), "abc");
    assert_eq!(join3("", "", ""), "");
    assert_eq!(join3("x \"", "é", "\"."), "x \"é\".");
}

#[test]
fn the_fingerprint_is_the_default_hash_of_the_string() {
    for key in ["", "a", "key", "67e55044-10b1-426f-9247-bb680e5fe0c8", "clé"] {
        assert_eq!(calculate_hash(key), std_hash(&key.to_string()));
        assert_eq!(calculate_hash(key), std_hash(&key));
    }
}

#[test]
fn the_fingerprint_depends_on_the_bytes_alone() {
    let key = "67e55044-10b1-426f-9247-bb680e5fe0c8";
    assert_eq!(calculate_hash(key), calculate_hash(&key.to_string()));
    assert_eq!(calculate_hash(key), hash_bytes(key.as_bytes()));
    assert_ne!(calculate_hash(key), calculate_hash("67e55044-10b1-426f-9247-bb680e5fe0c9"));
}

#[test]
fn a_fresh_handle_has_21_url_safe_characters() {
    for _ in 0..50 {
        let id = new_nanoid();
        assert_eq!(id.chars().count(), NANOID_LENGTH);
        assert_eq!(NANOID_LENGTH, 21);
        assert!(id.chars().all(|c| c.is_ascii_alphanumeric() || c == '_' || c == '-'));
    }
}

#[test]
fn fresh_handles_differ() {
    assert_ne!(new_nanoid(), new_nanoid());
}

#[test]
fn a_fresh_key_is_a_hyphenated_lower_case_uuid_of_version_4() {
    for _ in 0..50 {
        let key = new_api_key();
        assert_eq!(key.len(), 36);
        for (i, c) in key.chars().enumerate() {
            if i == 8 || i == 13 || i == 18 || i == 23 {
                assert_eq!(c, '-');
            } else {
                assert!(c.is_ascii_digit() || ('a'..='f').contains(&c), "{}", key);
            }
        }
        assert_eq!(key.chars().nth(14), Some('4'));
        let parsed = uuid::Uuid::parse_str(&key).unwrap();
        assert_eq!(parsed.get_version_num(), 4);
        assert_eq!(parsed.to_string(), key);
    }
}

#[test]
fn fresh_keys_differ() {
    assert_ne!(new_api_key(), new_api_key());
}
