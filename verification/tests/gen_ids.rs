use idgen::gen_cuid;
use idgen::gen_cuid2;
use idgen::gen_max_uuid;
use idgen::gen_nano_id;
use idgen::gen_nil_uuid;
use idgen::gen_nuid;
use idgen::gen_object_id;
use idgen::gen_scru128;
use idgen::gen_short_uuid;
use idgen::gen_snowflake;
use idgen::gen_sonyflake;
use idgen::gen_tsid;
use idgen::gen_ulid;
use idgen::gen_upid;
use idgen::gen_uuid_v1;
use idgen::gen_uuid_v3;
use idgen::gen_uuid_v4;
use idgen::gen_uuid_v5;
use idgen::gen_uuid_v6;
use idgen::gen_uuid_v7;

const NIL: &str = "00000000-0000-0000-0000-000000000000";
const MAX: &str = "FFFFFFFF-FFFF-FFFF-FFFF-FFFFFFFFFFFF";
const DNS_NAMESPACE: &str = "6ba7b810-9dad-11d1-80b4-00c04fd430c8";

fn assert_hyphenated(id: &str) {
    assert_eq!(36, id.len());
    let bytes = id.as_bytes();
    assert_eq!(b'-', bytes[8]);
    assert_eq!(b'-', bytes[13]);
    assert_eq!(b'-', bytes[18]);
    assert_eq!(b'-', bytes[23]);
    assert!(uuid::Uuid::try_parse(id).is_ok());
}

#[test]
fn test_gen_nil_empty_uuid() {
    let expected = "00000000-0000-0000-0000-000000000000";
    let ids = gen_nil_uuid(5);
    println!("{:?}", ids);
    assert_eq!(5, ids.len());
    assert_eq!(expected, ids[0]);
}

#[test]
fn nil_batch_is_constant() {
    let ids = gen_nil_uuid(5);
    assert_eq!(5, ids.len());
    for id in &ids {
        assert_eq!(NIL, id);
    }
    assert_eq!(0, gen_nil_uuid(0).len());
}

#[test]
fn max_batch_is_constant() {
    let ids = gen_max_uuid(4);
    assert_eq!(4, ids.len());
    for id in &ids {
        assert_eq!(MAX, id);
    }
    assert_eq!(0, gen_max_uuid(0).len());
}

#[test]
fn batch_lengths_match_request() {
    assert_eq!(0, gen_uuid_v4(0).len());
    assert_eq!(10, gen_uuid_v4(10).len());
    assert_eq!(3, gen_uuid_v1(3).len());
    assert_eq!(3, gen_uuid_v6(3).len());
    assert_eq!(3, gen_uuid_v7(3).len());
    assert_eq!(7, gen_nano_id(7).len());
    assert_eq!(2, gen_cuid(2).len());
    assert_eq!(2, gen_cuid2(2).len());
    assert_eq!(2, gen_nuid(2).len());
    assert_eq!(2, gen_snowflake(2).len());
    assert_eq!(2, gen_upid("user", 2).len());
    assert_eq!(2, gen_tsid(2).len());
    assert_eq!(2, gen_object_id(2).len());
    assert_eq!(2, gen_scru128(2).len());
    assert_eq!(2, gen_short_uuid(2).len());
}

#[test]
fn name_based_v5_valid_namespace_is_deterministic() {
    let ids = gen_uuid_v5(DNS_NAMESPACE, "example", 3);
    assert_eq!(3, ids.len());
    let expected = uuid::Uuid::new_v5(
        &uuid::Uuid::parse_str(DNS_NAMESPACE).unwrap(),
        "example".as_bytes(),
    )
    .hyphenated()
    .to_string();
    for id in &ids {
        assert!(!id.is_empty());
        assert_hyphenated(id);
        assert_eq!(&expected, id);
    }
}

#[test]
fn name_based_v3_valid_namespace_is_deterministic() {
    let ids = gen_uuid_v3(DNS_NAMESPACE, "example", 4);
    assert_eq!(4, ids.len());
    let expected = uuid::Uuid::new_v3(
        &uuid::Uuid::parse_str(DNS_NAMESPACE).unwrap(),
        "example".as_bytes(),
    )
    .hyphenated()
    .to_string();
    for id in &ids {
        assert_hyphenated(id);
        assert_eq!(&expected, id);
    }
}

#[test]
fn name_based_empty_name_gives_empty_batch() {
    assert_eq!(0, gen_uuid_v3(DNS_NAMESPACE, "", 3).len());
    assert_eq!(0, gen_uuid_v5(DNS_NAMESPACE, "", 3).len());
    assert_eq!(0, gen_uuid_v3("", "", 5).len());
    assert_eq!(0, gen_uuid_v5("not a uuid", "", 5).len());
}

#[test]
fn name_based_v3_invalid_namespace_degrades_to_random() {
    let ids = gen_uuid_v3("", "example", 3);
    assert_eq!(3, ids.len());
    for id in &ids {
        assert_hyphenated(id);
        assert_eq!(3, uuid::Uuid::parse_str(id).unwrap().get_version_num());
    }
}

#[test]
fn name_based_v5_invalid_namespace_elements_vary() {
    let ids = gen_uuid_v5("not a uuid", "example", 8);
    assert_eq!(8, ids.len());
    for id in &ids {
        assert_hyphenated(id);
        assert_eq!(5, uuid::Uuid::parse_str(id).unwrap().get_version_num());
    }
    let mut all_same = true;
    for id in &ids {
        if id != &ids[0] {
            all_same = false;
        }
    }
    assert!(!all_same);
}

#[test]
fn random_v4_batch_is_valid_and_distinct() {
    let ids = gen_uuid_v4(10);
    assert_eq!(10, ids.len());
    for id in &ids {
        assert_hyphenated(id);
        assert_eq!(4, uuid::Uuid::parse_str(id).unwrap().get_version_num());
        assert_eq!(b'4', id.as_bytes()[14]);
        let variant = id.as_bytes()[19];
        assert!(variant == b'8' || variant == b'9' || variant == b'a' || variant == b'b');
        for c in id.chars() {
            assert!(c == '-' || c.is_ascii_hexdigit());
            assert!(!c.is_ascii_uppercase());
        }
    }
    let mut a: usize = 0;
    while a < ids.len() {
        let mut b: usize = 0;
        while b < a {
            assert_ne!(ids[a], ids[b]);
            b += 1;
        }
        a += 1;
    }
}

#[test]
fn time_based_uuids_are_valid() {
    for id in &gen_uuid_v1(3) {
        assert_eq!(1, uuid::Uuid::parse_str(id).unwrap().get_version_num());
        assert_eq!(b'1', id.as_bytes()[14]);
        assert!(id.ends_with("010203040506"));
    }
    for id in &gen_uuid_v6(3) {
        assert_eq!(6, uuid::Uuid::parse_str(id).unwrap().get_version_num());
        assert_eq!(b'6', id.as_bytes()[14]);
        assert!(id.ends_with("010203040506"));
    }
    for id in &gen_uuid_v7(3) {
        assert_eq!(7, uuid::Uuid::parse_str(id).unwrap().get_version_num());
        assert_eq!(b'7', id.as_bytes()[14]);
    }
}

#[test]
fn ulid_batch_is_ordered_and_well_formed() {
    let ids = gen_ulid(4).unwrap();
    assert_eq!(4, ids.len());
    let crockford = "0123456789ABCDEFGHJKMNPQRSTVWXYZ";
    for id in &ids {
        assert_eq!(26, id.len());
        for c in id.chars() {
            assert!(crockford.contains(c));
        }
    }
    for w in ids.windows(2) {
        assert!(w[0] < w[1]);
    }
}

#[test]
fn nano_id_has_default_shape() {
    let ids = gen_nano_id(5);
    for id in &ids {
        assert_eq!(21, id.len());
        for c in id.chars() {
            assert!(c.is_ascii_alphanumeric() || c == '_' || c == '-');
        }
    }
}

#[test]
fn cuid_batches_have_expected_shape() {
    for id in &gen_cuid(3) {
        assert!(id.starts_with('c'));
        assert!(cuid::is_cuid1(id));
    }
    for id in &gen_cuid2(3) {
        assert_eq!(24, id.len());
        assert!(cuid::is_cuid2(id));
    }
}

#[test]
fn nuid_batch_is_distinct_and_sized() {
    let ids = gen_nuid(3);
    assert_eq!(3, ids.len());
    for id in &ids {
        assert_eq!(22, id.len());
        for c in id.chars() {
            assert!(c.is_ascii_alphanumeric());
        }
    }
    assert_ne!(ids[0], ids[1]);
    assert_ne!(ids[1], ids[2]);
}

#[test]
fn snowflake_batch_is_decimal() {
    let ids = gen_snowflake(3);
    assert_eq!(3, ids.len());
    for id in &ids {
        let value: i64 = id.parse().unwrap();
        assert!(value > 0);
    }
}

#[test]
fn sonyflake_batch_is_decimal() {
    // The default generator needs a private IP to derive its machine id;
    // where the host has none, the batch reports unavailability instead.
    match gen_sonyflake(3) {
        Ok(ids) => {
            assert_eq!(3, ids.len());
            let mut prev: u64 = 0;
            for id in &ids {
                let value: u64 = id.parse().unwrap();
                assert!(value > 0);
                assert!(value > prev);
                prev = value;
            }
        }
        Err(e) => {
            assert_eq!(idgen::IdError::TimeUnavailable, e);
        }
    }
}

#[test]
fn upid_carries_prefix() {
    let ids = gen_upid("user", 2);
    for id in &ids {
        assert_eq!(27, id.len());
        assert!(id.starts_with("user_"));
    }
    for id in &gen_upid("", 2) {
        assert_eq!(27, id.len());
    }
}

#[test]
fn tsid_batch_has_fixed_width() {
    let crockford = "0123456789ABCDEFGHJKMNPQRSTVWXYZ";
    for id in &gen_tsid(3) {
        assert_eq!(13, id.len());
        for c in id.chars() {
            assert!(crockford.contains(c));
        }
    }
}

#[test]
fn object_id_batch_is_hex() {
    for id in &gen_object_id(3) {
        assert_eq!(24, id.len());
        for c in id.chars() {
            assert!(c.is_ascii_hexdigit());
        }
    }
}

#[test]
fn scru128_batch_has_fixed_width() {
    for id in &gen_scru128(3) {
        assert_eq!(25, id.len());
        for c in id.chars() {
            assert!(c.is_ascii_lowercase() || c.is_ascii_digit());
        }
    }
}

#[test]
fn short_uuid_batch_is_nonempty_text() {
    let ids = gen_short_uuid(3);
    assert_eq!(3, ids.len());
    for id in &ids {
        assert!(!id.is_empty());
        assert_eq!(22, id.len());
    }
}

#[test]
fn join_lines_joins_with_newlines() {
    let empty: Vec<String> = vec![];
    assert_eq!("", idgen::join_lines(&empty));
    let one: Vec<String> = vec!["abc".to_string()];
    assert_eq!("abc", idgen::join_lines(&one));
    let three: Vec<String> = vec!["a".to_string(), "bb".to_string(), "c".to_string()];
    assert_eq!("a\nbb\nc", idgen::join_lines(&three));
}
