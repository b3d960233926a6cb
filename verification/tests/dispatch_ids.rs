use idgen::IdKind;
use idgen::generate;

const DNS_NAMESPACE: &str = "6ba7b810-9dad-11d1-80b4-00c04fd430c8";

#[test]
fn dispatcher_honours_the_requested_count() {
    let kinds: Vec<IdKind> = vec![
        IdKind::UuidV1,
        IdKind::UuidV4,
        IdKind::UuidV6,
        IdKind::UuidV7,
        IdKind::ShortUuid,
        IdKind::NilUuid,
        IdKind::MaxUuid,
        IdKind::NanoId,
        IdKind::Cuid,
        IdKind::Cuid2,
        IdKind::Nuid,
        IdKind::Snowflake,
        IdKind::Upid,
        IdKind::Tsid,
        IdKind::ObjectId,
        IdKind::Scru128,
    ];
    for kind in &kinds {
        let ids = generate(*kind, "", "", "", 3).unwrap();
        assert_eq!(3, ids.len());
        let empty = generate(*kind, "", "", "", 0).unwrap();
        assert_eq!(0, empty.len());
    }
}

#[test]
fn dispatcher_serves_name_based_kinds() {
    let ids = generate(IdKind::UuidV5, DNS_NAMESPACE, "example", "", 2).unwrap();
    assert_eq!(2, ids.len());
    assert_eq!(ids[0], ids[1]);
    let empty = generate(IdKind::UuidV3, DNS_NAMESPACE, "", "", 4).unwrap();
    assert_eq!(0, empty.len());
}

#[test]
fn dispatcher_serves_constant_kinds() {
    let ids = generate(IdKind::NilUuid, "", "", "", 2).unwrap();
    assert_eq!("00000000-0000-0000-0000-000000000000", ids[0]);
    let ids = generate(IdKind::MaxUuid, "", "", "", 2).unwrap();
    assert_eq!("FFFFFFFF-FFFF-FFFF-FFFF-FFFFFFFFFFFF", ids[1]);
}

#[test]
fn dispatcher_serves_fallible_kinds() {
    match generate(IdKind::Ulid, "", "", "", 2) {
        Ok(ids) => assert_eq!(2, ids.len()),
        Err(e) => assert_eq!(idgen::IdError::RandomOverflow, e),
    }
    match generate(IdKind::Sonyflake, "", "", "", 2) {
        Ok(ids) => assert_eq!(2, ids.len()),
        Err(e) => assert_eq!(idgen::IdError::TimeUnavailable, e),
    }
}
