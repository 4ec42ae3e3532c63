use gcp_gcs::notification::{
    parse_event_kind, parse_generation, parse_notification, EventKind, GcsObjectNotification,
    MalformedNotification,
};

fn parse(payload: &str) -> Result<GcsObjectNotification, MalformedNotification> {
    parse_notification(&payload.as_bytes().to_vec())
}

fn notification(bucket: &str, key: &str, generation: u64, kind: EventKind) -> GcsObjectNotification {
    GcsObjectNotification {
        bucket: bucket.as_bytes().to_vec(),
        key: key.as_bytes().to_vec(),
        generation,
        kind,
    }
}

#[test]
fn payload_spells_a_notification() {
    assert_eq!(
        parse("bucketId=b\nobjectId=k\nobjectGeneration=5\neventType=OBJECT_FINALIZE\n"),
        Ok(notification("b", "k", 5, EventKind::ObjectFinalize))
    );
}

#[test]
fn last_line_feed_may_be_missing() {
    assert_eq!(
        parse("bucketId=logs\nobjectId=2024/01/app=1.log\nobjectGeneration=1700000000000001\neventType=OBJECT_DELETE"),
        Ok(notification("logs", "2024/01/app=1.log", 1700000000000001, EventKind::ObjectDelete))
    );
}

#[test]
fn every_kind_is_read() {
    let with_kind = |kind: &str| {
        parse(&format!("bucketId=b\nobjectId=k\nobjectGeneration=0\neventType={}\n", kind))
            .map(|n| n.kind)
    };
    assert_eq!(with_kind("OBJECT_FINALIZE"), Ok(EventKind::ObjectFinalize));
    assert_eq!(with_kind("OBJECT_DELETE"), Ok(EventKind::ObjectDelete));
    assert_eq!(with_kind("OBJECT_METADATA_UPDATE"), Ok(EventKind::ObjectMetadataUpdate));
    assert_eq!(with_kind("OBJECT_OVERWRITE"), Ok(EventKind::ObjectOverwrite));
    assert_eq!(with_kind("OBJECT_ARCHIVE"), Err(MalformedNotification));
    assert_eq!(with_kind("object_finalize"), Err(MalformedNotification));
    assert_eq!(with_kind(""), Err(MalformedNotification));
}

#[test]
fn wrong_number_of_lines_is_malformed() {
    assert_eq!(parse(""), Err(MalformedNotification));
    assert_eq!(parse("bucketId=b\nobjectId=k\nobjectGeneration=5\n"), Err(MalformedNotification));
    assert_eq!(
        parse("bucketId=b\nobjectId=k\nobjectGeneration=5\neventType=OBJECT_FINALIZE\nextra=1\n"),
        Err(MalformedNotification)
    );
    assert_eq!(
        parse("bucketId=b\nobjectId=k\nobjectGeneration=5\neventType=OBJECT_FINALIZE\n\n"),
        Err(MalformedNotification)
    );
}

#[test]
fn missing_or_misplaced_field_names_are_malformed() {
    assert_eq!(
        parse("bucket=b\nobjectId=k\nobjectGeneration=5\neventType=OBJECT_FINALIZE\n"),
        Err(MalformedNotification)
    );
    assert_eq!(
        parse("objectId=k\nbucketId=b\nobjectGeneration=5\neventType=OBJECT_FINALIZE\n"),
        Err(MalformedNotification)
    );
    assert_eq!(
        parse("bucketId=b\nobjectId=k\nobjectGeneration=5\nOBJECT_FINALIZE\n"),
        Err(MalformedNotification)
    );
}

#[test]
fn empty_bucket_or_key_is_malformed() {
    assert_eq!(
        parse("bucketId=\nobjectId=k\nobjectGeneration=5\neventType=OBJECT_FINALIZE\n"),
        Err(MalformedNotification)
    );
    assert_eq!(
        parse("bucketId=b\nobjectId=\nobjectGeneration=5\neventType=OBJECT_FINALIZE\n"),
        Err(MalformedNotification)
    );
}

#[test]
fn generation_must_be_a_number_that_fits() {
    let digits = |text: &str| parse_generation(&text.as_bytes().to_vec());
    assert_eq!(digits("0"), Some(0));
    assert_eq!(digits("007"), Some(7));
    assert_eq!(digits("18446744073709551615"), Some(u64::MAX));
    assert_eq!(digits("18446744073709551616"), None);
    assert_eq!(digits("99999999999999999999999"), None);
    assert_eq!(digits(""), None);
    assert_eq!(digits("-1"), None);
    assert_eq!(digits("5 "), None);
    assert_eq!(digits("12a"), None);
    assert_eq!(
        parse("bucketId=b\nobjectId=k\nobjectGeneration=five\neventType=OBJECT_FINALIZE\n"),
        Err(MalformedNotification)
    );
}

#[test]
fn kind_names_are_read_exactly() {
    let kind = |text: &str| parse_event_kind(&text.as_bytes().to_vec());
    assert_eq!(kind("OBJECT_FINALIZE"), Some(EventKind::ObjectFinalize));
    assert_eq!(kind("OBJECT_FINALIZE "), None);
    assert_eq!(kind("OBJECT_"), None);
}

#[test]
fn only_finished_writes_trigger_a_fetch() {
    assert!(EventKind::ObjectFinalize.triggers_fetch());
    assert!(EventKind::ObjectOverwrite.triggers_fetch());
    assert!(!EventKind::ObjectDelete.triggers_fetch());
    assert!(!EventKind::ObjectMetadataUpdate.triggers_fetch());
}

#[test]
fn duplicate_is_equal() {
    let n = notification("b", "k", 5, EventKind::ObjectOverwrite);
    assert_eq!(n.duplicate(), n);
}
