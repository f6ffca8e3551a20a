use s3_listing::list_objects::{
    checksum_algorithm_from_name, classify_error_document, get_child, get_field, get_text,
    parse_checksum_algorithm, parse_list_objects_error, parse_object_info_from_xml,
    parse_restore_status, parse_result_from_bytes, parse_result_from_xml, MetaRequestResult,
};
use s3_listing::object_client::{
    ChecksumAlgorithm, ListObjectsError, ObjectInfo, ParseError, RestoreStatus,
};
use time::OffsetDateTime;
use xmltree::Element;

fn make_result(response_status: i32, body: &[u8]) -> MetaRequestResult {
    MetaRequestResult { response_status, error_response_body: Some(body.to_vec()) }
}

fn element(text: &str) -> Element {
    Element::parse(text.as_bytes()).unwrap()
}

fn instant(seconds: i64) -> OffsetDateTime {
    OffsetDateTime::from_unix_timestamp(seconds).unwrap()
}

const OBJECT_A: &str = "<Contents><Key>a.txt</Key><Size>10</Size><LastModified>2023-01-01T00:00:00Z</LastModified><ETag>\"abc\"</ETag></Contents>";

fn object_with(extra: &str) -> Element {
    element(&format!(
        "<Contents><Key>k</Key><Size>7</Size><LastModified>2023-01-01T00:00:00Z</LastModified><ETag>e</ETag>{extra}</Contents>"
    ))
}

#[test]
fn parse_404_no_such_bucket() {
    let body = br#"<?xml version="1.0" encoding="UTF-8"?><Error><Code>NoSuchBucket</Code><Message>The specified bucket does not exist</Message><BucketName>amzn-s3-demo-bucket</BucketName><RequestId>4YAYHJ0E82DDDNF0</RequestId><HostId>Ajn9+i3d3VWQi339YrGqBbJqQlj5HaX2vplXp9IlDPAxsJ4vsIAsje0P2gJ0of/mTKKz/fv9pNy9RqhbLUBc/g==</HostId></Error>"#;
    let result = make_result(404, &body[..]);
    let result = parse_list_objects_error(&result);
    assert_eq!(result, Some(ListObjectsError::NoSuchBucket));
}

#[test]
fn other_code_is_not_classified() {
    let result = make_result(404, b"<Error><Code>NoSuchKey</Code></Error>");
    assert_eq!(parse_list_objects_error(&result), None);
}

#[test]
fn other_status_is_not_classified() {
    let body = b"<Error><Code>NoSuchBucket</Code></Error>";
    assert_eq!(parse_list_objects_error(&make_result(403, body)), None);
    assert_eq!(parse_list_objects_error(&make_result(500, body)), None);
    assert_eq!(parse_list_objects_error(&make_result(200, body)), None);
}

#[test]
fn unreadable_error_body_is_not_classified() {
    assert_eq!(parse_list_objects_error(&make_result(404, b"not xml at all")), None);
    assert_eq!(parse_list_objects_error(&make_result(404, b"<Error><Code></Code></Error>")), None);
    assert_eq!(parse_list_objects_error(&make_result(404, b"<Error><Message>x</Message></Error>")), None);
    let no_body = MetaRequestResult { response_status: 404, error_response_body: None };
    assert_eq!(parse_list_objects_error(&no_body), None);
}

#[test]
fn error_document_is_read_by_its_code() {
    assert_eq!(
        classify_error_document(&element("<Error><Code>NoSuchBucket</Code></Error>")),
        Some(ListObjectsError::NoSuchBucket)
    );
    assert_eq!(classify_error_document(&element("<Error><Code>nosuchbucket</Code></Error>")), None);
}

#[test]
fn one_object_and_nothing_else() {
    let body = format!("<ListBucketResult>{OBJECT_A}<IsTruncated>false</IsTruncated></ListBucketResult>");
    let result = parse_result_from_bytes(body.as_bytes()).unwrap();
    assert_eq!(
        result.objects,
        vec![ObjectInfo {
            key: "a.txt".to_string(),
            size: 10,
            last_modified: instant(1672531200),
            storage_class: None,
            restore_status: None,
            etag: "\"abc\"".to_string(),
            checksum_algorithms: vec![],
        }]
    );
    assert!(result.common_prefixes.is_empty());
    assert_eq!(result.next_continuation_token, None);
}

#[test]
fn first_top_level_element_is_the_document() {
    let body = format!("{OBJECT_A}<IsTruncated>false</IsTruncated>");
    match parse_result_from_bytes(body.as_bytes()) {
        Err(ParseError::MissingField(node, field)) => {
            assert_eq!(field, "IsTruncated");
            assert_eq!(node.name, "Contents");
        }
        other => panic!("unexpected outcome: {other:?}"),
    }
}

#[test]
fn objects_and_prefixes_keep_document_order() {
    let body = "<R><CommonPrefixes><Prefix>p1/</Prefix></CommonPrefixes>\
        <Contents><Key>one</Key><Size>1</Size><LastModified>2023-01-01T00:00:00Z</LastModified><ETag>a</ETag></Contents>\
        <IsTruncated>true</IsTruncated>\
        <Contents><Key>two</Key><Size>2</Size><LastModified>2023-01-01T00:00:01Z</LastModified><ETag>b</ETag></Contents>\
        <CommonPrefixes><Prefix>p2/</Prefix></CommonPrefixes>\
        <NextContinuationToken>tok</NextContinuationToken>\
        <Contents><Key>three</Key><Size>3</Size><LastModified>2023-01-01T00:00:02Z</LastModified><ETag>c</ETag></Contents></R>";
    let result = parse_result_from_bytes(body.as_bytes()).unwrap();
    let keys: Vec<&str> = result.objects.iter().map(|o| o.key.as_str()).collect();
    assert_eq!(keys, vec!["one", "two", "three"]);
    let sizes: Vec<u64> = result.objects.iter().map(|o| o.size).collect();
    assert_eq!(sizes, vec![1, 2, 3]);
    assert_eq!(result.objects[2].last_modified, instant(1672531202));
    assert_eq!(result.common_prefixes, vec!["p1/".to_string(), "p2/".to_string()]);
    assert_eq!(result.next_continuation_token, Some("tok".to_string()));
}

#[test]
fn empty_listing() {
    let result = parse_result_from_bytes(b"<R><IsTruncated>false</IsTruncated></R>").unwrap();
    assert!(result.objects.is_empty());
    assert!(result.common_prefixes.is_empty());
    assert_eq!(result.next_continuation_token, None);
}

#[test]
fn truncated_without_token_is_invalid() {
    let result = parse_result_from_bytes(b"<R><IsTruncated>true</IsTruncated></R>");
    match result {
        Err(ParseError::InvalidResponse(node, problem)) => {
            assert_eq!(problem, "IsTruncated doesn't match NextContinuationToken");
            assert_eq!(node.name, "R");
        }
        other => panic!("unexpected outcome: {other:?}"),
    }
}

#[test]
fn token_without_truncation_is_invalid() {
    let result = parse_result_from_bytes(
        b"<R><IsTruncated>false</IsTruncated><NextContinuationToken>t</NextContinuationToken></R>",
    );
    match result {
        Err(ParseError::InvalidResponse(_, problem)) => {
            assert_eq!(problem, "IsTruncated doesn't match NextContinuationToken");
        }
        other => panic!("unexpected outcome: {other:?}"),
    }
}

#[test]
fn invalid_response_carries_the_pruned_document() {
    let body = format!("<R>{OBJECT_A}<CommonPrefixes><Prefix>p</Prefix></CommonPrefixes><IsTruncated>true</IsTruncated></R>");
    match parse_result_from_bytes(body.as_bytes()) {
        Err(ParseError::InvalidResponse(node, _)) => {
            assert_eq!(node, element("<R><IsTruncated>true</IsTruncated></R>"));
        }
        other => panic!("unexpected outcome: {other:?}"),
    }
}

#[test]
fn truncation_flag_must_be_a_boolean() {
    for flag in ["TRUE", "1", "yes", " true"] {
        let body = format!("<R><IsTruncated>{flag}</IsTruncated></R>");
        match parse_result_from_bytes(body.as_bytes()) {
            Err(ParseError::Bool(_, field)) => assert_eq!(field, "IsTruncated"),
            other => panic!("unexpected outcome: {other:?}"),
        }
    }
}

#[test]
fn truncation_flag_is_required() {
    match parse_result_from_bytes(b"<R><Other>x</Other></R>") {
        Err(ParseError::MissingField(node, field)) => {
            assert_eq!(field, "IsTruncated");
            assert_eq!(node.name, "R");
        }
        other => panic!("unexpected outcome: {other:?}"),
    }
}

#[test]
fn token_without_text_is_invalid() {
    match parse_result_from_bytes(b"<R><IsTruncated>true</IsTruncated><NextContinuationToken/></R>") {
        Err(ParseError::InvalidResponse(node, problem)) => {
            assert_eq!(problem, "field has no text");
            assert_eq!(node.name, "NextContinuationToken");
        }
        other => panic!("unexpected outcome: {other:?}"),
    }
}

#[test]
fn malformed_xml_is_a_syntax_error() {
    assert!(matches!(parse_result_from_bytes(b"<R><IsTruncated>"), Err(ParseError::Xml(_))));
    assert!(matches!(parse_result_from_bytes(b""), Err(ParseError::Xml(_))));
    assert!(matches!(parse_result_from_bytes(b"plain text"), Err(ParseError::Xml(_))));
    assert!(matches!(parse_result_from_bytes(b"<!-- only a comment -->"), Err(ParseError::Xml(_))));
    assert!(matches!(parse_result_from_bytes(b"<?xml version=\"1.0\"?>"), Err(ParseError::Xml(_))));
    assert!(matches!(parse_result_from_bytes(b"<R></S>"), Err(ParseError::Xml(_))));
}

#[test]
fn first_failing_object_decides() {
    let body = "<R><Contents><Key>one</Key><Size>x</Size></Contents><Contents><Size>1</Size></Contents><IsTruncated>false</IsTruncated></R>";
    match parse_result_from_bytes(body.as_bytes()) {
        Err(ParseError::Int(_, field)) => assert_eq!(field, "Size"),
        other => panic!("unexpected outcome: {other:?}"),
    }
}

#[test]
fn prefix_needs_its_text() {
    match parse_result_from_bytes(b"<R><CommonPrefixes><Other/></CommonPrefixes><IsTruncated>false</IsTruncated></R>") {
        Err(ParseError::MissingField(node, field)) => {
            assert_eq!(field, "Prefix");
            assert_eq!(node.name, "CommonPrefixes");
        }
        other => panic!("unexpected outcome: {other:?}"),
    }
}

#[test]
fn decoding_takes_contents_and_prefixes_out() {
    let mut root = element(&format!(
        "<R><A>1</A>{OBJECT_A}<B>2</B><CommonPrefixes><Prefix>p</Prefix></CommonPrefixes><IsTruncated>false</IsTruncated></R>"
    ));
    let result = parse_result_from_xml(&mut root).unwrap();
    assert_eq!(result.objects.len(), 1);
    assert_eq!(result.common_prefixes, vec!["p".to_string()]);
    assert_eq!(root, element("<R><A>1</A><B>2</B><IsTruncated>false</IsTruncated></R>"));
}

#[test]
fn missing_key_is_a_missing_field() {
    let mut object = element("<Contents><Size>10</Size><LastModified>2023-01-01T00:00:00Z</LastModified><ETag>e</ETag></Contents>");
    let before = object.clone();
    match parse_object_info_from_xml(&mut object) {
        Err(ParseError::MissingField(node, field)) => {
            assert_eq!(field, "Key");
            assert_eq!(node, before);
        }
        other => panic!("unexpected outcome: {other:?}"),
    }
}

#[test]
fn size_must_be_an_unsigned_integer() {
    for size in ["ten", "-1", "1.5", "18446744073709551616", " 1", "1_000", "+"] {
        let mut object = element(&format!(
            "<Contents><Key>k</Key><Size>{size}</Size><LastModified>2023-01-01T00:00:00Z</LastModified><ETag>e</ETag></Contents>"
        ));
        match parse_object_info_from_xml(&mut object) {
            Err(ParseError::Int(_, field)) => assert_eq!(field, "Size"),
            other => panic!("unexpected outcome for {size}: {other:?}"),
        }
    }
}

#[test]
fn size_is_read_in_decimal() {
    for (text, value) in [("0", 0u64), ("+10", 10), ("007", 7), ("18446744073709551615", u64::MAX)] {
        let mut object = element(&format!(
            "<Contents><Key>k</Key><Size>{text}</Size><LastModified>2023-01-01T00:00:00Z</LastModified><ETag>e</ETag></Contents>"
        ));
        assert_eq!(parse_object_info_from_xml(&mut object).unwrap().size, value);
    }
}

#[test]
fn last_modified_must_be_rfc3339() {
    let mut object = element("<Contents><Key>k</Key><Size>1</Size><LastModified>yesterday</LastModified><ETag>e</ETag></Contents>");
    match parse_object_info_from_xml(&mut object) {
        Err(ParseError::OffsetDateTime(_, field)) => assert_eq!(field, "LastModified"),
        other => panic!("unexpected outcome: {other:?}"),
    }
}

#[test]
fn last_modified_keeps_its_offset() {
    let mut object = element("<Contents><Key>k</Key><Size>1</Size><LastModified>2023-01-01T02:00:00+02:00</LastModified><ETag>e</ETag></Contents>");
    let info = parse_object_info_from_xml(&mut object).unwrap();
    assert_eq!(info.last_modified.unix_timestamp(), 1672531200);
    assert_eq!(info.last_modified.offset().whole_hours(), 2);
}

#[test]
fn etag_is_required() {
    let mut object = element("<Contents><Key>k</Key><Size>1</Size><LastModified>2023-01-01T00:00:00Z</LastModified></Contents>");
    match parse_object_info_from_xml(&mut object) {
        Err(ParseError::MissingField(_, field)) => assert_eq!(field, "ETag"),
        other => panic!("unexpected outcome: {other:?}"),
    }
}

#[test]
fn key_without_text_is_invalid() {
    let mut object = element("<Contents><Key></Key><Size>1</Size></Contents>");
    match parse_object_info_from_xml(&mut object) {
        Err(ParseError::InvalidResponse(node, problem)) => {
            assert_eq!(problem, "field has no text");
            assert_eq!(node.name, "Key");
        }
        other => panic!("unexpected outcome: {other:?}"),
    }
}

#[test]
fn storage_class_is_optional() {
    let mut with = object_with("<StorageClass>GLACIER</StorageClass>");
    assert_eq!(parse_object_info_from_xml(&mut with).unwrap().storage_class, Some("GLACIER".to_string()));
    let mut without = object_with("");
    assert_eq!(parse_object_info_from_xml(&mut without).unwrap().storage_class, None);
    let mut empty = object_with("<StorageClass/>");
    assert_eq!(parse_object_info_from_xml(&mut empty).unwrap().storage_class, None);
}

#[test]
fn restore_in_progress_ignores_the_expiry_date() {
    let with_date = object_with("<RestoreStatus><IsRestoreInProgress>true</IsRestoreInProgress><RestoreExpiryDate>2023-02-01T00:00:00Z</RestoreExpiryDate></RestoreStatus>");
    assert_eq!(parse_restore_status(&with_date).unwrap(), Some(RestoreStatus::InProgress));
    let bad_date = object_with("<RestoreStatus><IsRestoreInProgress>true</IsRestoreInProgress><RestoreExpiryDate>never</RestoreExpiryDate></RestoreStatus>");
    assert_eq!(parse_restore_status(&bad_date).unwrap(), Some(RestoreStatus::InProgress));
    let no_date = object_with("<RestoreStatus><IsRestoreInProgress>true</IsRestoreInProgress></RestoreStatus>");
    assert_eq!(parse_restore_status(&no_date).unwrap(), Some(RestoreStatus::InProgress));
}

#[test]
fn finished_restore_has_its_expiry() {
    let mut object = object_with("<RestoreStatus><IsRestoreInProgress>false</IsRestoreInProgress><RestoreExpiryDate>2023-02-01T00:00:00Z</RestoreExpiryDate></RestoreStatus>");
    assert_eq!(
        parse_restore_status(&object).unwrap(),
        Some(RestoreStatus::Restored { expiry: instant(1675209600) })
    );
    let info = parse_object_info_from_xml(&mut object).unwrap();
    assert_eq!(info.restore_status, Some(RestoreStatus::Restored { expiry: instant(1675209600) }));
}

#[test]
fn finished_restore_needs_a_valid_expiry() {
    let missing = object_with("<RestoreStatus><IsRestoreInProgress>false</IsRestoreInProgress></RestoreStatus>");
    match parse_restore_status(&missing) {
        Err(ParseError::MissingField(node, field)) => {
            assert_eq!(field, "RestoreExpiryDate");
            assert_eq!(node.name, "RestoreStatus");
        }
        other => panic!("unexpected outcome: {other:?}"),
    }
    let invalid = object_with("<RestoreStatus><IsRestoreInProgress>false</IsRestoreInProgress><RestoreExpiryDate>soon</RestoreExpiryDate></RestoreStatus>");
    match parse_restore_status(&invalid) {
        Err(ParseError::OffsetDateTime(_, field)) => assert_eq!(field, "RestoreExpiryDate"),
        other => panic!("unexpected outcome: {other:?}"),
    }
}

#[test]
fn restore_flag_must_be_a_boolean() {
    let object = object_with("<RestoreStatus><IsRestoreInProgress>maybe</IsRestoreInProgress></RestoreStatus>");
    match parse_restore_status(&object) {
        Err(ParseError::Bool(_, field)) => assert_eq!(field, "IsRestoreInProgress"),
        other => panic!("unexpected outcome: {other:?}"),
    }
    let missing = object_with("<RestoreStatus></RestoreStatus>");
    match parse_restore_status(&missing) {
        Err(ParseError::MissingField(_, field)) => assert_eq!(field, "IsRestoreInProgress"),
        other => panic!("unexpected outcome: {other:?}"),
    }
}

#[test]
fn absent_restore_status_is_none() {
    assert_eq!(parse_restore_status(&object_with("")).unwrap(), None);
}

#[test]
fn unknown_checksum_algorithm_is_kept() {
    assert_eq!(
        checksum_algorithm_from_name("FOO".to_string()),
        ChecksumAlgorithm::Unknown("FOO".to_string())
    );
    assert_eq!(
        checksum_algorithm_from_name("crc32".to_string()),
        ChecksumAlgorithm::Unknown("crc32".to_string())
    );
    assert_eq!(checksum_algorithm_from_name(String::new()), ChecksumAlgorithm::Unknown(String::new()));
}

#[test]
fn known_checksum_algorithms() {
    assert_eq!(checksum_algorithm_from_name("CRC64NVME".to_string()), ChecksumAlgorithm::Crc64nvme);
    assert_eq!(checksum_algorithm_from_name("CRC32".to_string()), ChecksumAlgorithm::Crc32);
    assert_eq!(checksum_algorithm_from_name("CRC32C".to_string()), ChecksumAlgorithm::Crc32c);
    assert_eq!(checksum_algorithm_from_name("SHA1".to_string()), ChecksumAlgorithm::Sha1);
    assert_eq!(checksum_algorithm_from_name("SHA256".to_string()), ChecksumAlgorithm::Sha256);
}

#[test]
fn checksum_algorithms_in_document_order() {
    let mut object = object_with("<ChecksumAlgorithm>SHA256</ChecksumAlgorithm><X>1</X><ChecksumAlgorithm>FOO</ChecksumAlgorithm><ChecksumAlgorithm>CRC32C</ChecksumAlgorithm>");
    let algorithms = parse_checksum_algorithm(&mut object).unwrap();
    assert_eq!(
        algorithms,
        vec![
            ChecksumAlgorithm::Sha256,
            ChecksumAlgorithm::Unknown("FOO".to_string()),
            ChecksumAlgorithm::Crc32c
        ]
    );
    assert_eq!(object, object_with("<X>1</X>"));
}

#[test]
fn object_with_checksum_algorithm() {
    let mut object = object_with("<ChecksumAlgorithm>CRC32</ChecksumAlgorithm>");
    let info = parse_object_info_from_xml(&mut object).unwrap();
    assert_eq!(info.checksum_algorithms, vec![ChecksumAlgorithm::Crc32]);
    assert_eq!(info.key, "k");
    assert_eq!(info.etag, "e");
}

#[test]
fn checksum_algorithm_without_text_is_invalid() {
    let mut object = object_with("<ChecksumAlgorithm/>");
    match parse_checksum_algorithm(&mut object) {
        Err(ParseError::InvalidResponse(node, problem)) => {
            assert_eq!(problem, "field has no text");
            assert_eq!(node.name, "ChecksumAlgorithm");
        }
        other => panic!("unexpected outcome: {other:?}"),
    }
}

#[test]
fn child_lookup_finds_the_first_of_a_name() {
    let root = element("<R><A>1</A><B>2</B><A>3</A></R>");
    assert_eq!(get_field(&root, "A").unwrap(), "1");
    assert_eq!(get_field(&root, "B").unwrap(), "2");
    let child = get_child(&root, "B").unwrap();
    assert_eq!(child.name, "B");
    assert_eq!(get_text(child).unwrap(), "2");
    match get_child(&root, "C") {
        Err(ParseError::MissingField(node, field)) => {
            assert_eq!(field, "C");
            assert_eq!(node, root);
        }
        other => panic!("unexpected outcome: {other:?}"),
    }
}

#[test]
fn text_is_required_of_a_field() {
    let root = element("<R><A><B>x</B></A></R>");
    match get_field(&root, "A") {
        Err(ParseError::InvalidResponse(node, problem)) => {
            assert_eq!(problem, "field has no text");
            assert_eq!(node, element("<A><B>x</B></A>"));
        }
        other => panic!("unexpected outcome: {other:?}"),
    }
    assert_eq!(get_text(&element("<A>a<![CDATA[b]]>c</A>")).unwrap(), "abc");
}
