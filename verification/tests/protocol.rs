//! Protocol-level tests: header parsing, version gating, the snapshot
//! lookups behind DescribeTopicPartitions and Fetch, and whole-response
//! serialization.
use kafka_codec::records::record_value::{
    ClusterMetadataRecord, ClusterMetadataValue, PartitionRecord, TopicRecord,
};
use kafka_codec::records::{Record, RecordBatch};
use kafka_codec::request::api_key::RequestApiKey;
use kafka_codec::request::body::KafkaRequestBody;
use kafka_codec::request::error::RequestError;
use kafka_codec::request::KafkaRequest;
use kafka_codec::response::error_code::KafkaError;
use kafka_codec::response::response_body::describe_topic_partitions::Topic as DtpTopic;
use kafka_codec::response::response_body::fetch::Topic as FetchTopic;
use kafka_codec::response::KafkaResponse;

/// A frame payload for an ApiVersions request with no client id and no
/// header tagged fields. Versions 3 and 4 carry the client software name
/// and version in the body; earlier versions have no body at all.
fn api_versions_payload(api_version: i16, correlation_id: i32) -> Vec<u8> {
    let mut payload = Vec::new();
    payload.extend_from_slice(&18i16.to_be_bytes());
    payload.extend_from_slice(&api_version.to_be_bytes());
    payload.extend_from_slice(&correlation_id.to_be_bytes());
    payload.extend_from_slice(&(-1i16).to_be_bytes()); // client_id absent
    payload.push(0x00); // header tagged fields
    if api_version == 3 || api_version == 4 {
        payload.extend_from_slice(&[0x02, b'c']); // client_software_name
        payload.extend_from_slice(&[0x02, b'v']); // client_software_version
        payload.push(0x00); // body tagged fields
    }
    payload
}

fn topic_record(name: &str, uuid: [u8; 16]) -> Record {
    Record {
        attributes: 0,
        timestamp_delta: 0,
        offset_delta: 0,
        key: Vec::new(),
        value: ClusterMetadataRecord {
            frame_version: 1,
            record_version: 0,
            payload: ClusterMetadataValue::Topic(TopicRecord {
                topic_name: name.to_string(),
                uuid: uuid.to_vec(),
                tagged_fields: Vec::new(),
            }),
        },
        headers: Vec::new(),
    }
}

fn partition_record(partition_id: i32, topic_id: [u8; 16]) -> Record {
    Record {
        attributes: 0,
        timestamp_delta: 0,
        offset_delta: 0,
        key: Vec::new(),
        value: ClusterMetadataRecord {
            frame_version: 1,
            record_version: 0,
            payload: ClusterMetadataValue::Partition(PartitionRecord {
                partition_id,
                topic_id: topic_id.to_vec(),
                replicas: vec![1],
                isr: vec![1],
                rra: Vec::new(),
                ara: Vec::new(),
                leader_id: 1,
                leader_epoch: 0,
                partition_epoch: 0,
                directories: Vec::new(),
                tagged_fields: Vec::new(),
            }),
        },
        headers: Vec::new(),
    }
}

fn snapshot_batch(records: Vec<Record>) -> RecordBatch {
    RecordBatch {
        base_offset: 0,
        partition_leader_epoch: 0,
        crc: 0,
        attributes: 0,
        base_timestamp: 0,
        max_timestamp: 0,
        producer_id: -1,
        producer_epoch: -1,
        base_sequence: -1,
        records,
    }
}

#[test]
fn test_api_versions_version_gating() {
    for v in 0..=4i16 {
        let payload = api_versions_payload(v, 77);
        let request = KafkaRequest::try_parse_from_bytes(&payload).unwrap();
        assert!(matches!(request.request_body(), KafkaRequestBody::ApiVersions(_)));
        assert_eq!(request.correlation_id(), 77);
    }
    for v in [-1i16, 5, 6, 100, i16::MAX] {
        let payload = api_versions_payload(v, 78);
        let err = KafkaRequest::try_parse_from_bytes(&payload).unwrap_err();
        match err {
            RequestError::UnsupportedVersion {
                api_version,
                correlation_id,
            } => {
                assert_eq!(api_version, v);
                assert_eq!(correlation_id, 78);
            }
            other => panic!("unexpected error {:?}", other),
        }
    }
}

#[test]
fn test_unsupported_version_error_response_shape() {
    let payload = api_versions_payload(9, 42);
    let request = KafkaRequest::try_parse_from_bytes(&payload);
    let response = KafkaResponse::from_request(&request, &Vec::new());
    let mut bytes = Vec::new();
    assert!(response.serialize(&mut bytes));
    // length prefix counts correlation id (4), error code (2) and the
    // empty compact key array (1)
    assert_eq!(bytes[0..4], 7i32.to_be_bytes());
    assert_eq!(bytes[4..8], 42i32.to_be_bytes());
    assert_eq!(bytes[8..10], 35i16.to_be_bytes()); // unsupported version
    assert_eq!(bytes[10], 0x00); // no api key ranges
    assert_eq!(bytes.len(), 11);
}

#[test]
fn test_api_versions_v4_response_lists_three_apis() {
    let payload = api_versions_payload(4, 5);
    let request = KafkaRequest::try_parse_from_bytes(&payload);
    let response = KafkaResponse::from_request(&request, &Vec::new());
    let mut bytes = Vec::new();
    assert!(response.serialize(&mut bytes));
    assert_eq!(bytes[4..8], 5i32.to_be_bytes()); // correlation id echoed
    assert_eq!(bytes[8..10], 0i16.to_be_bytes()); // no error
    assert_eq!(bytes[10], 4); // compact count: three ranges
    // first range is ApiVersions 0..4
    assert_eq!(bytes[11..13], 18i16.to_be_bytes());
    assert_eq!(bytes[13..15], 0i16.to_be_bytes());
    assert_eq!(bytes[15..17], 4i16.to_be_bytes());
}

#[test]
fn test_unsupported_api_key() {
    let mut payload = Vec::new();
    payload.extend_from_slice(&999i16.to_be_bytes());
    payload.extend_from_slice(&0i16.to_be_bytes());
    payload.extend_from_slice(&11i32.to_be_bytes());
    let err = KafkaRequest::try_parse_from_bytes(&payload).unwrap_err();
    assert!(matches!(
        err,
        RequestError::UnsupportedApiKey {
            api_key: 999,
            correlation_id: 11
        }
    ));
}

#[test]
fn test_truncated_header_reports_field_without_correlation_id() {
    let err = KafkaRequest::try_parse_from_bytes(&[0x00]).unwrap_err();
    assert!(matches!(err, RequestError::InvalidFormatWithoutCId(_)));
}

#[test]
fn test_api_key_codes() {
    assert_eq!(RequestApiKey::from_code(0), Some(RequestApiKey::Produce));
    assert_eq!(RequestApiKey::from_code(1), Some(RequestApiKey::Fetch));
    assert_eq!(RequestApiKey::from_code(18), Some(RequestApiKey::ApiVersions));
    assert_eq!(
        RequestApiKey::from_code(75),
        Some(RequestApiKey::DescribeTopicPartitions)
    );
    assert_eq!(RequestApiKey::from_code(2), None);
}

#[test]
fn test_describe_topic_partitions_lookup() {
    let uuid = [7u8; 16];
    let snapshot = vec![snapshot_batch(vec![
        topic_record("foo", uuid),
        partition_record(0, uuid),
        partition_record(1, uuid),
    ])];

    let found = DtpTopic::query_from_record_batches("foo".to_string(), &snapshot);
    assert_eq!(found.error_code, KafkaError::NoError);
    assert_eq!(found.id, uuid.to_vec());
    assert_eq!(found.partitions.len(), 2);
    assert_eq!(found.partitions[0].index, 0);
    assert_eq!(found.partitions[1].index, 1);

    let missing = DtpTopic::query_from_record_batches("bar".to_string(), &snapshot);
    assert_eq!(missing.error_code, KafkaError::UnknownTopicOrPartition);
    assert_eq!(missing.id, vec![0u8; 16]);
    assert!(missing.partitions.is_empty());
}

#[test]
fn test_fetch_unknown_topic() {
    let known = [7u8; 16];
    let snapshot = vec![snapshot_batch(vec![topic_record("foo", known)])];

    let requested = kafka_codec::request::body::fetch::Topic {
        topic_id: vec![9u8; 16],
        partitions: Vec::new(),
    };
    let answered = FetchTopic::new(&requested, &snapshot);
    assert_eq!(answered.topic_id, vec![9u8; 16]);
    assert_eq!(answered.partitions.len(), 1);
    assert_eq!(answered.partitions[0].error_code, KafkaError::UnknownTopicId);
    assert!(answered.partitions[0].records.is_empty());
}

#[test]
fn test_fetch_known_topic_returns_matching_records() {
    let uuid = [3u8; 16];
    let other = [4u8; 16];
    let snapshot = vec![snapshot_batch(vec![
        topic_record("t", uuid),
        partition_record(0, uuid),
        partition_record(5, other),
        partition_record(1, uuid),
    ])];

    let requested = kafka_codec::request::body::fetch::Topic {
        topic_id: uuid.to_vec(),
        partitions: Vec::new(),
    };
    let answered = FetchTopic::new(&requested, &snapshot);
    assert_eq!(answered.partitions.len(), 1);
    assert_eq!(answered.partitions[0].error_code, KafkaError::NoError);
    assert_eq!(answered.partitions[0].records.len(), 1);
    let kept = &answered.partitions[0].records[0].records;
    assert_eq!(kept.len(), 2);
    assert_eq!(kept[0].offset_delta, 0);
    assert_eq!(kept[1].offset_delta, 1);
}

#[test]
fn test_malformed_body_keeps_connection_alive_with_empty_response() {
    // A DescribeTopicPartitions header whose body is missing entirely.
    let mut payload = Vec::new();
    payload.extend_from_slice(&75i16.to_be_bytes());
    payload.extend_from_slice(&0i16.to_be_bytes());
    payload.extend_from_slice(&33i32.to_be_bytes());
    payload.extend_from_slice(&(-1i16).to_be_bytes());
    payload.push(0x00);
    let request = KafkaRequest::try_parse_from_bytes(&payload);
    assert!(matches!(
        request,
        Err(RequestError::InvalidFormat { .. })
    ));
    let response = KafkaResponse::from_request(&request, &Vec::new());
    let mut bytes = Vec::new();
    assert!(response.serialize(&mut bytes));
    // Just the echoed correlation id behind the length prefix.
    assert_eq!(bytes, {
        let mut expected = Vec::new();
        expected.extend_from_slice(&4i32.to_be_bytes());
        expected.extend_from_slice(&33i32.to_be_bytes());
        expected
    });
}
