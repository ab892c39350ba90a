//! Record and record-batch codec tests: round trips for every value kind,
//! the CRC integrity check, and the record length discipline.
use kafka_codec::elems::WireDecode;
use kafka_codec::elems::WireEncode;
use kafka_codec::records::record_header::RecordHeader;
use kafka_codec::records::record_value::{
    decode_cluster_metadata_record, decode_cluster_metadata_value, encode_cluster_metadata_record,
    BrokerRegistrationRecord, ClusterMetadataRecord, ClusterMetadataValue, FeatureLevelRecord,
    PartitionRecord, RecordType, TopicRecord,
};
use kafka_codec::records::{Record, RecordBatch};

fn encode_record_batch(batch: &RecordBatch) -> Vec<u8> {
    let mut buffer = Vec::new();
    assert!(batch.write_one(&mut buffer));
    buffer
}

#[test]
fn test_record_batch_roundtrip() {
    let original_batch = RecordBatch {
        base_offset: 1000,
        partition_leader_epoch: 0,
        // The CRC-32C of everything after the crc field for exactly these
        // records; the encoder recomputes it and the decoder validates it.
        crc: 1322026812,
        attributes: 0b0101_0010,
        base_timestamp: 1690000000,
        max_timestamp: 1690000050,
        producer_id: 42,
        producer_epoch: 1,
        base_sequence: 5,
        records: vec![
            Record {
                attributes: 0,
                timestamp_delta: 3,
                offset_delta: 0,
                key: b"key".to_vec(),
                value: ClusterMetadataRecord::mock_broker_registration(),
                headers: vec![RecordHeader {
                    key: b"k1".to_vec(),
                    value: b"v1".to_vec(),
                }],
            },
            Record {
                attributes: 0,
                timestamp_delta: 4,
                offset_delta: 1,
                key: vec![],
                value: ClusterMetadataRecord::mock_feature_level_record(),
                headers: vec![
                    RecordHeader {
                        key: b"foo".to_vec(),
                        value: b"bar".to_vec(),
                    },
                    RecordHeader {
                        key: b"baz".to_vec(),
                        value: b"qux".to_vec(),
                    },
                ],
            },
        ],
    };

    let buffer = encode_record_batch(&original_batch);

    let (decoded_batch, consumed) = RecordBatch::read_one(&buffer, 0).unwrap();
    assert_eq!(consumed, buffer.len());
    assert_eq!(original_batch, decoded_batch);

    assert_eq!(decoded_batch.records.len(), 2);

    assert_eq!(decoded_batch.records[0].value, original_batch.records[0].value);
    assert_eq!(decoded_batch.records[1].value, original_batch.records[1].value);

    let first_headers = &decoded_batch.records[0].headers;
    assert_eq!(first_headers.len(), 1);
    assert_eq!(first_headers[0].key, b"k1");
    assert_eq!(first_headers[0].value, b"v1");

    let second_headers = &decoded_batch.records[1].headers;
    assert_eq!(second_headers.len(), 2);
    assert_eq!(second_headers[0].key, b"foo");
    assert_eq!(second_headers[0].value, b"bar");
    assert_eq!(second_headers[1].key, b"baz");
    assert_eq!(second_headers[1].value, b"qux");
}

#[test]
fn test_record_roundtrip() {
    let record = Record {
        attributes: 1,
        timestamp_delta: 12345,
        offset_delta: 2,
        key: b"sample_key".to_vec(),
        value: ClusterMetadataRecord::mock_partition_record(),
        headers: vec![RecordHeader {
            key: b"h1".to_vec(),
            value: b"header1".to_vec(),
        }],
    };

    let mut buffer = Vec::new();
    assert!(record.wire_encode(&mut buffer));

    let (decoded, consumed) = Record::wire_decode(&buffer, 0).unwrap();
    assert_eq!(consumed, buffer.len());

    assert_eq!(decoded.attributes, 1);
    assert_eq!(decoded.timestamp_delta, 12345);
    assert_eq!(decoded.offset_delta, 2);
    assert_eq!(decoded.key, b"sample_key");
    assert_eq!(decoded.value, record.value);
    assert_eq!(decoded.headers.len(), 1);
    assert_eq!(decoded.headers[0].key, b"h1");
    assert_eq!(decoded.headers[0].value, b"header1");
}

#[test]
fn test_real_feature_level_record_data() {
    let real_data: Vec<u8> = vec![
        0x00, 0x00, 0x00, 0x00, 0x00, 0x00, 0x00, 0x00, 0x00, 0x00, 0x00, 0x4f, 0x00, 0x00, 0x00,
        0x01, 0x02, 0xb0, 0x69, 0x45, 0x7c, 0x00, 0x00, 0x00, 0x00, 0x00, 0x00, 0x00, 0x00, 0x01,
        0x91, 0xe0, 0x5a, 0xf8, 0x18, 0x00, 0x00, 0x01, 0x91, 0xe0, 0x5a, 0xf8, 0x18, 0xff, 0xff,
        0xff, 0xff, 0xff, 0xff, 0xff, 0xff, 0xff, 0xff, 0xff, 0xff, 0xff, 0xff, 0x00, 0x00, 0x00,
        0x01, 0x3a, 0x00, 0x00, 0x00, 0x01, 0x2e, 0x01, 0x0c, 0x00, 0x11, 0x6d, 0x65, 0x74, 0x61,
        0x64, 0x61, 0x74, 0x61, 0x2e, 0x76, 0x65, 0x72, 0x73, 0x69, 0x6f, 0x6e, 0x00, 0x14, 0x00,
        0x00,
    ];

    let result = RecordBatch::read_one(&real_data, 0);
    assert!(result.is_some(), "{:?}", result);
}

#[test]
fn test_broker_registration() {
    let original = ClusterMetadataRecord {
        frame_version: 10,
        record_version: 7,
        payload: ClusterMetadataValue::BrokerRegistration(BrokerRegistrationRecord {
            broker_id: 123,
            cluster_id: 456789,
        }),
    };

    let mut data = Vec::new();
    assert!(encode_cluster_metadata_record(&mut data, &original));
    let (decoded, consumed) = decode_cluster_metadata_record(&data, 0).unwrap();
    assert_eq!(consumed, data.len());
    assert_eq!(decoded, original);
}

#[test]
fn test_topic_record() {
    let original = ClusterMetadataRecord {
        frame_version: 99,
        record_version: 3,
        payload: ClusterMetadataValue::Topic(TopicRecord {
            topic_name: "123".to_string(),
            uuid: vec![1u8; 16],
            tagged_fields: Vec::new(),
        }),
    };

    let mut data = Vec::new();
    assert!(encode_cluster_metadata_record(&mut data, &original));
    let (decoded, consumed) = decode_cluster_metadata_record(&data, 0).unwrap();
    assert_eq!(consumed, data.len());
    assert_eq!(decoded, original);
}

#[test]
fn test_feature_level_record() {
    let original = ClusterMetadataRecord {
        frame_version: 100,
        record_version: 1,
        payload: ClusterMetadataValue::FeatureLevel(FeatureLevelRecord {
            feature_name: "999".to_string(),
            level: 5,
            tagged_fields: Vec::new(),
        }),
    };

    let mut data = Vec::new();
    assert!(encode_cluster_metadata_record(&mut data, &original));
    let (decoded, consumed) = decode_cluster_metadata_record(&data, 0).unwrap();
    assert_eq!(consumed, data.len());
    assert_eq!(decoded, original);
}

#[test]
fn test_partition_record() {
    let original = ClusterMetadataRecord {
        frame_version: 5,
        record_version: 2,
        payload: ClusterMetadataValue::Partition(PartitionRecord {
            partition_id: 42,
            topic_id: vec![10u8; 16],
            leader_id: 1001,
            leader_epoch: 5,
            replicas: vec![1001, 1002, 1003],
            isr: vec![1001, 1002],
            rra: vec![1001, 1002, 1004],
            ara: vec![1001, 1002, 1005],
            partition_epoch: 2,
            tagged_fields: Vec::new(),
            directories: vec![vec![15u8; 16]],
        }),
    };

    let mut data = Vec::new();
    assert!(encode_cluster_metadata_record(&mut data, &original));
    let (decoded, consumed) = decode_cluster_metadata_record(&data, 0).unwrap();
    assert_eq!(consumed, data.len());
    assert_eq!(decoded, original);
}

#[test]
fn test_real_data() {
    // Twelve bytes of plain text are far too short for a partition record:
    // its fixed fields alone need more, so the parse must fail rather than
    // read past the input.
    let real_raw = [72, 101, 108, 108, 111, 32, 87, 111, 114, 108, 100, 33];
    let result = decode_cluster_metadata_value(&real_raw, 0, RecordType::Partition);
    assert!(result.is_none());
}

#[test]
fn test_crc_detects_mutation() {
    let batch = RecordBatch {
        base_offset: 7,
        partition_leader_epoch: 1,
        crc: 0,
        attributes: 0,
        base_timestamp: 100,
        max_timestamp: 200,
        producer_id: -1,
        producer_epoch: -1,
        base_sequence: -1,
        records: vec![Record {
            attributes: 0,
            timestamp_delta: 1,
            offset_delta: 0,
            key: b"k".to_vec(),
            value: ClusterMetadataRecord::mock_broker_registration(),
            headers: Vec::new(),
        }],
    };
    let buffer = encode_record_batch(&batch);
    assert!(RecordBatch::read_one(&buffer, 0).is_some());

    // The crc field occupies bytes 17..21; everything after it is covered
    // by the checksum, so flipping any of those bytes must fail the read.
    for pos in 21..buffer.len() {
        let mut corrupted = buffer.clone();
        corrupted[pos] ^= 0x01;
        assert!(
            RecordBatch::read_one(&corrupted, 0).is_none(),
            "mutation at {} went undetected",
            pos
        );
    }
}

#[test]
fn test_record_length_mismatch_rejected() {
    let record = Record {
        attributes: 0,
        timestamp_delta: 1,
        offset_delta: 0,
        key: b"kk".to_vec(),
        value: ClusterMetadataRecord::mock_broker_registration(),
        headers: Vec::new(),
    };
    let mut buffer = Vec::new();
    assert!(record.wire_encode(&mut buffer));
    assert!(Record::wire_decode(&buffer, 0).is_some());

    // Truncating the body without updating the length varint desynchronizes
    // the declared and consumed byte counts.
    let truncated = &buffer[..buffer.len() - 1];
    assert!(Record::wire_decode(truncated, 0).is_none());

    // Growing the declared length past the fields has the same effect.
    let mut padded = buffer.clone();
    padded[0] += 2; // one more declared byte (zig-zag encoded length)
    padded.push(0);
    assert!(Record::wire_decode(&padded, 0).is_none());
}

#[test]
fn test_read_batches_keeps_prefix_on_corruption() {
    let batch = RecordBatch {
        base_offset: 0,
        partition_leader_epoch: 0,
        crc: 0,
        attributes: 0,
        base_timestamp: 0,
        max_timestamp: 0,
        producer_id: 0,
        producer_epoch: 0,
        base_sequence: 0,
        records: vec![Record {
            attributes: 0,
            timestamp_delta: 0,
            offset_delta: 0,
            key: Vec::new(),
            value: ClusterMetadataRecord::mock_feature_level_record(),
            headers: Vec::new(),
        }],
    };
    let one = encode_record_batch(&batch);

    let mut two = one.clone();
    two.extend_from_slice(&one);
    assert_eq!(RecordBatch::read_batches_from(&two).len(), 2);

    // A corrupted second batch stops the scan but keeps the first batch.
    let mut corrupted = one.clone();
    let mut bad = one.clone();
    let last = bad.len() - 1;
    bad[last] ^= 0xff;
    corrupted.extend_from_slice(&bad);
    assert_eq!(RecordBatch::read_batches_from(&corrupted).len(), 1);
}
