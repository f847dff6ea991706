use bitcoin::consensus::serialize;
use bitcoin::constants::genesis_block;
use bitcoin::Network;
use bitcoincore_zmq::{ErrorSource, Message, MessageContent, NotificationError, Txid};

#[test]
fn mod_test_deserialize_rawtx() {
    let genesis_block = genesis_block(Network::Bitcoin);

    let tx = &genesis_block.txdata[0];
    let tx_bytes = serialize(tx);
    let txid = tx.compute_txid();
    let mut txid_bytes = bitcoin::hashes::Hash::to_byte_array(txid);
    txid_bytes.reverse();

    let to_deserialize = [
        b"rawtx" as &[u8],
        &tx_bytes,
        &[0x03, 0x00, 0x00, 0x00],
        b"garbage",
    ];

    let msg = Message::from_multipart(&to_deserialize[..3]).unwrap();

    assert_eq!(
        msg,
        Message {
            content: MessageContent::Tx(tx.clone()),
            sequence: 3
        },
    );

    assert_eq!(msg.topic().as_str(), "rawtx");
    assert_eq!(msg.serialize_data_to_vec(), tx_bytes);
    assert_eq!(msg.sequence, 3);

    assert_eq!(msg.serialize_to_vecs(), to_deserialize[0..3]);

    assert!(matches!(
        Message::from_multipart(&to_deserialize[..0]),
        Err(NotificationError::InvalidMutlipartLength(0)),
    ));
    assert!(matches!(
        Message::from_multipart(&to_deserialize[..1]),
        Err(NotificationError::InvalidMutlipartLength(1)),
    ));
    assert!(matches!(
        Message::from_multipart(&to_deserialize[..2]),
        Err(NotificationError::InvalidMutlipartLength(2)),
    ));
    assert!(matches!(
        Message::from_multipart(&to_deserialize[..4]),
        Err(NotificationError::InvalidMutlipartLength(4)),
    ));
}

#[test]
fn mod_test_deserialize_hashtx() {
    let genesis_block = genesis_block(Network::Bitcoin);

    let txid = genesis_block.txdata[0].compute_txid();
    let mut txid_bytes = bitcoin::hashes::Hash::to_byte_array(txid);
    txid_bytes.reverse();

    let to_deserialize = [b"hashtx" as &[u8], &txid_bytes, &[0x04, 0x00, 0x00, 0x00]];

    let msg = Message::from_multipart(&to_deserialize).unwrap();

    assert_eq!(
        msg,
        Message {
            content: MessageContent::Txid(Txid::from_byte_array(bitcoin::hashes::Hash::to_byte_array(txid))),
            sequence: 4
        },
    );

    assert_eq!(msg.topic().as_str(), "hashtx");
    assert_eq!(msg.serialize_data_to_vec(), txid_bytes);
    assert_eq!(msg.sequence, 4);

    assert_eq!(msg.serialize_to_vecs(), to_deserialize);
}

#[test]
fn mod_test_deserialization_error_mp_len() {
    let to_deserialize = [
        b"sequence" as &[u8],
        &[],
        &[0x05, 0x00, 0x00, 0x00],
        b"garbage",
    ];

    assert!(matches!(
        Message::from_multipart(&to_deserialize[..0]),
        Err(NotificationError::InvalidMutlipartLength(0)),
    ));
    assert!(matches!(
        Message::from_multipart(&to_deserialize[..1]),
        Err(NotificationError::InvalidMutlipartLength(1)),
    ));
    assert!(matches!(
        Message::from_multipart(&to_deserialize[..2]),
        Err(NotificationError::InvalidMutlipartLength(2)),
    ));
    assert!(matches!(
        Message::from_multipart(&to_deserialize[..4]),
        Err(NotificationError::InvalidMutlipartLength(4)),
    ));
}

#[test]
fn mod_test_deserialization_error_topic() {
    for invalid_topic in [
        b"" as &[u8],
        b"abc",
        b"hashblock!",
        b"very loooooooooong invalid topic",
    ] {
        let err = Message::from_multipart(&[invalid_topic, &[], &0u32.to_le_bytes()])
            .expect_err("expected invalid topic");

        let NotificationError::UnknownTopic(unknown_topic_err) = &err else {
            unreachable!();
        };

        assert_eq!(unknown_topic_err.invalid_topic_as_bytes(), invalid_topic);

        let unknown_topic_err = match err.source().unwrap() {
            ErrorSource::UnknownTopic(e) => e,
            _ => unreachable!(),
        };

        assert_eq!(unknown_topic_err.invalid_topic_as_bytes(), invalid_topic);
    }
}

#[test]
fn mod_test_deserialization_error_element_len() {
    assert!(matches!(
        Message::from_multipart(&[b"rawtx" as &[u8], &[], b"not 4 bytes"]),
        Err(NotificationError::InvalidSequenceLength(11)),
    ));

    assert!(matches!(
        Message::from_multipart(&[b"hashtx" as &[u8], &[], &[0x0a, 0x00, 0x00, 0x00]]),
        Err(NotificationError::Invalid256BitHashLength(0)),
    ));

    assert!(matches!(
        Message::from_multipart(&[b"hashblock" as &[u8], &[0; 20], &[0x0b, 0x00, 0x00, 0x00]]),
        Err(NotificationError::Invalid256BitHashLength(20)),
    ));

    assert!(matches!(
        Message::from_multipart(&[b"sequence" as &[u8], &[0; 32], &[0x0c, 0x00, 0x00, 0x00]]),
        Err(NotificationError::InvalidSequenceMessageLength(32)),
    ));
}

#[test]
fn message_test_deserialize_rawtx() {
    let genesis_block = genesis_block(Network::Bitcoin);

    let tx = &genesis_block.txdata[0];
    let tx_bytes = serialize(tx);
    let txid = tx.compute_txid();
    let mut txid_bytes = bitcoin::hashes::Hash::to_byte_array(txid);
    txid_bytes.reverse();

    let to_deserialize = [
        b"rawtx" as &[u8],
        &tx_bytes,
        &[0x03, 0x00, 0x00, 0x00],
        b"garbage",
    ];

    let msg = Message::from_multipart(&to_deserialize[..3]).unwrap();

    assert_eq!(
        msg,
        Message {
            content: MessageContent::Tx(tx.clone()),
            sequence: 3
        }
    );

    assert_eq!(msg.topic().as_str(), "rawtx");
    assert_eq!(msg.serialize_data_to_vec(), tx_bytes);
    assert_eq!(msg.sequence, 3);

    assert_eq!(msg.serialize_to_vecs(), to_deserialize[0..3]);

    assert!(matches!(
        Message::from_multipart(&to_deserialize[..0]),
        Err(NotificationError::InvalidMutlipartLength(0))
    ));
    assert!(matches!(
        Message::from_multipart(&to_deserialize[..1]),
        Err(NotificationError::InvalidMutlipartLength(1))
    ));
    assert!(matches!(
        Message::from_multipart(&to_deserialize[..2]),
        Err(NotificationError::InvalidMutlipartLength(2))
    ));
    assert!(matches!(
        Message::from_multipart(&to_deserialize[..4]),
        Err(NotificationError::InvalidMutlipartLength(4))
    ));
}

#[test]
fn message_test_deserialize_hashtx() {
    let genesis_block = genesis_block(Network::Bitcoin);

    let txid = genesis_block.txdata[0].compute_txid();
    let mut txid_bytes = bitcoin::hashes::Hash::to_byte_array(txid);
    txid_bytes.reverse();

    let to_deserialize = [b"hashtx" as &[u8], &txid_bytes, &[0x04, 0x00, 0x00, 0x00]];

    let msg = Message::from_multipart(&to_deserialize).unwrap();

    assert_eq!(
        msg,
        Message {
            content: MessageContent::Txid(Txid::from_byte_array(bitcoin::hashes::Hash::to_byte_array(txid))),
            sequence: 4
        }
    );

    assert_eq!(msg.topic().as_str(), "hashtx");
    assert_eq!(msg.serialize_data_to_vec(), txid_bytes);
    assert_eq!(msg.sequence, 4);

    assert_eq!(msg.serialize_to_vecs(), to_deserialize);
}

#[test]
fn message_test_deserialization_error_mp_len() {
    let to_deserialize = [
        b"sequence" as &[u8],
        &[],
        &[0x05, 0x00, 0x00, 0x00],
        b"garbage",
    ];

    assert!(matches!(
        Message::from_multipart(&to_deserialize[..0]),
        Err(NotificationError::InvalidMutlipartLength(0))
    ));
    assert!(matches!(
        Message::from_multipart(&to_deserialize[..1]),
        Err(NotificationError::InvalidMutlipartLength(1))
    ));
    assert!(matches!(
        Message::from_multipart(&to_deserialize[..2]),
        Err(NotificationError::InvalidMutlipartLength(2))
    ));
    assert!(matches!(
        Message::from_multipart(&to_deserialize[..4]),
        Err(NotificationError::InvalidMutlipartLength(4))
    ));
}

fn unknown_topic_data(err: NotificationError) -> Option<(Vec<u8>, usize)> {
    match err {
        NotificationError::UnknownTopic(e) => {
            Some((e.invalid_topic_as_bytes().to_vec(), e.invalid_topic_len()))
        }
        _ => None,
    }
}

// An unknown topic keeps up to `TOPIC_CAPTURE_LEN` (64) of its bytes, so every
// topic here is kept whole, with its length.
#[test]
fn message_test_deserialization_error_topic() {
    assert_eq!(
        unknown_topic_data(
            Message::from_multipart(&[b"" as &[u8], &[], &[0x06, 0x00, 0x00, 0x00]])
                .expect_err("expected invalid topic")
        ),
        Some((b"".to_vec(), 0))
    );

    assert_eq!(
        unknown_topic_data(
            Message::from_multipart(&[b"abc" as &[u8], &[], &[0x07, 0x00, 0x00, 0x00]])
                .expect_err("expected invalid topic")
        ),
        Some((b"abc".to_vec(), 3))
    );

    assert_eq!(
        unknown_topic_data(
            Message::from_multipart(&[b"hashblock!" as &[u8], &[], &[0x08, 0x00, 0x00, 0x00]])
                .expect_err("expected invalid topic")
        ),
        Some((b"hashblock!".to_vec(), 10))
    );

    assert_eq!(
        unknown_topic_data(
            Message::from_multipart(&[
                b"too long so gets truncated" as &[u8],
                &[],
                &[0x09, 0x00, 0x00, 0x00]
            ])
            .expect_err("expected invalid topic")
        ),
        Some((b"too long so gets truncated".to_vec(), 26))
    );
}

// The topic is judged before the sequence frame, so an unknown topic with a
// sequence frame of the wrong length is an unknown topic.
#[test]
fn message_test_deserialization_error_element_len() {
    assert!(matches!(
        Message::from_multipart(&[b"something" as &[u8], &[], b"not 4 bytes"]),
        Err(NotificationError::UnknownTopic(_))
    ));

    assert!(matches!(
        Message::from_multipart(&[b"hashtx" as &[u8], &[], &[0x0a, 0x00, 0x00, 0x00]]),
        Err(NotificationError::Invalid256BitHashLength(0))
    ));

    assert!(matches!(
        Message::from_multipart(&[b"hashblock" as &[u8], &[0; 20], &[0x0b, 0x00, 0x00, 0x00]]),
        Err(NotificationError::Invalid256BitHashLength(20))
    ));

    assert!(matches!(
        Message::from_multipart(&[b"sequence" as &[u8], &[0; 32], &[0x0c, 0x00, 0x00, 0x00]]),
        Err(NotificationError::InvalidSequenceMessageLength(32))
    ));
}
