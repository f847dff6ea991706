use bitcoin::constants::genesis_block;
use bitcoin::Network;
use bitcoincore_zmq::{
    BlockHash, Message, MessageContent, MonitorMessageError, NotificationError, SequenceMessage,
    Timeout, Topic, Txid,
};

fn genesis_hash() -> BlockHash {
    BlockHash::from_byte_array(bitcoin::hashes::Hash::to_byte_array(
        genesis_block(Network::Bitcoin).block_hash(),
    ))
}

#[test]
fn hash_text_matches_the_bitcoin_crate() {
    let block = genesis_block(Network::Bitcoin);
    assert_eq!(genesis_hash().to_string(), block.block_hash().to_string());
    let txid = block.txdata[0].compute_txid();
    assert_eq!(
        Txid::from_byte_array(bitcoin::hashes::Hash::to_byte_array(txid)).to_string(),
        txid.to_string()
    );
}

#[test]
fn message_texts() {
    let block = genesis_block(Network::Bitcoin);
    let hash_text = block.block_hash().to_string();
    let msg = Message { content: MessageContent::BlockHash(genesis_hash()), sequence: 0 };
    assert_eq!(msg.to_string(), format!("HashBlock({hash_text}, sequence=0)"));
    let msg = Message { content: MessageContent::Block(block.clone()), sequence: 12 };
    assert_eq!(msg.to_string(), format!("Block({hash_text}, sequence=12)"));
    let tx = block.txdata[0].clone();
    let txid_text = tx.compute_txid().to_string();
    let msg = Message { content: MessageContent::Tx(tx), sequence: 4294967295 };
    assert_eq!(msg.to_string(), format!("Tx({txid_text}, sequence=4294967295)"));
    let msg = Message {
        content: MessageContent::Sequence(SequenceMessage::BlockConnect { blockhash: genesis_hash() }),
        sequence: 105,
    };
    assert_eq!(msg.to_string(), format!("Sequence(BlockConnect({hash_text}), sequence=105)"));
}

#[test]
fn sequence_message_texts() {
    let txid = Txid::from_byte_array([0; 32]);
    let zeros = "0".repeat(64);
    assert_eq!(
        SequenceMessage::MempoolAcceptance { txid, mempool_sequence: u64::MAX }.to_string(),
        format!("MempoolAcceptance({zeros}, mempool_sequence=18446744073709551615)")
    );
    assert_eq!(
        SequenceMessage::MempoolRemoval { txid, mempool_sequence: 10 }.to_string(),
        format!("MempoolRemoval({zeros}, mempool_sequence=10)")
    );
    let mut bytes = [0u8; 32];
    bytes[0] = 0xab;
    assert_eq!(
        SequenceMessage::BlockDisconnect { blockhash: BlockHash::from_byte_array(bytes) }.to_string(),
        format!("BlockDisconnect({}ab)", "0".repeat(62))
    );
}

#[test]
fn error_texts() {
    assert_eq!(
        NotificationError::InvalidMutlipartLength(4).to_string(),
        "invalid multipart message length: 4 (expected 3)"
    );
    assert_eq!(
        NotificationError::InvalidSequenceLength(11).to_string(),
        "invalid sequence length: 11 (expected 4)"
    );
    assert_eq!(
        NotificationError::InvalidSequenceMessageLength(0).to_string(),
        "invalid message length 0 of message type 'sequence'"
    );
    assert_eq!(
        NotificationError::InvalidSequenceMessageLabel(b'X').to_string(),
        "invalid label 'X' (0x58) of message type 'sequence'"
    );
    assert_eq!(
        NotificationError::Invalid256BitHashLength(20).to_string(),
        "invalid hash length: 20 (expected 32)"
    );
    assert_eq!(
        NotificationError::InvalidDataLength(4000001).to_string(),
        "invalid data length: 4000001 (expected at most 4000000)"
    );
    assert_eq!(
        NotificationError::Disconnected("tcp://127.0.0.1:28332".to_string()).to_string(),
        "disconnected from tcp://127.0.0.1:28332"
    );
    assert_eq!(
        NotificationError::MonitorMessage(MonitorMessageError::InvalidEventData(8192, 7)).to_string(),
        "unable to parse monitor message: invalid event data 7 for event 8192"
    );
    let unknown = Topic::try_from_bytes(b"abc").unwrap_err();
    assert_eq!(unknown.to_string(), "unknown topic \"abc\"");
    assert_eq!(NotificationError::UnknownTopic(unknown).to_string(), "unknown topic \"abc\"");
}

#[test]
fn outside_error_texts_keep_their_prefix() {
    let err = Message::from_multipart(&[b"rawtx" as &[u8], b"garbage", &[0, 0, 0, 0]]).unwrap_err();
    let text = err.to_string();
    assert!(text.starts_with("bitcoin consensus deserialization error: "));
    assert!(text.len() > "bitcoin consensus deserialization error: ".len());
    let text = NotificationError::Zmq(zmq::Error::EINVAL).to_string();
    assert_eq!(text, format!("ZMQ Error: {}", zmq::Error::EINVAL));
}

#[test]
fn monitor_error_and_timeout_texts() {
    assert_eq!(
        MonitorMessageError::InvalidMutlipartLength(3).to_string(),
        "invalid multipart message length: 3 (expected 2)"
    );
    assert_eq!(
        MonitorMessageError::InvalidEventFrameLength(5).to_string(),
        "invalid event frame length: 5 (expected 6)"
    );
    assert_eq!(Timeout::new().to_string(), "connection timed out");
}
