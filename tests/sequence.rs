use bitcoin::constants::genesis_block;
use bitcoin::Network;
use bitcoincore_zmq::{BlockHash, NotificationError, SequenceMessage, Txid};

#[test]
fn serialization() {
    let genesis_block = genesis_block(Network::Bitcoin);

    let blockhash = BlockHash::from_byte_array(bitcoin::hashes::Hash::to_byte_array(genesis_block.block_hash()));
    let mut blockhash_bytes = blockhash.to_byte_array();
    blockhash_bytes.reverse();

    let txid = Txid::from_byte_array(bitcoin::hashes::Hash::to_byte_array(genesis_block.txdata[0].compute_txid()));
    let mut txid_bytes = txid.to_byte_array();
    txid_bytes.reverse();

    let connect_message = SequenceMessage::BlockConnect { blockhash };
    let connect_bytes = connect_message.serialize_to_vec();
    assert_eq!(connect_message.raw_length(), connect_bytes.len());
    assert_eq!(connect_message.raw_length(), 32 + 1);
    assert_eq!(connect_message, SequenceMessage::from_byte_slice(&connect_bytes).unwrap());

    assert_eq!(connect_message.label_char(), 'C');
    assert_eq!(connect_message.inner_hash_as_bytes(), blockhash_bytes);
    assert_eq!(connect_message.mempool_sequence(), None);

    let disconnect_message = SequenceMessage::BlockDisconnect { blockhash };
    let disconnect_bytes = disconnect_message.serialize_to_vec();
    assert_eq!(disconnect_message.raw_length(), disconnect_bytes.len());
    assert_eq!(disconnect_message.raw_length(), 32 + 1);
    assert_eq!(disconnect_message, SequenceMessage::from_byte_slice(&disconnect_bytes).unwrap());

    assert_eq!(disconnect_message.label_char(), 'D');
    assert_eq!(disconnect_message.inner_hash_as_bytes(), blockhash_bytes);
    assert_eq!(disconnect_message.mempool_sequence(), None);

    let accept_message = SequenceMessage::MempoolAcceptance {
        txid,
        mempool_sequence: 1,
    };
    let accept_bytes = accept_message.serialize_to_vec();
    assert_eq!(accept_message.raw_length(), accept_bytes.len());
    assert_eq!(accept_message.raw_length(), 32 + 1 + 8);
    assert_eq!(accept_message, SequenceMessage::from_byte_slice(&accept_bytes).unwrap());

    assert_eq!(accept_message.label_char(), 'A');
    assert_eq!(accept_message.inner_hash_as_bytes(), txid_bytes);
    assert_eq!(accept_message.mempool_sequence(), Some(1));

    let remove_message = SequenceMessage::MempoolRemoval {
        txid,
        mempool_sequence: 2,
    };
    let remove_bytes = remove_message.serialize_to_vec();
    assert_eq!(remove_message.raw_length(), remove_bytes.len());
    assert_eq!(remove_message.raw_length(), 32 + 1 + 8);
    assert_eq!(remove_message, SequenceMessage::from_byte_slice(&remove_bytes).unwrap());

    assert_eq!(remove_message.label_char(), 'R');
    assert_eq!(remove_message.inner_hash_as_bytes(), txid_bytes);
    assert_eq!(remove_message.mempool_sequence(), Some(2));
}

fn counting_hash() -> [u8; 32] {
    let mut a = [0u8; 32];
    for (i, b) in a.iter_mut().enumerate() {
        *b = i as u8;
    }
    a
}

#[test]
fn sequence_payload_block_connect() {
    let wire = counting_hash();
    let mut payload = wire.to_vec();
    payload.push(b'C');
    let mut expected = wire;
    expected.reverse();
    assert_eq!(
        SequenceMessage::from_byte_slice(&payload).unwrap(),
        SequenceMessage::BlockConnect { blockhash: BlockHash::from_byte_array(expected) }
    );
}

#[test]
fn sequence_payload_mempool_acceptance() {
    let wire = counting_hash();
    let mut payload = wire.to_vec();
    payload.push(b'A');
    payload.extend_from_slice(&1u64.to_le_bytes());
    let mut expected = wire;
    expected.reverse();
    assert_eq!(
        SequenceMessage::from_byte_slice(&payload).unwrap(),
        SequenceMessage::MempoolAcceptance {
            txid: Txid::from_byte_array(expected),
            mempool_sequence: 1
        }
    );
}

#[test]
fn sequence_payload_encoding_layout() {
    let txid = Txid::from_byte_array(counting_hash());
    let removal = SequenceMessage::MempoolRemoval { txid, mempool_sequence: 0x0102030405060708 };
    let bytes = removal.serialize_to_vec();
    assert_eq!(bytes.len(), 41);
    assert_eq!(bytes[0], 31);
    assert_eq!(bytes[31], 0);
    assert_eq!(bytes[32], b'R');
    assert_eq!(&bytes[33..], &[8, 7, 6, 5, 4, 3, 2, 1]);
}

#[test]
fn sequence_payload_shorter_than_33_bytes() {
    for len in 0..33usize {
        let payload = vec![b'C'; len];
        assert!(matches!(
            SequenceMessage::from_byte_slice(&payload),
            Err(NotificationError::InvalidSequenceMessageLength(n)) if n == len
        ));
    }
}

#[test]
fn sequence_payload_length_must_fit_label() {
    let mut payload = counting_hash().to_vec();
    payload.push(b'D');
    payload.extend_from_slice(&[0; 8]);
    assert!(matches!(
        SequenceMessage::from_byte_slice(&payload),
        Err(NotificationError::InvalidSequenceMessageLength(41))
    ));

    let mut payload = counting_hash().to_vec();
    payload.push(b'R');
    assert!(matches!(
        SequenceMessage::from_byte_slice(&payload),
        Err(NotificationError::InvalidSequenceMessageLength(33))
    ));
}

#[test]
fn sequence_payload_unknown_label() {
    let mut payload = counting_hash().to_vec();
    payload.push(b'X');
    assert!(matches!(
        SequenceMessage::from_byte_slice(&payload),
        Err(NotificationError::InvalidSequenceMessageLabel(b'X'))
    ));
}

#[test]
fn sequence_round_trip_every_kind() {
    let blockhash = BlockHash::from_byte_array(counting_hash());
    let txid = Txid::from_byte_array([0xab; 32]);
    for m in [
        SequenceMessage::BlockConnect { blockhash },
        SequenceMessage::BlockDisconnect { blockhash },
        SequenceMessage::MempoolAcceptance { txid, mempool_sequence: u64::MAX },
        SequenceMessage::MempoolRemoval { txid, mempool_sequence: 0 },
    ] {
        let bytes = m.serialize_to_vec();
        assert_eq!(bytes.len(), m.raw_length());
        assert_eq!(SequenceMessage::from_byte_slice(&bytes).unwrap(), m);
    }
}
