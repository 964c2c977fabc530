use snowid::{SnowID, SnowIDError, TsidError};

#[test]
fn test_error_display() {
    let invalid_node = TsidError::InvalidNodeId {
        node_id: 1024,
        max_allowed: 1023,
    };
    assert_eq!(
        invalid_node.to_string(),
        "Node ID 1024 exceeds maximum allowed value 1023"
    );

    let clock_backwards = TsidError::ClockBackwards;
    assert_eq!(clock_backwards.to_string(), "System clock moved backwards");

    let sequence_overflow = TsidError::SequenceOverflow;
    assert_eq!(sequence_overflow.to_string(), "Sequence number overflow");
}

#[test]
fn test_error_debug() {
    let invalid_node = TsidError::InvalidNodeId {
        node_id: 1024,
        max_allowed: 1023,
    };
    assert!(format!("{:?}", invalid_node).contains("InvalidNodeId"));
}

#[test]
fn test_error_clone() {
    let original = TsidError::InvalidNodeId {
        node_id: 1024,
        max_allowed: 1023,
    };
    let cloned = original.clone();
    assert_eq!(original, cloned);
}

#[test]
fn error_message_of_zero_and_max() {
    let e = TsidError::InvalidNodeId {
        node_id: 0,
        max_allowed: 65535,
    };
    assert_eq!(e.to_string(), "Node ID 0 exceeds maximum allowed value 65535");
}

#[test]
fn test_invalid_node_id() {
    match SnowID::new(1024) {
        Err(SnowIDError::InvalidNodeId { node_id, max }) => {
            assert_eq!(node_id, 1024);
            assert_eq!(max, 1023);
        }
        _ => panic!("Expected InvalidNodeId error"),
    }
}
