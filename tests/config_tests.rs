use snowid::config::{
    DEFAULT_CUSTOM_EPOCH, DEFAULT_NODE_BITS, DEFAULT_SPIN_ENABLED, DEFAULT_SPIN_LOOPS,
    DEFAULT_SPIN_YIELD_EVERY,
};
use snowid::{SnowID, SnowIDConfig, SnowIDConfigError};

#[test]
fn config_test_valid_node_bits() {
    for bits in 6..=16 {
        let config = SnowIDConfig::builder().node_bits(bits).unwrap().build();
        assert_eq!(config.node_bits(), bits);
        assert_eq!(
            config.sequence_bits(),
            SnowID::TOTAL_NODE_AND_SEQUENCE_BITS - bits
        );
        assert_eq!(config.max_node_id(), SnowIDConfig::calculate_mask(bits));
    }
}

#[test]
fn config_test_node_bits_ok() {
    let cfg = SnowIDConfig::builder().node_bits(12).unwrap().build();
    assert_eq!(cfg.node_bits(), 12);
}

#[test]
fn config_test_node_bits_err() {
    let err = SnowIDConfig::builder().node_bits(5).unwrap_err();
    assert_eq!(err, SnowIDConfigError::InvalidNodeBits { bits: 5 });
}

#[test]
fn config_test_custom_config() {
    let config = SnowIDConfig::builder()
        .node_bits(12)
        .unwrap()
        .epoch(1640995200000) // 2022-01-01
        .build();

    assert_eq!(config.node_bits(), 12);
    assert_eq!(config.sequence_bits(), 10); // 22 - 12
    assert_eq!(config.epoch(), 1640995200000);
}

#[test]
fn config_test_default_config() {
    let config = SnowIDConfig::default();
    assert_eq!(config.node_bits(), DEFAULT_NODE_BITS);
    assert_eq!(
        config.sequence_bits(),
        SnowID::TOTAL_NODE_AND_SEQUENCE_BITS - DEFAULT_NODE_BITS
    );
    assert_eq!(config.epoch(), DEFAULT_CUSTOM_EPOCH);
    assert_eq!(config.spin_enabled(), DEFAULT_SPIN_ENABLED);
    assert_eq!(config.spin_loops(), DEFAULT_SPIN_LOOPS);
    assert_eq!(config.spin_yield_every(), DEFAULT_SPIN_YIELD_EVERY);
}

#[test]
fn config_test_bit_config() {
    let config = SnowIDConfig::default();
    assert_eq!(config.node_shift(), 12);
    assert_eq!(config.timestamp_shift(), 22);
    assert_eq!(config.sequence_mask(), 0xFFF);
    assert_eq!(config.node_mask(), 0x3FF);
    assert_eq!(config.timestamp_mask(), (1u64 << 42) - 1);
    assert_eq!(config.max_sequence_id(), 0xFFF);
    assert_eq!(config.max_node_id(), 0x3FF);
}

#[test]
fn config_test_spin_tuning_builder() {
    let cfg = SnowIDConfig::builder()
        .enable_spin(false)
        .spin_loops(0)
        .spin_yield_every(0)
        .build();
    assert!(!cfg.spin_enabled());
    assert_eq!(cfg.spin_loops(), 0);
    assert_eq!(cfg.spin_yield_every(), 0);

    let cfg2 = SnowIDConfig::builder()
        .enable_spin(true)
        .spin_loops(128)
        .spin_yield_every(8)
        .build();
    assert!(cfg2.spin_enabled());
    assert_eq!(cfg2.spin_loops(), 128);
    assert_eq!(cfg2.spin_yield_every(), 8);
}

#[test]
fn config_tests_test_valid_node_bits() {
    for bits in 6..=16 {
        let config = SnowIDConfig::builder().node_bits(bits).unwrap().build();
        assert_eq!(config.node_bits(), bits);
        assert_eq!(
            config.sequence_bits(),
            SnowID::TOTAL_NODE_AND_SEQUENCE_BITS - bits
        );
    }
}

#[test]
fn config_tests_test_node_bits_ok() {
    let cfg = SnowIDConfig::builder().node_bits(12).unwrap().build();
    assert_eq!(cfg.node_bits(), 12);
}

#[test]
fn config_tests_test_node_bits_err() {
    let err = SnowIDConfig::builder().node_bits(5).unwrap_err();
    assert_eq!(err, SnowIDConfigError::InvalidNodeBits { bits: 5 });
}

#[test]
fn config_tests_test_custom_config() {
    let config = SnowIDConfig::builder()
        .node_bits(12)
        .unwrap()
        .epoch(1640995200000)
        .build();

    assert_eq!(config.node_bits(), 12);
    assert_eq!(config.sequence_bits(), 10);
    assert_eq!(config.epoch(), 1640995200000);
}

#[test]
fn config_tests_test_default_config() {
    let config = SnowIDConfig::default();
    assert_eq!(config.node_bits(), 10);
    assert_eq!(config.sequence_bits(), 12);
    assert!(config.spin_enabled());
}

#[test]
fn config_tests_test_bit_config() {
    let config = SnowIDConfig::default();
    assert_eq!(config.max_sequence_id(), 0xFFF);
    assert_eq!(config.max_node_id(), 0x3FF);
}

#[test]
fn config_tests_test_spin_tuning_builder() {
    let cfg = SnowIDConfig::builder()
        .enable_spin(false)
        .spin_loops(0)
        .spin_yield_every(0)
        .build();
    assert!(!cfg.spin_enabled());
    assert_eq!(cfg.spin_loops(), 0);
    assert_eq!(cfg.spin_yield_every(), 0);

    let cfg2 = SnowIDConfig::builder()
        .enable_spin(true)
        .spin_loops(128)
        .spin_yield_every(8)
        .build();
    assert!(cfg2.spin_enabled());
    assert_eq!(cfg2.spin_loops(), 128);
    assert_eq!(cfg2.spin_yield_every(), 8);
}

#[test]
fn node_bits_range_is_six_to_sixteen() {
    assert_eq!(
        SnowIDConfig::builder().node_bits(5).unwrap_err(),
        SnowIDConfigError::InvalidNodeBits { bits: 5 }
    );
    assert_eq!(
        SnowIDConfig::builder().node_bits(17).unwrap_err(),
        SnowIDConfigError::InvalidNodeBits { bits: 17 }
    );
    assert!(SnowIDConfig::builder().node_bits(6).is_ok());
    assert!(SnowIDConfig::builder().node_bits(16).is_ok());
    assert!(SnowIDConfig::builder().node_bits(0).is_err());
    assert!(SnowIDConfig::builder().node_bits(255).is_err());
}

#[test]
fn layout_masks_for_extreme_widths() {
    let narrow = SnowIDConfig::builder().node_bits(6).unwrap().build();
    assert_eq!(narrow.max_node_id(), 63);
    assert_eq!(narrow.max_sequence_id(), 65535);
    assert_eq!(narrow.node_shift(), 16);
    let wide = SnowIDConfig::builder().node_bits(16).unwrap().build();
    assert_eq!(wide.max_node_id(), 65535);
    assert_eq!(wide.max_sequence_id(), 63);
    assert_eq!(wide.node_shift(), 6);
    assert_eq!(SnowIDConfig::calculate_mask(0), 0);
    assert_eq!(SnowIDConfig::calculate_mask(16), 0xFFFF);
}

#[test]
fn config_error_message() {
    let err = SnowIDConfigError::InvalidNodeBits { bits: 17 };
    assert_eq!(err.to_string(), "Node bits 17 must be between 6 and 16");
}
