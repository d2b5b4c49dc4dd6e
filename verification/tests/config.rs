use ternary_kernel_launch::{KernelConfig, LaunchError};

#[test]
fn config_total_threads() {
    let c = KernelConfig::new(10, 256);
    assert_eq!(c.total_threads(), 2560);
}

#[test]
fn config_validate_ok() {
    KernelConfig::new(1, 1).validate().unwrap();
    KernelConfig::new(1000, 1024).validate().unwrap();
}

#[test]
fn config_validate_zero_block() {
    let err = KernelConfig::new(10, 0).validate().unwrap_err();
    match err {
        LaunchError::InvalidConfig(msg) => assert!(msg.contains("block_size")),
        _ => panic!("wrong error variant"),
    }
}

#[test]
fn config_validate_zero_grid() {
    let err = KernelConfig::new(0, 64).validate().unwrap_err();
    match err {
        LaunchError::InvalidConfig(msg) => assert!(msg.contains("grid_size")),
        _ => panic!("wrong error variant"),
    }
}

#[test]
fn config_validate_exceeds_max_block() {
    let err = KernelConfig::new(1, 2048).validate().unwrap_err();
    match err {
        LaunchError::InvalidConfig(msg) => assert!(msg.contains("exceeds max")),
        _ => panic!("wrong error variant"),
    }
}

#[test]
fn config_builder_chaining() {
    let c = KernelConfig::new(4, 128)
        .with_shared_mem(4096)
        .with_name("ternary_matmul");
    assert_eq!(c.shared_mem_bytes, 4096);
    assert_eq!(c.name.as_deref(), Some("ternary_matmul"));
}

#[test]
fn config_name_from_every_kind_of_text() {
    let owned = String::from("owned");
    let c = KernelConfig::new(1, 1).with_name(&owned);
    assert_eq!(c.name.as_deref(), Some("owned"));
    let c = c.with_name(owned);
    assert_eq!(c.name.as_deref(), Some("owned"));
    let c = c.with_name("slice");
    assert_eq!(c.name.as_deref(), Some("slice"));
    assert_eq!((c.grid_size, c.block_size, c.shared_mem_bytes), (1, 1, 0));
}

#[test]
fn config_clone_keeps_all_fields() {
    let c = KernelConfig::new(3, 7).with_shared_mem(11).with_name("k");
    let d = c.clone();
    assert_eq!(
        (d.grid_size, d.block_size, d.shared_mem_bytes, d.name),
        (3, 7, 11, Some("k".to_string()))
    );
}

#[test]
fn config_largest_total() {
    assert_eq!(
        KernelConfig::new(u32::MAX, u32::MAX).total_threads(),
        18_446_744_065_119_617_025
    );
    assert_eq!(KernelConfig::new(256, 128).total_threads(), 32768);
    assert_eq!(KernelConfig::new(0, 128).total_threads(), 0);
}

fn message(c: KernelConfig) -> String {
    match c.validate() {
        Ok(()) => panic!("valid"),
        Err(LaunchError::InvalidConfig(msg)) => msg,
        Err(_) => panic!("wrong error variant"),
    }
}

#[test]
fn config_messages_are_exact() {
    assert_eq!(message(KernelConfig::new(1, 0)), "block_size must be > 0");
    assert_eq!(message(KernelConfig::new(0, 1)), "grid_size must be > 0");
    assert_eq!(message(KernelConfig::new(1, 1025)), "block_size 1025 exceeds max 1024");
    assert_eq!(
        message(KernelConfig::new(1, u32::MAX)),
        "block_size 4294967295 exceeds max 1024"
    );
    assert_eq!(
        message(KernelConfig::new(1, 1_002_003_000)),
        "block_size 1002003000 exceeds max 1024"
    );
}

#[test]
fn config_defects_are_reported_in_order() {
    assert_eq!(message(KernelConfig::new(0, 0)), "block_size must be > 0");
    assert_eq!(message(KernelConfig::new(0, 5000)), "grid_size must be > 0");
}

#[test]
fn error_sentences() {
    let err = KernelConfig::new(0, 8).validate().unwrap_err();
    assert_eq!(err.to_string(), "invalid config: grid_size must be > 0");
    assert_eq!(err.clone().to_string(), err.to_string());
    assert_eq!(LaunchError::QueueFull.to_string(), "stream queue is full");
    assert_eq!(LaunchError::StreamDestroyed.to_string(), "stream has been destroyed");
    assert_eq!(LaunchError::QueueFull.clone().to_string(), "stream queue is full");
    assert_eq!(
        LaunchError::StreamDestroyed.clone().to_string(),
        "stream has been destroyed"
    );
}

#[test]
fn decimal_numerals() {
    for n in [0u32, 7, 10, 99, 100, 1024, 1_000_000, u32::MAX] {
        assert_eq!(ternary_kernel_launch::text::decimal(n), n.to_string());
    }
}
