use ternary_kernel_launch::{KernelConfig, LaunchBuilder, StreamQueue};

#[test]
fn builder_basic_launch() {
    let mut s = StreamQueue::new(0);
    let (seq, cfg) = LaunchBuilder::new(&mut s)
        .name("ternary_gemm")
        .block_size(128)
        .shared_mem(8192)
        .elements(4096)
        .launch()
        .unwrap();

    assert_eq!(cfg.block_size, 128);
    assert_eq!(cfg.grid_size, 32); // 4096 / 128
    assert_eq!(cfg.shared_mem_bytes, 8192);
    assert_eq!(cfg.name.as_deref(), Some("ternary_gemm"));
    assert_eq!(s.pending_count(), 1);
    let _ = seq;
}

#[test]
fn builder_single_element() {
    let mut s = StreamQueue::new(0);
    let (_, cfg) = LaunchBuilder::new(&mut s)
        .elements(1)
        .block_size(256)
        .launch()
        .unwrap();
    assert_eq!(cfg.grid_size, 1);
    assert_eq!(cfg.block_size, 256);
}

#[test]
fn builder_zero_elements_still_launches() {
    let mut s = StreamQueue::new(0);
    let (_, cfg) = LaunchBuilder::new(&mut s).launch().unwrap();
    assert_eq!(cfg.grid_size, 1); // defaults to 1 grid
}

#[test]
fn builder_validates_bad_block() {
    // KernelConfig::validate rejects block_size > 1024 directly
    let cfg = KernelConfig::new(1, 2048);
    assert!(cfg.validate().is_err());
}

#[test]
fn builder_max_block_size() {
    let mut s = StreamQueue::new(0);
    let (_, cfg) = LaunchBuilder::new(&mut s)
        .block_size(1024)
        .elements(1024)
        .launch()
        .unwrap();
    assert_eq!(cfg.block_size, 1024);
    assert_eq!(cfg.grid_size, 1);
}

#[test]
fn builder_preserves_stream_fifo() {
    let mut s = StreamQueue::new(0);
    LaunchBuilder::new(&mut s).name("a").elements(100).launch().unwrap();
    LaunchBuilder::new(&mut s).name("b").elements(200).launch().unwrap();
    LaunchBuilder::new(&mut s).name("c").elements(300).launch().unwrap();
    s.flush(1_000_000_000);
    let completed = s.completed();
    let names: Vec<&str> = completed
        .iter()
        .filter_map(|c| c.config.name.as_deref())
        .collect();
    assert_eq!(names, vec!["a", "b", "c"]);
}

#[test]
fn builder_defaults() {
    let mut s = StreamQueue::new(0);
    let b = LaunchBuilder::new(&mut s);
    assert_eq!((b.block_size, b.shared_mem, b.elements, b.payload_size), (256, 0, 0, 0));
    assert!(b.name.is_none());
    let cfg = b.build_config();
    assert_eq!((cfg.grid_size, cfg.block_size, cfg.shared_mem_bytes), (1, 256, 0));
    assert!(cfg.name.is_none());
}

#[test]
fn builder_builds_without_enqueueing() {
    let mut s = StreamQueue::new(0);
    let owned = String::from("k");
    let cfg = LaunchBuilder::new(&mut s).name(owned).elements(1000).build_config();
    assert_eq!((cfg.grid_size, cfg.block_size), (4, 256));
    assert_eq!(cfg.name.as_deref(), Some("k"));
    assert_eq!(s.pending_count(), 0);
}

#[test]
fn builder_payload_follows_elements_unless_overridden() {
    let mut s = StreamQueue::new(0);
    assert_eq!(LaunchBuilder::new(&mut s).elements(100).payload_size, 400);
    assert_eq!(LaunchBuilder::new(&mut s).elements(100).payload_size(7).payload_size, 7);
    assert_eq!(LaunchBuilder::new(&mut s).payload_size(7).elements(100).payload_size, 400);
    LaunchBuilder::new(&mut s).elements(100).launch().unwrap();
    LaunchBuilder::new(&mut s).elements(100).payload_size(9).launch().unwrap();
    s.flush(1_000_000_000);
    assert_eq!(s.completed()[0].duration_nanos, 400);
    assert_eq!(s.completed()[1].duration_nanos, 9);
}

#[test]
fn builder_refused_launch_leaves_the_stream_alone() {
    let mut s = StreamQueue::new(0);
    LaunchBuilder::new(&mut s).launch().unwrap();
    let err = LaunchBuilder::new(&mut s).block_size(0).launch().unwrap_err();
    assert_eq!(err.to_string(), "invalid config: block_size must be > 0");
    let err = LaunchBuilder::new(&mut s).block_size(1025).launch().unwrap_err();
    assert_eq!(err.to_string(), "invalid config: block_size 1025 exceeds max 1024");
    assert_eq!(s.pending_count(), 1);
    // no sequence number was used up
    let (seq, _) = LaunchBuilder::new(&mut s).launch().unwrap();
    assert_eq!(seq, 1);
}

#[test]
fn builder_with_elements_always_validates() {
    let mut s = StreamQueue::new(0);
    for bs in [0u32, 1, 1024, 1025, u32::MAX] {
        let (_, cfg) = LaunchBuilder::new(&mut s).block_size(bs).elements(5000).launch().unwrap();
        assert!(cfg.total_threads() >= 5000);
        cfg.validate().unwrap();
    }
}

#[test]
fn builder_documented_use() {
    let mut stream = StreamQueue::new(0);
    let (seq, config) = LaunchBuilder::new(&mut stream)
        .name("ternary_attention")
        .block_size(256)
        .shared_mem(4096)
        .elements(16384)
        .launch()
        .unwrap();
    assert_eq!(seq, 0);
    assert_eq!(config.grid_size, 64);
    assert_eq!(config.name.unwrap(), "ternary_attention");
}
