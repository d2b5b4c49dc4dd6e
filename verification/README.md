# ternary_kernel_launch

CPU-side orchestration for launching ternary-valued GPU kernels, written and
verified in Verus. It needs no GPU runtime: it models the configuration,
scheduling and completion tracking that a ternary inference engine does before
and around the device.

- `src/config.rs`: `KernelConfig`, one launch, and its validation
- `src/params.rs`: `LaunchParams`, grid and block dimensions from data sizes
- `src/arith.rs`: the rounding division and square root behind them
- `src/stream.rs`: `StreamQueue`, launches that run first in, first out
- `src/events.rs`: `EventPool`, completion events and how to wait for one
- `src/builder.rs`: `LaunchBuilder`, from settings to an enqueued launch
- `src/error.rs`, `src/text.rs`: errors and the text in them
- `app/`: the wait loop itself and printable errors, in ordinary Rust

```rust
use ternary_kernel_launch::{LaunchBuilder, StreamQueue};

let mut stream = StreamQueue::new(0);
let (seq, config) = LaunchBuilder::new(&mut stream)
    .name("ternary_attention")
    .block_size(256)
    .shared_mem(4096)
    .elements(16384)
    .launch()?;
stream.flush(1_000_000_000);
assert_eq!(stream.completed_seqs(), vec![seq]);
assert_eq!(config.grid_size, 64);
```

Each type has a view, and the contracts are stated over it. Proof functions
named `law_*` state what holds across operations: that a grid covers its data,
that a stream is first in, first out, that an event completes with the kernel it
was recorded at.
