//! A fluent way to put a launch together and onto a stream.
use vstd::prelude::*;

use crate::config::{KernelConfig, KernelConfigView};
use crate::error::{LaunchError, LaunchErrorView};
use crate::params::LaunchParams;
use crate::stream::StreamQueue;

verus! {

/// The block size of a launch that asks for none.
pub const DEFAULT_BLOCK_SIZE: u32 = 256;

/// The size of one data element, a 32-bit number, in bytes.
pub const ELEMENT_BYTES: u64 = 4;

/// Fluent builder for constructing and enqueueing a kernel launch.
pub struct LaunchBuilder<'a> {
    /// The stream that the launch goes onto.
    pub stream: &'a mut StreamQueue,
    /// The kernel's symbolic name.
    pub name: Option<String>,
    /// The preferred block size.
    pub block_size: u32,
    /// Shared memory per block, in bytes.
    pub shared_mem: u32,
    /// The number of data elements.
    pub elements: u64,
    /// Bytes that the launch transfers.
    pub payload_size: u64,
}

/// The configuration that a builder's settings stand for.  With data elements
/// to cover, block and grid are computed from them; without, it is a single
/// block of exactly the preferred size.
pub open spec fn built_config(
    name: Option<Seq<char>>,
    block_size: u32,
    shared_mem: u32,
    elements: u64,
) -> KernelConfigView {
    if elements > 0 {
        let block = crate::params::clamped_block(block_size);
        KernelConfigView {
            grid_size: crate::params::grid_extent(elements, block) as u32,
            block_size: block,
            shared_mem_bytes: shared_mem,
            name,
        }
    } else {
        KernelConfigView { grid_size: 1, block_size, shared_mem_bytes: shared_mem, name }
    }
}

impl<'a> LaunchBuilder<'a> {
    /// The builder stands for a launch: the blocks that its data elements need
    /// fit in a `u32`.
    pub open spec fn can_build(&self) -> bool {
        self.elements > 0 ==> crate::params::blocks_needed(
            self.elements,
            crate::params::clamped_block(self.block_size),
        ) <= u32::MAX
    }

    /// The configuration that the builder stands for.
    pub open spec fn config(&self) -> KernelConfigView {
        built_config(
            crate::config::name_view(self.name),
            self.block_size,
            self.shared_mem,
            self.elements,
        )
    }

    /// Start building a launch for `stream`.
    pub fn new(stream: &'a mut StreamQueue) -> (r: Self)
        ensures
            *r.stream == *old(stream),
            *final(r.stream) == *final(stream),
            r.name is None,
            r.block_size == DEFAULT_BLOCK_SIZE,
            r.block_size == 256,
            r.shared_mem == 0,
            r.elements == 0,
            r.payload_size == 0,
    {
        LaunchBuilder {
            stream,
            name: None,
            block_size: DEFAULT_BLOCK_SIZE,
            shared_mem: 0,
            elements: 0,
            payload_size: 0,
        }
    }

    /// Set kernel name to what `name` converts to.
    pub fn name(self, name: impl Into<String>) -> (r: Self)
        ensures
            r.name matches Some(s) && call_ensures(Into::<String>::into, (name,), s),
            r == (LaunchBuilder { name: r.name, ..self }),
    {
        LaunchBuilder { name: Some(name.into()), ..self }
    }

    /// Set preferred block (thread) size.
    pub fn block_size(self, bs: u32) -> (r: Self)
        ensures
            r == (LaunchBuilder { block_size: bs, ..self }),
    {
        LaunchBuilder { block_size: bs, ..self }
    }

    /// Set shared memory per block.
    pub fn shared_mem(self, bytes: u32) -> (r: Self)
        ensures
            r == (LaunchBuilder { shared_mem: bytes, ..self }),
    {
        LaunchBuilder { shared_mem: bytes, ..self }
    }

    /// Set number of data elements (used to compute grid), and with it the
    /// payload size.
    pub fn elements(self, n: u64) -> (r: Self)
        requires
            n * ELEMENT_BYTES <= u64::MAX,
        ensures
            r == (LaunchBuilder {
                elements: n,
                payload_size: (n * ELEMENT_BYTES) as u64,
                ..self
            }),
            r.payload_size == n * 4,
    {
        LaunchBuilder { elements: n, payload_size: n * ELEMENT_BYTES, ..self }
    }

    /// Override payload size (bytes transferred).
    pub fn payload_size(self, bytes: u64) -> (r: Self)
        ensures
            r == (LaunchBuilder { payload_size: bytes, ..self }),
    {
        LaunchBuilder { payload_size: bytes, ..self }
    }

    /// Build the `KernelConfig` without enqueuing.
    pub fn build_config(&self) -> (r: KernelConfig)
        requires
            self.can_build(),
        ensures
            r@ == self.config(),
    {
        let (grid, block) = if self.elements > 0 {
            LaunchParams::compute_1d(self.elements, self.block_size)
        } else {
            (1, self.block_size)
        };
        let cfg = KernelConfig::new(grid, block).with_shared_mem(self.shared_mem);
        match &self.name {
            Some(n) => cfg.with_name(n),
            None => cfg,
        }
    }

    /// Build, validate, and enqueue onto the stream.
    ///
    /// Returns `(seq, KernelConfig)` on success.  A launch that does not
    /// validate leaves the stream as it was.
    pub fn launch(self) -> (r: Result<(u64, KernelConfig), LaunchError>)
        requires
            self.can_build(),
            old(self.stream)@.wf(),
        ensures
            r is Ok <==> self.config().is_valid(),
            r matches Ok((seq, cfg)) ==> {
                &&& seq == old(self.stream)@.next_seq
                &&& cfg@ == self.config()
                &&& final(self.stream)@ == old(self.stream)@.enqueue(
                    self.config(),
                    self.payload_size,
                )
            },
            r matches Err(e) ==> {
                &&& e@ == self.config().defect()
                &&& *final(self.stream) == *old(self.stream)
            },
            final(self.stream)@.wf(),
    {
        let cfg = self.build_config();
        match cfg.validate() {
            Ok(_) => {
                let seq = self.stream.enqueue(cfg.clone(), self.payload_size);
                Ok((seq, cfg))
            },
            Err(e) => Err(e),
        }
    }
}

/// A launch with data elements validates whenever the blocks that they need fit
/// in a `u32`; one without validates exactly if the preferred block size is in
/// range.
pub proof fn law_launch_validates(
    name: Option<Seq<char>>,
    block_size: u32,
    shared_mem: u32,
    elements: u64,
)
    requires
        crate::params::blocks_needed(elements, crate::params::clamped_block(block_size))
            <= u32::MAX,
    ensures
        built_config(name, block_size, shared_mem, elements).is_valid() <==> (elements > 0 || 0
            < block_size <= LaunchParams::MAX_BLOCK_SIZE),
{
    crate::params::law_grid_is_never_empty(elements, crate::params::clamped_block(block_size));
}

/// As long as the blocks needed fit in a `u32`, a launch has a thread for every
/// data element.
pub proof fn law_launch_covers_elements(
    name: Option<Seq<char>>,
    block_size: u32,
    shared_mem: u32,
    elements: u64,
)
    requires
        crate::params::blocks_needed(elements, crate::params::clamped_block(block_size))
            <= u32::MAX,
    ensures
        ({
            let cfg = built_config(name, block_size, shared_mem, elements);
            cfg.grid_size * cfg.block_size >= elements
        }),
{
    let block = crate::params::clamped_block(block_size);
    if elements > 0 {
        crate::params::law_grid_is_never_empty(elements, block);
        crate::params::law_1d_covers(elements, block_size);
    } else {
        vstd::arithmetic::mul::lemma_mul_nonnegative(1, block_size as int);
    }
}

/// What a builder's settings come to.  With data elements, blocks have the
/// preferred size, brought between one thread and 1024, and there are just as
/// many of them as it takes to cover the elements; without, it is one block of
/// the preferred size as it is.  Shared memory and name are those that were
/// set.
pub proof fn law_built_config(b: LaunchBuilder<'_>, cfg: KernelConfig)
    requires
        b.can_build(),
        call_ensures(LaunchBuilder::build_config, (&b,), cfg),
    ensures
        b.elements > 0 ==> {
            &&& 1 <= b.block_size <= 1024 ==> cfg.block_size == b.block_size
            &&& b.block_size > 1024 ==> cfg.block_size == 1024
            &&& b.block_size == 0 ==> cfg.block_size == 1
            &&& (cfg.grid_size - 1) * cfg.block_size < b.elements <= cfg.grid_size
                * cfg.block_size
        },
        b.elements == 0 ==> cfg.grid_size == 1 && cfg.block_size == b.block_size,
        cfg.shared_mem_bytes == b.shared_mem,
        cfg.name is None <==> b.name is None,
        b.name matches Some(n) ==> (cfg.name matches Some(m) && m@ == n@),
{
    let block = crate::params::clamped_block(b.block_size);
    crate::params::law_block_is_clamped(b.block_size);
    if b.elements > 0 {
        crate::params::law_grid_is_never_empty(b.elements, block);
        crate::params::law_1d_covers(b.elements, b.block_size);
    }
    assert(cfg@ == b.config());
}

/// The same of the model: what the settings of a launch come to.
pub proof fn law_settings_come_to(
    name: Option<Seq<char>>,
    block_size: u32,
    shared_mem: u32,
    elements: u64,
)
    requires
        1 <= block_size <= 1024 ==> elements <= 0xffff_ffff * block_size,
        block_size > 1024 ==> elements <= 0xffff_ffff * 1024,
        block_size == 0 ==> elements <= 0xffff_ffff,
    ensures
        ({
            let cfg = built_config(name, block_size, shared_mem, elements);
            &&& elements > 0 ==> {
                &&& 1 <= block_size <= 1024 ==> cfg.block_size == block_size
                &&& block_size > 1024 ==> cfg.block_size == 1024
                &&& block_size == 0 ==> cfg.block_size == 1
                &&& (cfg.grid_size - 1) * cfg.block_size < elements <= cfg.grid_size
                    * cfg.block_size
            }
            &&& elements == 0 ==> cfg.grid_size == 1 && cfg.block_size == block_size
            &&& cfg.shared_mem_bytes == shared_mem
            &&& cfg.name == name
        }),
{
    let block = crate::params::clamped_block(block_size);
    crate::params::law_block_is_clamped(block_size);
    crate::params::law_blocks_fit(elements, block);
    if elements > 0 {
        crate::params::law_grid_is_never_empty(elements, block);
        crate::params::law_1d_covers(elements, block_size);
    }
}

/// A builder can be built exactly if `u32::MAX` blocks of its size hold its
/// elements.
pub proof fn law_what_can_be_built(b: LaunchBuilder<'_>)
    ensures
        b.can_build() <==> {
            &&& 1 <= b.block_size <= 1024 ==> b.elements <= 0xffff_ffff * b.block_size
            &&& b.block_size > 1024 ==> b.elements <= 0xffff_ffff * 1024
            &&& b.block_size == 0 ==> b.elements <= 0xffff_ffff
        },
{
    crate::params::law_block_is_clamped(b.block_size);
    crate::params::law_blocks_fit(b.elements, crate::params::clamped_block(b.block_size));
    assert(b.elements == 0 ==> 0xffff_ffff * b.block_size >= b.elements) by (nonlinear_arith)
        requires
            b.block_size >= 0,
    ;
}

/// Setting the elements sets the payload to four bytes for each of them, and
/// touches nothing else.
pub proof fn law_elements_set_the_payload<'a>(
    b: LaunchBuilder<'a>,
    n: u64,
    r: LaunchBuilder<'a>,
)
    requires
        call_ensures(LaunchBuilder::elements, (b, n), r),
    ensures
        r.elements == n,
        r.payload_size == n * 4,
        r.name == b.name,
        r.block_size == b.block_size,
        r.shared_mem == b.shared_mem,
        r.stream == b.stream,
{
}

/// What a launch returns.  It is refused exactly if there are no data elements
/// and the preferred block size is zero or above 1024.  Otherwise it gives the
/// sequence number that was next on the stream, and a configuration with blocks
/// of the preferred size, brought between one thread and 1024, just as many as
/// it takes to cover the elements, and the shared memory and name that were
/// set.
pub proof fn law_launch_result(
    b: LaunchBuilder<'_>,
    r: Result<(u64, KernelConfig), LaunchError>,
)
    requires
        b.can_build(),
        call_ensures(LaunchBuilder::launch, (b,), r),
    ensures
        r is Err <==> b.elements == 0 && (b.block_size == 0 || b.block_size > 1024),
        r matches Ok((seq, cfg)) ==> {
            &&& seq == old(b.stream)@.next_seq
            &&& b.elements > 0 ==> {
                &&& 1 <= b.block_size <= 1024 ==> cfg.block_size == b.block_size
                &&& b.block_size > 1024 ==> cfg.block_size == 1024
                &&& b.block_size == 0 ==> cfg.block_size == 1
                &&& (cfg.grid_size - 1) * cfg.block_size < b.elements <= cfg.grid_size
                    * cfg.block_size
            }
            &&& b.elements == 0 ==> cfg.grid_size == 1 && cfg.block_size == b.block_size
            &&& cfg.shared_mem_bytes == b.shared_mem
            &&& cfg.name is None <==> b.name is None
            &&& b.name matches Some(n) ==> (cfg.name matches Some(m) && m@ == n@)
        },
        r matches Err(e) ==> {
            &&& b.block_size == 0 ==> e@ == LaunchErrorView::InvalidConfig(
                "block_size must be > 0"@,
            )
            &&& b.block_size > 1024 ==> e@ == LaunchErrorView::InvalidConfig(
                "block_size "@ + crate::text::decimal_text(b.block_size as nat)
                    + " exceeds max 1024"@,
            )
        },
{
    law_what_can_be_built(b);
    law_settings_come_to(
        crate::config::name_view(b.name),
        b.block_size,
        b.shared_mem,
        b.elements,
    );
    crate::params::law_grid_is_never_empty(
        b.elements,
        crate::params::clamped_block(b.block_size),
    );
    crate::config::law_oversized_block_text(b.block_size);
}

/// What a launch does to the stream: one that is refused leaves it untouched;
/// one that is not stands last in the queue, with the configuration that was
/// returned and the payload that was set, and disturbs nothing before it.
pub proof fn law_launch_on_stream(
    b: LaunchBuilder<'_>,
    r: Result<(u64, KernelConfig), LaunchError>,
)
    requires
        call_ensures(LaunchBuilder::launch, (b,), r),
    ensures
        r is Err ==> *final(b.stream) == *old(b.stream),
        r matches Ok((seq, cfg)) ==> {
            let before = old(b.stream)@;
            let after = final(b.stream)@;
            let n = before.pending.len() as int;
            &&& after.id == before.id
            &&& after.completed == before.completed
            &&& after.pending.len() == n + 1
            &&& after.pending[n].seq == seq
            &&& after.pending[n].config == cfg@
            &&& after.pending[n].payload_size == b.payload_size
            &&& forall|i: int| 0 <= i < n ==> #[trigger] after.pending[i] == before.pending[i]
            &&& seq < u64::MAX ==> after.next_seq == seq + 1
        },
{
    if r is Ok {
        crate::stream::law_enqueue_result(b.stream@, b.config(), b.payload_size);
    }
}

} // verus!
