//! The configuration of one kernel launch.
use vstd::prelude::*;

use crate::error::{LaunchError, LaunchErrorView};
use crate::text::{decimal, decimal_text};

verus! {

/// The most threads that a block may have.
pub const MAX_BLOCK: u32 = 1024;

/// Configuration for a single kernel launch.
///
/// Encodes the grid (total blocks), block (threads per block), shared-memory
/// budget, and an optional symbolic kernel name for profiling/debugging.
#[derive(Debug)]
pub struct KernelConfig {
    /// Number of thread blocks in the grid (x-dimension).
    pub grid_size: u32,
    /// Number of threads per block (x-dimension).
    pub block_size: u32,
    /// Dynamic shared memory per block, in bytes.
    pub shared_mem_bytes: u32,
    /// Optional symbolic name for the kernel.
    pub name: Option<String>,
}

/// The characters of an optional string.
pub open spec fn name_view(name: Option<String>) -> Option<Seq<char>> {
    match name {
        Some(s) => Some(s@),
        None => None,
    }
}

/// A [`KernelConfig`] as a mathematical value.
#[verifier::ext_equal]
pub struct KernelConfigView {
    pub grid_size: u32,
    pub block_size: u32,
    pub shared_mem_bytes: u32,
    pub name: Option<Seq<char>>,
}

impl View for KernelConfig {
    type V = KernelConfigView;

    open spec fn view(&self) -> KernelConfigView {
        KernelConfigView {
            grid_size: self.grid_size,
            block_size: self.block_size,
            shared_mem_bytes: self.shared_mem_bytes,
            name: name_view(self.name),
        }
    }
}

impl KernelConfigView {
    /// A launch needs at least one block, and blocks of one to [`MAX_BLOCK`]
    /// threads.
    pub open spec fn is_valid(self) -> bool {
        &&& self.grid_size > 0
        &&& 0 < self.block_size <= MAX_BLOCK
    }

    /// Why the configuration is not valid. An empty block is reported before
    /// an empty grid, and an empty grid before an oversized block.
    pub open spec fn defect(self) -> LaunchErrorView
        recommends
            !self.is_valid(),
    {
        LaunchErrorView::InvalidConfig(
            if self.block_size == 0 {
                "block_size must be > 0"@
            } else if self.grid_size == 0 {
                "grid_size must be > 0"@
            } else {
                "block_size "@ + decimal_text(self.block_size as nat) + " exceeds max "@
                    + decimal_text(MAX_BLOCK as nat)
            },
        )
    }
}

impl Clone for KernelConfig {
    fn clone(&self) -> (r: Self)
        ensures
            r == *self,
    {
        KernelConfig {
            grid_size: self.grid_size,
            block_size: self.block_size,
            shared_mem_bytes: self.shared_mem_bytes,
            name: match &self.name {
                Some(s) => Some(s.clone()),
                None => None,
            },
        }
    }
}

impl KernelConfig {
    /// Create a minimal config with grid and block sizes.
    pub fn new(grid_size: u32, block_size: u32) -> (r: Self)
        ensures
            r@ == (KernelConfigView { grid_size, block_size, shared_mem_bytes: 0, name: None }),
            r == (KernelConfig { grid_size, block_size, shared_mem_bytes: 0, name: None }),
    {
        KernelConfig { grid_size, block_size, shared_mem_bytes: 0, name: None }
    }

    /// Set shared memory.
    pub fn with_shared_mem(self, bytes: u32) -> (r: Self)
        ensures
            r@ == (KernelConfigView { shared_mem_bytes: bytes, ..self@ }),
            r == (KernelConfig { shared_mem_bytes: bytes, ..self }),
    {
        KernelConfig { shared_mem_bytes: bytes, ..self }
    }

    /// Set symbolic kernel name to what `name` converts to.
    pub fn with_name(self, name: impl Into<String>) -> (r: Self)
        ensures
            r.name matches Some(s) && call_ensures(Into::<String>::into, (name,), s),
            r@ == (KernelConfigView { name: r@.name, ..self@ }),
            r == (KernelConfig { name: r.name, ..self }),
    {
        KernelConfig { name: Some(name.into()), ..self }
    }

    /// Total threads launched = grid_size × block_size.
    pub fn total_threads(&self) -> (r: u64)
        ensures
            r == self.grid_size * self.block_size,
    {
        proof {
            lemma_u32_product_fits(self.grid_size, self.block_size);
        }
        self.grid_size as u64 * self.block_size as u64
    }

    /// Check whether this config is well-formed.
    pub fn validate(&self) -> (r: Result<(), LaunchError>)
        ensures
            r is Ok <==> self@.is_valid(),
            r is Ok <==> self.grid_size != 0 && self.block_size != 0 && self.block_size <= 1024,
            r matches Err(e) ==> e@ == self@.defect(),
    {
        if self.block_size == 0 {
            return Err(LaunchError::invalid_config("block_size must be > 0"));
        }
        if self.grid_size == 0 {
            return Err(LaunchError::invalid_config("grid_size must be > 0"));
        }
        if self.block_size > MAX_BLOCK {
            let mut msg: String = "block_size ".into();
            msg.append(decimal(self.block_size).as_str());
            msg.append(" exceeds max ");
            msg.append(decimal(MAX_BLOCK).as_str());
            return Err(LaunchError::invalid_config(msg));
        }
        Ok(())
    }
}

/// A configuration's view has the configuration's own numbers, and its name is
/// there exactly if the configuration has one, character by character.
pub proof fn law_config_view(c: KernelConfig)
    ensures
        c@.grid_size == c.grid_size,
        c@.block_size == c.block_size,
        c@.shared_mem_bytes == c.shared_mem_bytes,
        c.name is None <==> c@.name is None,
        c.name matches Some(s) ==> c@.name == Some(s@),
{
}

/// Validation refuses exactly the empty grid, the empty block and the block of
/// more than 1024 threads, whatever the shared memory and the name.
pub proof fn law_validate_accepts(c: KernelConfig, r: Result<(), LaunchError>)
    requires
        call_ensures(KernelConfig::validate, (&c,), r),
    ensures
        c.block_size > 1024 || c.block_size == 0 || c.grid_size == 0 ==> r is Err,
        1 <= c.block_size <= 1024 && c.grid_size >= 1 ==> r is Ok,
{
    law_validity(c@);
}

/// A configuration is valid exactly if its grid has a block and its blocks have
/// between one and 1024 threads; shared memory and name play no part.
pub proof fn law_validity(c: KernelConfigView)
    ensures
        c.is_valid() <==> 1 <= c.block_size <= 1024 && 1 <= c.grid_size,
        forall|d: KernelConfigView|
            d.grid_size == c.grid_size && d.block_size == c.block_size ==> #[trigger] d.is_valid()
                == c.is_valid(),
{
}

/// Validation says what is wrong: an empty block first, an empty grid next,
/// and of an oversized block both its size and the limit.
pub proof fn law_validate_explains(c: KernelConfig, r: Result<(), LaunchError>)
    requires
        call_ensures(KernelConfig::validate, (&c,), r),
    ensures
        c.block_size == 0 ==> (r matches Err(LaunchError::InvalidConfig(msg)) && msg@
            == "block_size must be > 0"@),
        c.block_size > 0 && c.grid_size == 0 ==> (r matches Err(LaunchError::InvalidConfig(msg))
            && msg@ == "grid_size must be > 0"@),
        c.block_size > 1024 && c.grid_size > 0 ==> (r matches Err(LaunchError::InvalidConfig(msg))
            && msg@ == "block_size "@ + crate::text::decimal_text(c.block_size as nat)
            + " exceeds max 1024"@),
{
    law_oversized_block_text(c.block_size);
}

/// Of an oversized block, a configuration's defect names the size and the
/// limit, 1024, in decimal.
pub proof fn law_oversized_block_text(block_size: u32)
    ensures
        block_size > 1024 ==> forall|c: KernelConfigView|
            c.block_size == block_size && c.grid_size > 0 ==> #[trigger] c.defect()
                == LaunchErrorView::InvalidConfig(
                "block_size "@ + crate::text::decimal_text(block_size as nat)
                    + " exceeds max 1024"@,
            ),
{
    reveal_strlit(" exceeds max ");
    reveal_strlit(" exceeds max 1024");
    reveal_with_fuel(crate::text::decimal_text, 4);
    let size = crate::text::decimal_text(block_size as nat);
    assert(" exceeds max "@ + crate::text::decimal_text(1024) =~= " exceeds max 1024"@);
    assert("block_size "@ + size + " exceeds max "@ + crate::text::decimal_text(1024)
        =~= "block_size "@ + size + (" exceeds max "@ + crate::text::decimal_text(1024)));
}

/// The product of two `u32` values fits in a `u64`.
pub(crate) proof fn lemma_u32_product_fits(a: u32, b: u32)
    ensures
        0 <= a * b <= u64::MAX,
{
    assert(0 <= a * b <= 0xffff_ffff * 0xffff_ffff) by (nonlinear_arith)
        requires
            0 <= a <= 0xffff_ffff,
            0 <= b <= 0xffff_ffff,
    ;
}

} // verus!
