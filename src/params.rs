//! Load parameters: the startup overrides and the engine settings they yield.
use vstd::prelude::*;

verus! {

/// Settings fixed at startup. An absent value keeps the engine's default.
#[derive(Clone, Copy, Debug, PartialEq, Eq)]
pub struct LoadOptions {
    pub context_size: Option<i32>,
    pub gpu_offload: Option<i32>,
    pub seed: Option<i32>,
    pub kv_in_f16: Option<bool>,
    pub pin_memory: Option<bool>,
    pub no_swap: Option<bool>,
}

/// The settings one acquire call hands to the engine.
#[derive(Clone, Copy, Debug, PartialEq, Eq, Structural)]
pub struct EngineParams {
    pub n_ctx: i32,
    pub n_gpu_layers: i32,
    pub seed: i32,
    pub f16_kv: bool,
    pub use_mmap: bool,
    pub use_mlock: bool,
}

pub open spec fn or_default<T>(o: Option<T>, d: T) -> T {
    match o {
        Some(v) => v,
        None => d,
    }
}

/// `defaults` with each option that is present put in its place.
pub open spec fn resolved(options: LoadOptions, defaults: EngineParams) -> EngineParams {
    EngineParams {
        n_ctx: or_default(options.context_size, defaults.n_ctx),
        n_gpu_layers: or_default(options.gpu_offload, defaults.n_gpu_layers),
        seed: or_default(options.seed, defaults.seed),
        f16_kv: or_default(options.kv_in_f16, defaults.f16_kv),
        use_mmap: or_default(options.pin_memory, defaults.use_mmap),
        use_mlock: or_default(options.no_swap, defaults.use_mlock),
    }
}

/// The engine settings for a load: the engine's defaults, overridden by
/// every option given at startup.
pub fn engine_params(options: &LoadOptions, defaults: EngineParams) -> (r: EngineParams)
    ensures
        r == resolved(*options, defaults),
{
    EngineParams {
        n_ctx: options.context_size.unwrap_or(defaults.n_ctx),
        n_gpu_layers: options.gpu_offload.unwrap_or(defaults.n_gpu_layers),
        seed: options.seed.unwrap_or(defaults.seed),
        f16_kv: options.kv_in_f16.unwrap_or(defaults.f16_kv),
        use_mmap: options.pin_memory.unwrap_or(defaults.use_mmap),
        use_mlock: options.no_swap.unwrap_or(defaults.use_mlock),
    }
}

/// The room a token buffer needs for a text of `text_len` bytes: one slot
/// per byte, and one more for a beginning-of-sentence token. `None` when
/// the engine's `int` count cannot hold it.
pub fn token_buffer_len(text_len: usize, add_bos: bool) -> (r: Option<i32>)
    ensures
        ({
            let n = text_len + (if add_bos { 1int } else { 0int });
            &&& n <= i32::MAX ==> r == Some(n as i32)
            &&& n > i32::MAX ==> r is None
        }),
{
    let extra: usize = if add_bos { 1 } else { 0 };
    if text_len > (i32::MAX as usize) - extra {
        None
    } else {
        Some((text_len + extra) as i32)
    }
}

} // verus!
