use model_manager::params::{engine_params, token_buffer_len, EngineParams, LoadOptions};

fn defaults() -> EngineParams {
    EngineParams { n_ctx: 512, n_gpu_layers: 0, seed: -1, f16_kv: true, use_mmap: true, use_mlock: false }
}

#[test]
fn no_options_keep_defaults() {
    let o = LoadOptions {
        context_size: None,
        gpu_offload: None,
        seed: None,
        kv_in_f16: None,
        pin_memory: None,
        no_swap: None,
    };
    assert_eq!(engine_params(&o, defaults()), defaults());
}

#[test]
fn options_override_defaults() {
    let o = LoadOptions {
        context_size: Some(2048),
        gpu_offload: Some(12),
        seed: Some(7),
        kv_in_f16: Some(false),
        pin_memory: None,
        no_swap: Some(true),
    };
    let p = engine_params(&o, defaults());
    assert_eq!(
        p,
        EngineParams { n_ctx: 2048, n_gpu_layers: 12, seed: 7, f16_kv: false, use_mmap: true, use_mlock: true }
    );
}

#[test]
fn token_buffer_sizes() {
    assert_eq!(token_buffer_len(10, false), Some(10));
    assert_eq!(token_buffer_len(10, true), Some(11));
    assert_eq!(token_buffer_len(0, true), Some(1));
    assert_eq!(token_buffer_len(i32::MAX as usize, false), Some(i32::MAX));
    assert_eq!(token_buffer_len(i32::MAX as usize, true), None);
}
