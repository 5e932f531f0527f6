use llama_sidecar::config::{
    build_server_args, find_arg_value, get_config_by_model_size, get_model_path_by_size,
    get_platform_binary_name, model_size_from_str, model_size_label, sidecar_file_name, Difficulty,
    LlamaConfig, ModelSize,
};
use llama_sidecar::numfmt::{format_i32, format_tenths, format_u32, parse_u32, scale_decimal_1000};
use llama_sidecar::paths::{get_database_path, get_models_dir};

#[test]
fn config_roundtrips_through_launch_arguments() {
    let config = LlamaConfig {
        model_path: "/tmp/model.gguf".to_string(),
        context_size: 4096,
        batch_size: 512,
        gpu_layers: -1,
        use_flash_attn: true,
        threads: 8,
        port: 8080,
        temp: 7,
        repeat_penalty: 11,
    };
    let args = build_server_args(&config);
    // the list pairs each flag with exactly the configured value
    let port_text = find_arg_value(&args, "--port").expect("--port is present");
    assert_eq!(port_text, "8080");
    let ctx_text = find_arg_value(&args, "--ctx-size").expect("--ctx-size is present");
    assert_eq!(ctx_text, "4096");
    let threads_text = find_arg_value(&args, "--threads").expect("--threads is present");
    assert_eq!(threads_text, "8");
    // reading the values back recovers the same integers
    assert_eq!(parse_u32(&port_text), Some(8080));
    assert_eq!(parse_u32(&ctx_text), Some(4096));
    assert_eq!(parse_u32(&threads_text), Some(8));
}

#[test]
fn server_args_full_list() {
    let config = LlamaConfig {
        model_path: "m.gguf".to_string(),
        context_size: 2048,
        batch_size: 256,
        gpu_layers: -1,
        use_flash_attn: true,
        threads: 4,
        port: 9000,
        temp: 6,
        repeat_penalty: 11,
    };
    let args = build_server_args(&config);
    let expected: Vec<&str> = vec![
        "--model",
        "m.gguf",
        "--host",
        "127.0.0.1",
        "--port",
        "9000",
        "--ctx-size",
        "2048",
        "--batch-size",
        "256",
        "--n-gpu-layers",
        "-1",
        "--threads",
        "4",
        "--temp",
        "0.6",
        "--repeat-penalty",
        "1.1",
        "--no-mmap",
        "--flash-attn",
    ];
    assert_eq!(args, expected);
}

#[test]
fn flash_attention_flag_is_optional() {
    let mut config = get_config_by_model_size(ModelSize::Large, 8080);
    config.use_flash_attn = false;
    let args = build_server_args(&config);
    assert!(!args.iter().any(|a| a == "--flash-attn"));
    assert_eq!(args.last().map(|s| s.as_str()), Some("--no-mmap"));
}

#[test]
fn decimal_formatting_exact_values() {
    assert_eq!(format_u32(0), "0");
    assert_eq!(format_u32(8080), "8080");
    assert_eq!(format_u32(u32::MAX), "4294967295");
    assert_eq!(format_i32(-1), "-1");
    assert_eq!(format_i32(0), "0");
    assert_eq!(format_i32(i32::MIN), "-2147483648");
    assert_eq!(format_tenths(7), "0.7");
    assert_eq!(format_tenths(11), "1.1");
    assert_eq!(format_tenths(6), "0.6");
    assert_eq!(format_tenths(105), "10.5");
}

#[test]
fn decimal_parsing_exact_values() {
    assert_eq!(parse_u32("0"), Some(0));
    assert_eq!(parse_u32("007"), Some(7));
    assert_eq!(parse_u32("4294967295"), Some(u32::MAX));
    assert_eq!(parse_u32("4294967296"), None, "one past the maximum");
    assert_eq!(parse_u32(""), None);
    assert_eq!(parse_u32("12a"), None);
    assert_eq!(parse_u32("-3"), None);
}

#[test]
fn timing_scaling_exact_values() {
    assert_eq!(scale_decimal_1000("34.56"), 34560);
    assert_eq!(scale_decimal_1000("0.5"), 500);
    assert_eq!(scale_decimal_1000("7"), 7000);
    assert_eq!(scale_decimal_1000("0.1234"), 123, "truncated, not rounded");
    assert_eq!(scale_decimal_1000("0"), 0);
    assert_eq!(scale_decimal_1000("9999999999"), u32::MAX, "saturates");
    assert_eq!(scale_decimal_1000("-1"), 0, "no negative estimates");
    assert_eq!(scale_decimal_1000("nonsense"), 0);
    assert_eq!(scale_decimal_1000(""), 0);
    assert_eq!(scale_decimal_1000("1."), 0, "not a plain decimal");
    assert_eq!(scale_decimal_1000(".5"), 0, "not a plain decimal");
}

#[test]
fn model_size_presets() {
    let small = get_config_by_model_size(ModelSize::Small, 8081);
    assert_eq!(small.context_size, 2048);
    assert_eq!(small.batch_size, 256);
    assert_eq!(small.threads, 4);
    assert_eq!(small.temp, 6);
    assert_eq!(small.port, 8081);
    let medium = get_config_by_model_size(ModelSize::Medium, 8082);
    assert_eq!(medium.context_size, 4096);
    assert_eq!(medium.threads, 6);
    assert_eq!(medium.temp, 7);
    let large = get_config_by_model_size(ModelSize::Large, 8083);
    assert_eq!(large.threads, 8);
    assert_eq!(large.repeat_penalty, 11);
}

#[test]
fn model_paths_by_size() {
    let base = "/data/app";
    assert_eq!(
        get_model_path_by_size(base, ModelSize::Small),
        "/data/app/models/qwen2.5-1.5b-instruct.Q4_K_M.gguf"
    );
    assert_eq!(
        get_model_path_by_size(base, ModelSize::Medium),
        "/data/app/models/llama3.2-3b-instruct.Q4_K_M.gguf"
    );
    assert_eq!(
        get_model_path_by_size(base, ModelSize::Large),
        "/data/app/models/llama3.1-8b-instruct.Q4_K_M.gguf"
    );
}

#[test]
fn model_size_labels_roundtrip() {
    assert_eq!(model_size_from_str("small"), ModelSize::Small);
    assert_eq!(model_size_from_str("medium"), ModelSize::Medium);
    assert_eq!(model_size_from_str("large"), ModelSize::Large);
    assert_eq!(model_size_from_str("huge"), ModelSize::Medium, "unknown labels default");
    assert_eq!(model_size_label(Some(ModelSize::Small)), "small");
    assert_eq!(model_size_label(Some(ModelSize::Medium)), "medium");
    assert_eq!(model_size_label(Some(ModelSize::Large)), "large");
    assert_eq!(model_size_label(None), "unknown");
}

#[test]
fn platform_binary_names() {
    assert_eq!(
        get_platform_binary_name("macos", "aarch64"),
        "llama-server-aarch64-apple-darwin"
    );
    assert_eq!(
        get_platform_binary_name("windows", "x86_64"),
        "llama-server-x86_64-pc-windows-msvc.exe"
    );
    assert_eq!(
        get_platform_binary_name("linux", "x86_64"),
        "llama-server-x86_64-unknown-linux-gnu"
    );
    assert_eq!(get_platform_binary_name("plan9", "mips"), "llama-server");
    assert_eq!(
        sidecar_file_name("llama-server", "linux", "x86_64"),
        "llama-server-linux-x86_64"
    );
    assert_eq!(
        sidecar_file_name("llama-server", "windows", "x86_64"),
        "llama-server-windows-x86_64.exe"
    );
}

#[test]
fn difficulty_levels() {
    assert_eq!(Difficulty::Easy.level(), 1);
    assert_eq!(Difficulty::Medium.level(), 2);
    assert_eq!(Difficulty::Hard.level(), 3);
}

#[test]
fn well_known_paths() {
    assert_eq!(get_database_path("/data/app"), "/data/app/shuati.db");
    assert_eq!(get_models_dir("/data/app"), "/data/app/models");
}

#[test]
fn default_configuration() {
    let c = LlamaConfig::default();
    assert_eq!(c.model_path, "");
    assert_eq!(c.context_size, 4096);
    assert_eq!(c.batch_size, 512);
    assert_eq!(c.gpu_layers, -1);
    assert!(c.use_flash_attn);
    assert_eq!(c.threads, 8);
    assert_eq!(c.port, 8080);
    assert_eq!(c.temp, 7);
    assert_eq!(c.repeat_penalty, 11);
}

#[test]
fn missing_flag_lookup_fails() {
    let args = build_server_args(&LlamaConfig::default());
    assert_eq!(find_arg_value(&args, "--nonexistent"), None);
    assert_eq!(find_arg_value(&Vec::new(), "--port"), None);
}

#[test]
fn config_duplicate_is_exact() {
    let mut config = LlamaConfig::default();
    config.model_path = "/m.gguf".to_string();
    config.port = 7777;
    let copy = config.duplicate();
    assert_eq!(copy.model_path, "/m.gguf");
    assert_eq!(copy.port, 7777);
    assert_eq!(copy.context_size, config.context_size);
}
