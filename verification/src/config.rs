//! Sidecar configuration, model-size presets, and the launch-argument list
//! derived from a configuration.
//!
//! Fractional tuning knobs (sampling temperature, repeat penalty) are held in
//! tenths as integers, so `temp == 7` renders as `0.7` on the command line
//! and on the wire.

use vstd::prelude::*;
use crate::numfmt::{
    spec_dec, spec_dec_int, spec_tenths, spec_parse_u32, format_u32, format_i32, format_tenths,
    lemma_format_parse_roundtrip,
};
use crate::strutil::str_eq;

verus! {

/// Size class of the model the sidecar serves.
#[derive(Debug, Clone, Copy, PartialEq, Eq, Structural)]
pub enum ModelSize {
    Small,
    Medium,
    Large,
}

/// Difficulty of a question, as the prompt builders grade it.
#[derive(Debug, Clone, Copy, PartialEq, Eq, Structural)]
pub enum Difficulty {
    Easy,
    Medium,
    Hard,
}

impl Difficulty {
    /// The numeric level the prompt builders expect: 1, 2 or 3.
    pub fn level(&self) -> (r: u32)
        ensures
            r == match *self {
                Difficulty::Easy => 1u32,
                Difficulty::Medium => 2u32,
                Difficulty::Hard => 3u32,
            },
    {
        match *self {
            Difficulty::Easy => 1,
            Difficulty::Medium => 2,
            Difficulty::Hard => 3,
        }
    }
}

/// Immutable configuration of one sidecar process.  Replaced wholesale;
/// never partially mutated while a process is active.
#[derive(Debug, Clone)]
pub struct LlamaConfig {
    pub model_path: String,
    pub context_size: u32,
    pub batch_size: u32,
    /// GPU layer count handed to the binary; -1 offloads every layer.
    pub gpu_layers: i32,
    pub use_flash_attn: bool,
    pub threads: u32,
    pub port: u16,
    /// Sampling temperature in tenths (7 means 0.7).
    pub temp: u32,
    /// Repeat penalty in tenths (11 means 1.1).
    pub repeat_penalty: u32,
}

impl LlamaConfig {
    /// An exact copy, field by field.
    pub fn duplicate(&self) -> (r: LlamaConfig)
        ensures
            r == *self,
    {
        LlamaConfig {
            model_path: self.model_path.clone(),
            context_size: self.context_size,
            batch_size: self.batch_size,
            gpu_layers: self.gpu_layers,
            use_flash_attn: self.use_flash_attn,
            threads: self.threads,
            port: self.port,
            temp: self.temp,
            repeat_penalty: self.repeat_penalty,
        }
    }
}

impl Default for LlamaConfig {
    /// The stock configuration: 4096 context, 512 batch, full GPU offload,
    /// flash attention, 8 threads, port 8080, temperature 0.7, penalty 1.1.
    fn default() -> (r: LlamaConfig)
        ensures
            r.model_path@ == Seq::<char>::empty(),
            r.context_size == 4096,
            r.batch_size == 512,
            r.gpu_layers == -1,
            r.use_flash_attn == true,
            r.threads == 8,
            r.port == 8080,
            r.temp == 7,
            r.repeat_penalty == 11,
    {
        LlamaConfig {
            model_path: String::new(),
            context_size: 4096,
            batch_size: 512,
            gpu_layers: -1,
            use_flash_attn: true,
            threads: 8,
            port: 8080,
            temp: 7,
            repeat_penalty: 11,
        }
    }
}

/// The recommended configuration for a model size: the small model runs
/// with a halved context, batch and thread count and a cooler temperature;
/// the medium model with six threads; the large model with the stock
/// settings.  The model path is filled in at start time.
pub fn get_config_by_model_size(size: ModelSize, port: u16) -> (r: LlamaConfig)
    ensures
        r.model_path@ == Seq::<char>::empty(),
        r.gpu_layers == -1,
        r.use_flash_attn == true,
        r.port == port,
        r.repeat_penalty == 11,
        size == ModelSize::Small ==> r.context_size == 2048 && r.batch_size == 256 && r.threads == 4
            && r.temp == 6,
        size == ModelSize::Medium ==> r.context_size == 4096 && r.batch_size == 512 && r.threads
            == 6 && r.temp == 7,
        size == ModelSize::Large ==> r.context_size == 4096 && r.batch_size == 512 && r.threads == 8
            && r.temp == 7,
{
    match size {
        ModelSize::Small => LlamaConfig {
            model_path: String::new(),
            context_size: 2048,
            batch_size: 256,
            gpu_layers: -1,
            use_flash_attn: true,
            threads: 4,
            port,
            temp: 6,
            repeat_penalty: 11,
        },
        ModelSize::Medium => LlamaConfig {
            model_path: String::new(),
            context_size: 4096,
            batch_size: 512,
            gpu_layers: -1,
            use_flash_attn: true,
            threads: 6,
            port,
            temp: 7,
            repeat_penalty: 11,
        },
        ModelSize::Large => LlamaConfig {
            model_path: String::new(),
            context_size: 4096,
            batch_size: 512,
            gpu_layers: -1,
            use_flash_attn: true,
            threads: 8,
            port,
            temp: 7,
            repeat_penalty: 11,
        },
    }
}

/// The model file under a base directory for a model size.
pub fn get_model_path_by_size(base_dir: &str, size: ModelSize) -> (r: String)
    ensures
        size == ModelSize::Small ==> r@ == base_dir@
            + "/models/qwen2.5-1.5b-instruct.Q4_K_M.gguf"@,
        size == ModelSize::Medium ==> r@ == base_dir@
            + "/models/llama3.2-3b-instruct.Q4_K_M.gguf"@,
        size == ModelSize::Large ==> r@ == base_dir@
            + "/models/llama3.1-8b-instruct.Q4_K_M.gguf"@,
{
    let mut s = String::from_str(base_dir);
    match size {
        ModelSize::Small => s.append("/models/qwen2.5-1.5b-instruct.Q4_K_M.gguf"),
        ModelSize::Medium => s.append("/models/llama3.2-3b-instruct.Q4_K_M.gguf"),
        ModelSize::Large => s.append("/models/llama3.1-8b-instruct.Q4_K_M.gguf"),
    }
    s
}

/// The size a textual label names; anything unknown counts as medium.
pub open spec fn spec_model_size_from_str(s: Seq<char>) -> ModelSize {
    if s == "small"@ {
        ModelSize::Small
    } else if s == "large"@ {
        ModelSize::Large
    } else {
        ModelSize::Medium
    }
}

/// Reads a model size from its textual label; anything unknown counts as
/// medium.
pub fn model_size_from_str(s: &str) -> (r: ModelSize)
    ensures
        r == spec_model_size_from_str(s@),
{
    if str_eq(s, "small") {
        ModelSize::Small
    } else if str_eq(s, "large") {
        ModelSize::Large
    } else {
        ModelSize::Medium
    }
}

/// The textual label of a possibly unknown model size.
pub open spec fn spec_model_size_label(size: Option<ModelSize>) -> Seq<char> {
    match size {
        Some(ModelSize::Small) => "small"@,
        Some(ModelSize::Medium) => "medium"@,
        Some(ModelSize::Large) => "large"@,
        None => "unknown"@,
    }
}

/// Renders the textual label of a possibly unknown model size.
pub fn model_size_label(size: Option<ModelSize>) -> (r: String)
    ensures
        r@ == spec_model_size_label(size),
{
    match size {
        Some(ModelSize::Small) => String::from_str("small"),
        Some(ModelSize::Medium) => String::from_str("medium"),
        Some(ModelSize::Large) => String::from_str("large"),
        None => String::from_str("unknown"),
    }
}

/// The platform-specific sidecar binary name for an operating system and
/// architecture pair; unknown pairs fall back to the bare name.
pub open spec fn spec_platform_binary_name(os: Seq<char>, arch: Seq<char>) -> Seq<char> {
    if os == "macos"@ && arch == "aarch64"@ {
        "llama-server-aarch64-apple-darwin"@
    } else if os == "macos"@ && arch == "x86_64"@ {
        "llama-server-x86_64-apple-darwin"@
    } else if os == "windows"@ && arch == "x86_64"@ {
        "llama-server-x86_64-pc-windows-msvc.exe"@
    } else if os == "linux"@ && arch == "x86_64"@ {
        "llama-server-x86_64-unknown-linux-gnu"@
    } else if os == "linux"@ && arch == "aarch64"@ {
        "llama-server-aarch64-unknown-linux-gnu"@
    } else {
        "llama-server"@
    }
}

/// The platform-specific sidecar binary name for an operating system and
/// architecture pair (the caller reads both from its build environment).
pub fn get_platform_binary_name(os: &str, arch: &str) -> (r: &'static str)
    ensures
        r@ == spec_platform_binary_name(os@, arch@),
{
    let is_x86 = str_eq(arch, "x86_64");
    let is_arm = str_eq(arch, "aarch64");
    if str_eq(os, "macos") && is_arm {
        "llama-server-aarch64-apple-darwin"
    } else if str_eq(os, "macos") && is_x86 {
        "llama-server-x86_64-apple-darwin"
    } else if str_eq(os, "windows") && is_x86 {
        "llama-server-x86_64-pc-windows-msvc.exe"
    } else if str_eq(os, "linux") && is_x86 {
        "llama-server-x86_64-unknown-linux-gnu"
    } else if str_eq(os, "linux") && is_arm {
        "llama-server-aarch64-unknown-linux-gnu"
    } else {
        "llama-server"
    }
}

/// The file name of a sidecar binary in the resource tree:
/// `name-os-arch`, with the executable suffix on Windows.
pub fn sidecar_file_name(binary_name: &str, os: &str, arch: &str) -> (r: String)
    ensures
        os@ == "windows"@ ==> r@ == binary_name@ + "-"@ + os@ + "-"@ + arch@ + ".exe"@,
        os@ != "windows"@ ==> r@ == binary_name@ + "-"@ + os@ + "-"@ + arch@,
{
    let mut s = String::from_str(binary_name);
    s.append("-");
    s.append(os);
    s.append("-");
    s.append(arch);
    if str_eq(os, "windows") {
        s.append(".exe");
    }
    s
}

/// The launch-argument list derived from a configuration: flag/value pairs
/// for model path, loopback host, port, context size, batch size, GPU layer
/// count, thread count, temperature and repeat penalty, the flag disabling
/// memory-mapped loading, and optionally the flash-attention flag.
pub open spec fn spec_server_args(c: LlamaConfig) -> Seq<Seq<char>> {
    let base = seq![
        "--model"@,
        c.model_path@,
        "--host"@,
        "127.0.0.1"@,
        "--port"@,
        spec_dec(c.port as nat),
        "--ctx-size"@,
        spec_dec(c.context_size as nat),
        "--batch-size"@,
        spec_dec(c.batch_size as nat),
        "--n-gpu-layers"@,
        spec_dec_int(c.gpu_layers as int),
        "--threads"@,
        spec_dec(c.threads as nat),
        "--temp"@,
        spec_tenths(c.temp as nat),
        "--repeat-penalty"@,
        spec_tenths(c.repeat_penalty as nat),
        "--no-mmap"@,
    ];
    if c.use_flash_attn {
        base.push("--flash-attn"@)
    } else {
        base
    }
}

/// Builds the launch arguments for the sidecar binary.
pub fn build_server_args(config: &LlamaConfig) -> (r: Vec<String>)
    ensures
        r.deep_view() == spec_server_args(*config),
{
    let mut args: Vec<String> = Vec::new();
    args.push(String::from_str("--model"));
    args.push(config.model_path.clone());
    args.push(String::from_str("--host"));
    args.push(String::from_str("127.0.0.1"));
    args.push(String::from_str("--port"));
    args.push(format_u32(config.port as u32));
    args.push(String::from_str("--ctx-size"));
    args.push(format_u32(config.context_size));
    args.push(String::from_str("--batch-size"));
    args.push(format_u32(config.batch_size));
    args.push(String::from_str("--n-gpu-layers"));
    args.push(format_i32(config.gpu_layers));
    args.push(String::from_str("--threads"));
    args.push(format_u32(config.threads));
    args.push(String::from_str("--temp"));
    args.push(format_tenths(config.temp));
    args.push(String::from_str("--repeat-penalty"));
    args.push(format_tenths(config.repeat_penalty));
    args.push(String::from_str("--no-mmap"));
    if config.use_flash_attn {
        args.push(String::from_str("--flash-attn"));
    }
    proof {
        assert(args.deep_view() =~= spec_server_args(*config));
    }
    args
}

/// The value paired with `flag` in a flag/value argument list, read in
/// pairs: the entry after the first pair position holding `flag`.
pub open spec fn spec_arg_value(args: Seq<Seq<char>>, flag: Seq<char>) -> Option<Seq<char>>
    decreases args.len(),
{
    if args.len() < 2 {
        None
    } else if args[0] == flag {
        Some(args[1])
    } else {
        spec_arg_value(args.skip(2), flag)
    }
}

/// Looks up the value paired with `flag` in a flag/value argument list.
pub fn find_arg_value(args: &Vec<String>, flag: &str) -> (r: Option<String>)
    ensures
        match r {
            Some(v) => spec_arg_value(args.deep_view(), flag@) == Some(v@),
            None => spec_arg_value(args.deep_view(), flag@) is None,
        },
{
    let n = args.len();
    let mut i: usize = 0;
    proof {
        assert(args.deep_view().skip(0) =~= args.deep_view());
    }
    while i < n && i + 1 < n
        invariant
            n == args.len(),
            0 <= i,
            i <= n,
            spec_arg_value(args.deep_view(), flag@) == spec_arg_value(
                args.deep_view().skip(i as int),
                flag@,
            ),
        decreases n - i,
    {
        proof {
            assert(args.deep_view().skip(i as int).len() >= 2);
            assert(args.deep_view().skip(i as int)[0] == args.deep_view()[i as int]);
        }
        if str_eq(args[i].as_str(), flag) {
            let v = args[i + 1].clone();
            proof {
                assert(args.deep_view().skip(i as int)[1] == args.deep_view()[i as int + 1]);
            }
            return Some(v);
        }
        proof {
            assert(args.deep_view().skip(i as int).skip(2) =~= args.deep_view().skip(
                i as int + 2,
            ));
        }
        i = i + 2;
    }
    proof {
        assert(args.deep_view().skip(i as int).len() < 2);
    }
    None
}

/// Pair lookup resolves at pair `k` when `flag` first appears there.
proof fn lemma_arg_value_at(args: Seq<Seq<char>>, flag: Seq<char>, k: int)
    requires
        0 <= k,
        2 * k + 1 < args.len(),
        forall|j: int| 0 <= j < 2 * k && j % 2 == 0 ==> #[trigger] args[j] != flag,
        args[2 * k] == flag,
    ensures
        spec_arg_value(args, flag) == Some(args[2 * k + 1]),
    decreases k,
{
    if k == 0 {
    } else {
        assert(args[0] != flag);
        assert forall|j: int| 0 <= j < 2 * (k - 1) && j % 2 == 0 implies #[trigger] args.skip(2)[j]
            != flag by {
            assert(args.skip(2)[j] == args[j + 2]);
            assert(args[j + 2] != flag);
        }
        assert(args.skip(2)[2 * (k - 1)] == args[2 * k]);
        assert(args.skip(2)[2 * (k - 1) + 1] == args[2 * k + 1]);
        lemma_arg_value_at(args.skip(2), flag, k - 1);
    }
}

/// The flag names at the pair positions before `--threads` are pairwise
/// distinct from the later flag names looked up by the round-trip law.
proof fn lemma_flag_distinct()
    ensures
        "--model"@ != "--port"@ && "--host"@ != "--port"@,
        "--model"@ != "--ctx-size"@ && "--host"@ != "--ctx-size"@ && "--port"@ != "--ctx-size"@,
        "--model"@ != "--batch-size"@ && "--host"@ != "--batch-size"@ && "--port"@
            != "--batch-size"@ && "--ctx-size"@ != "--batch-size"@,
        "--model"@ != "--threads"@ && "--host"@ != "--threads"@ && "--port"@ != "--threads"@
            && "--ctx-size"@ != "--threads"@ && "--batch-size"@ != "--threads"@
            && "--n-gpu-layers"@ != "--threads"@,
{
    reveal_strlit("--model");
    reveal_strlit("--host");
    reveal_strlit("--port");
    reveal_strlit("--ctx-size");
    reveal_strlit("--batch-size");
    reveal_strlit("--n-gpu-layers");
    reveal_strlit("--threads");
    assert("--model"@.len() == 7);
    assert("--host"@.len() == 6);
    assert("--port"@.len() == 6);
    assert("--ctx-size"@.len() == 10);
    assert("--batch-size"@.len() == 12);
    assert("--n-gpu-layers"@.len() == 14);
    assert("--threads"@.len() == 9);
    assert("--host"@[2] == 'h' && "--port"@[2] == 'p');
}

/// Launch arguments round-trip: the list built from a configuration pairs
/// `--port`, `--ctx-size`, `--batch-size` and `--threads` with the decimal
/// renderings of exactly the configured integers, and parsing those
/// renderings back recovers the same integers.
pub proof fn lemma_config_args_roundtrip(c: LlamaConfig)
    ensures
        spec_arg_value(spec_server_args(c), "--port"@) == Some(spec_dec(c.port as nat)),
        spec_arg_value(spec_server_args(c), "--ctx-size"@) == Some(
            spec_dec(c.context_size as nat),
        ),
        spec_arg_value(spec_server_args(c), "--batch-size"@) == Some(spec_dec(c.batch_size as nat)),
        spec_arg_value(spec_server_args(c), "--threads"@) == Some(spec_dec(c.threads as nat)),
        spec_parse_u32(spec_dec(c.port as nat)) == Some(c.port as u32),
        spec_parse_u32(spec_dec(c.context_size as nat)) == Some(c.context_size),
        spec_parse_u32(spec_dec(c.batch_size as nat)) == Some(c.batch_size),
        spec_parse_u32(spec_dec(c.threads as nat)) == Some(c.threads),
{
    lemma_flag_distinct();
    let args = spec_server_args(c);
    assert(args[0] == "--model"@ && args[2] == "--host"@ && args[4] == "--port"@ && args[6]
        == "--ctx-size"@ && args[8] == "--batch-size"@ && args[10] == "--n-gpu-layers"@ && args[12]
        == "--threads"@);
    assert(args[5] == spec_dec(c.port as nat) && args[7] == spec_dec(c.context_size as nat)
        && args[9] == spec_dec(c.batch_size as nat) && args[13] == spec_dec(c.threads as nat));
    assert forall|j: int| 0 <= j < 4 && j % 2 == 0 implies #[trigger] args[j] != "--port"@ by {
        assert(args[0] == "--model"@ && args[2] == "--host"@);
    }
    lemma_arg_value_at(args, "--port"@, 2);
    assert forall|j: int| 0 <= j < 6 && j % 2 == 0 implies #[trigger] args[j] != "--ctx-size"@ by {
        assert(args[0] == "--model"@ && args[2] == "--host"@ && args[4] == "--port"@);
    }
    lemma_arg_value_at(args, "--ctx-size"@, 3);
    assert forall|j: int| 0 <= j < 8 && j % 2 == 0 implies #[trigger] args[j] != "--batch-size"@ by {
        assert(args[0] == "--model"@ && args[2] == "--host"@ && args[4] == "--port"@ && args[6]
            == "--ctx-size"@);
    }
    lemma_arg_value_at(args, "--batch-size"@, 4);
    assert forall|j: int| 0 <= j < 12 && j % 2 == 0 implies #[trigger] args[j] != "--threads"@ by {
        assert(args[0] == "--model"@ && args[2] == "--host"@ && args[4] == "--port"@ && args[6]
            == "--ctx-size"@ && args[8] == "--batch-size"@ && args[10] == "--n-gpu-layers"@);
    }
    lemma_arg_value_at(args, "--threads"@, 6);
    lemma_format_parse_roundtrip(c.port as u32);
    lemma_format_parse_roundtrip(c.context_size);
    lemma_format_parse_roundtrip(c.batch_size);
    lemma_format_parse_roundtrip(c.threads);
    assert(c.port as u32 as nat == c.port as nat);
}

} // verus!
