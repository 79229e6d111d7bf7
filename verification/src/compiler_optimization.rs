//! Compiler-level performance configuration.
//!
//! Builds the flag set, environment and cargo profile for a
//! latency-oriented release build, from an explicit description of the
//! optimization choices: optimization level, link-time optimization,
//! target features, code model, inlining strategy.

use vstd::prelude::*;
use vstd::string::StringExecFns;
use crate::text::{join_with, spec_dec_chars, spec_joined_with, u64_to_dec_string};

verus! {

/// Optimization level choices.
#[derive(Clone, Copy, Debug, PartialEq, Eq, Structural)]
pub enum OptLevel {
    NoOpt,
    Less,
    Standard,
    Aggressive,
    Size,
    SizeZ,
}

/// Code model choices.
#[derive(Clone, Copy, Debug, PartialEq, Eq, Structural)]
pub enum CodeModel {
    Small,
    Kernel,
    Medium,
    Large,
}

impl CodeModel {
    /// The flag spelling of this code model.
    pub open spec fn spec_name(self) -> Seq<char> {
        match self {
            CodeModel::Small => "small"@,
            CodeModel::Kernel => "kernel"@,
            CodeModel::Medium => "medium"@,
            CodeModel::Large => "large"@,
        }
    }

    /// The flag spelling of this code model.
    pub fn name(&self) -> (r: &'static str)
        ensures
            r@ == self.spec_name(),
    {
        match self {
            CodeModel::Small => "small",
            CodeModel::Kernel => "kernel",
            CodeModel::Medium => "medium",
            CodeModel::Large => "large",
        }
    }
}

/// The compiler flags to optimize under.
#[derive(Debug)]
pub struct OptimizationFlags {
    pub opt_level: OptLevel,
    pub enable_lto: bool,
    pub enable_pgo: bool,
    pub target_cpu: String,
    pub target_features: Vec<String>,
    pub code_model: CodeModel,
    pub debug_info: bool,
    pub incremental: bool,
    pub codegen_units: Option<usize>,
}

impl OptimizationFlags {
    /// The most aggressive settings: fat LTO, the native CPU, the vector
    /// and bit-manipulation feature set, one codegen unit.
    pub fn ultra_performance() -> (r: Self)
        ensures
            r.opt_level == OptLevel::Aggressive,
            r.enable_lto,
            !r.enable_pgo,
            r.target_cpu@ == "native"@,
            r.target_features@.len() == 8,
            r.target_features@.map_values(|s: String| s@) == seq![
                "+sse4.2"@,
                "+avx"@,
                "+avx2"@,
                "+fma"@,
                "+bmi1"@,
                "+bmi2"@,
                "+lzcnt"@,
                "+popcnt"@,
            ],
            r.code_model == CodeModel::Small,
            !r.debug_info,
            !r.incremental,
            r.codegen_units == Some(1usize),
    {
        let mut target_features: Vec<String> = Vec::new();
        target_features.push("+sse4.2".to_owned());
        target_features.push("+avx".to_owned());
        target_features.push("+avx2".to_owned());
        target_features.push("+fma".to_owned());
        target_features.push("+bmi1".to_owned());
        target_features.push("+bmi2".to_owned());
        target_features.push("+lzcnt".to_owned());
        target_features.push("+popcnt".to_owned());
        proof {
            assert(target_features@.map_values(|s: String| s@) =~= seq![
                "+sse4.2"@,
                "+avx"@,
                "+avx2"@,
                "+fma"@,
                "+bmi1"@,
                "+bmi2"@,
                "+lzcnt"@,
                "+popcnt"@,
            ]);
        }
        OptimizationFlags {
            opt_level: OptLevel::Aggressive,
            enable_lto: true,
            enable_pgo: false,
            target_cpu: "native".to_owned(),
            target_features,
            code_model: CodeModel::Small,
            debug_info: false,
            incremental: false,
            codegen_units: Some(1),
        }
    }
}

/// Code generation configuration.
#[derive(Clone, Debug)]
pub struct CodegenConfig {
    pub panic_abort: bool,
    pub overflow_checks: bool,
    pub fat_lto: bool,
    pub enable_simd: bool,
    pub enable_vectorization: bool,
    pub enable_loop_unrolling: bool,
    pub max_unroll_count: usize,
    pub enable_branch_prediction: bool,
}

impl CodegenConfig {
    /// The most aggressive settings: abort on panic, no overflow checks,
    /// every vectorization knob on.
    pub fn ultra_performance() -> (r: Self)
        ensures
            r.panic_abort,
            !r.overflow_checks,
            r.fat_lto,
            r.enable_simd,
            r.enable_vectorization,
            r.enable_loop_unrolling,
            r.max_unroll_count == 16,
            r.enable_branch_prediction,
    {
        CodegenConfig {
            panic_abort: true,
            overflow_checks: false,
            fat_lto: true,
            enable_simd: true,
            enable_vectorization: true,
            enable_loop_unrolling: true,
            max_unroll_count: 16,
            enable_branch_prediction: true,
        }
    }
}

/// Inlining strategy.
#[derive(Clone, Debug)]
pub struct InlineStrategy {
    pub inline_threshold: usize,
    pub force_inline_hot_paths: bool,
    pub no_inline_cold_paths: bool,
    pub cross_crate_inline: bool,
}

impl InlineStrategy {
    /// Aggressive inlining: a high threshold and cross-crate inlining.
    pub fn aggressive() -> (r: Self)
        ensures
            r.inline_threshold == 1000,
            r.force_inline_hot_paths,
            r.no_inline_cold_paths,
            r.cross_crate_inline,
    {
        InlineStrategy {
            inline_threshold: 1000,
            force_inline_hot_paths: true,
            no_inline_cold_paths: true,
            cross_crate_inline: true,
        }
    }
}

/// Counters of the optimizations applied.
#[derive(Debug)]
pub struct CompilerOptimizationStats {
    pub inlined_functions: u64,
    pub constant_folding: u64,
    pub dead_code_elimination: u64,
    pub loop_optimizations: u64,
}

impl Default for CompilerOptimizationStats {
    /// Fresh counters, all zero.
    fn default() -> (r: Self)
        ensures
            r.inlined_functions == 0,
            r.constant_folding == 0,
            r.dead_code_elimination == 0,
            r.loop_optimizations == 0,
    {
        CompilerOptimizationStats {
            inlined_functions: 0,
            constant_folding: 0,
            dead_code_elimination: 0,
            loop_optimizations: 0,
        }
    }
}

/// Release profile settings for the cargo manifest.
#[derive(Clone, Debug)]
pub struct ProfileConfig {
    pub opt_level: u8,
    pub lto: bool,
    pub codegen_units: usize,
    pub panic: String,
    pub overflow_checks: bool,
    pub debug: bool,
    pub debug_assertions: bool,
    pub rpath: bool,
    pub strip: bool,
}

/// Cargo configuration: the release profile.
#[derive(Clone, Debug)]
pub struct CargoConfig {
    pub profile_release: ProfileConfig,
}

/// A generated compiler configuration: the flags, the environment, and the
/// cargo profile.
#[derive(Debug)]
pub struct CompilerConfig {
    pub rustflags: Vec<String>,
    pub env_vars: Vec<(String, String)>,
    pub cargo_config: CargoConfig,
}

/// Compiler optimization configurator.
pub struct CompilerOptimizer {
    /// Optimization flag configuration.
    pub optimization_flags: OptimizationFlags,
    /// Code generation configuration.
    pub codegen_config: CodegenConfig,
    /// Inlining strategy.
    pub inline_strategy: InlineStrategy,
    /// Counters of the optimizations applied.
    pub stats: CompilerOptimizationStats,
}

/// The views of a string list.
pub open spec fn string_views(v: Seq<String>) -> Seq<Seq<char>> {
    v.map_values(|s: String| s@)
}

/// The flag list a configuration generates, in order: the base
/// optimization level; LTO, CPU, features and code model as configured;
/// panic, overflow, codegen-unit and inline-threshold settings; and the
/// fixed size and debug-info trimmings.
pub open spec fn spec_rustflags(
    flags: &OptimizationFlags,
    codegen: &CodegenConfig,
    inline: &InlineStrategy,
) -> Seq<Seq<char>> {
    seq!["-C"@, "opt-level=3"@] + (if flags.enable_lto {
        seq!["-C"@, "lto=fat"@]
    } else {
        Seq::empty()
    }) + (if flags.target_cpu@.len() > 0 {
        seq!["-C"@, "target-cpu="@ + flags.target_cpu@]
    } else {
        Seq::empty()
    }) + (if flags.target_features@.len() > 0 {
        seq![
            "-C"@,
            "target-feature="@ + spec_joined_with(
                flags.target_features@.map_values(|s: String| s@),
                ","@,
            ),
        ]
    } else {
        Seq::empty()
    }) + seq!["-C"@, "code-model="@ + flags.code_model.spec_name()] + (if codegen.panic_abort {
        seq!["-C"@, "panic=abort"@]
    } else {
        Seq::empty()
    }) + (if !codegen.overflow_checks {
        seq!["-C"@, "overflow-checks=no"@]
    } else {
        Seq::empty()
    }) + (match flags.codegen_units {
        Some(units) => seq!["-C"@, "codegen-units="@ + spec_dec_chars(units as int)],
        None => Seq::empty(),
    }) + seq!["-C"@, "inline-threshold="@ + spec_dec_chars(inline.inline_threshold as int)]
        + seq!["-C"@, "embed-bitcode=no"@] + seq!["-C"@, "debuginfo=0"@] + seq![
        "-C"@,
        "rpath=no"@,
    ] + seq!["-C"@, "force-frame-pointers=no"@]
}

/// Views distribute over concatenation of string lists.
proof fn lemma_string_views_concat(a: Seq<String>, b: Seq<String>)
    ensures
        string_views(a + b) == string_views(a) + string_views(b),
{
    assert(string_views(a + b) =~= string_views(a) + string_views(b));
}

/// Appends one `-C <value>` flag pair.
fn push_flag_pair(v: &mut Vec<String>, value: &'static str)
    ensures
        string_views(final(v)@) == string_views(old(v)@) + seq!["-C"@, value@],
{
    v.push("-C".to_owned());
    v.push(value.to_owned());
    proof {
        assert(string_views(v@) =~= string_views(old(v)@) + seq!["-C"@, value@]);
    }
}

/// Appends one `-C <value>` flag pair with an assembled value.
fn push_flag_pair_string(v: &mut Vec<String>, value: String)
    ensures
        string_views(final(v)@) == string_views(old(v)@) + seq!["-C"@, value@],
{
    v.push("-C".to_owned());
    v.push(value);
    proof {
        assert(string_views(v@) =~= string_views(old(v)@) + seq!["-C"@, value@]);
    }
}

impl CompilerOptimizer {
    /// An optimizer with the most aggressive settings everywhere.
    pub fn new() -> (r: Self)
        ensures
            r.optimization_flags.opt_level == OptLevel::Aggressive,
            r.optimization_flags.enable_lto,
            r.optimization_flags.target_cpu@ == "native"@,
            r.optimization_flags.target_features@.len() == 8,
            r.optimization_flags.codegen_units == Some(1usize),
            r.codegen_config.panic_abort,
            !r.codegen_config.overflow_checks,
            r.codegen_config.enable_simd,
            r.inline_strategy.inline_threshold == 1000,
    {
        CompilerOptimizer {
            optimization_flags: OptimizationFlags::ultra_performance(),
            codegen_config: CodegenConfig::ultra_performance(),
            inline_strategy: InlineStrategy::aggressive(),
            stats: CompilerOptimizationStats::default(),
        }
    }

    /// Generates the full configuration: the flag list as configured, the
    /// environment, and the cargo release profile.
    #[verifier::rlimit(100)]
    #[verifier::spinoff_prover]
    pub fn generate_ultra_performance_config(&self) -> (r: Result<CompilerConfig, String>)
        ensures
            match r {
                Ok(config) => {
                    &&& string_views(config.rustflags@) == spec_rustflags(
                        &self.optimization_flags,
                        &self.codegen_config,
                        &self.inline_strategy,
                    )
                    &&& config.env_vars@.len() == 3
                    &&& config.env_vars@[0].0@ == "CARGO_CFG_TARGET_FEATURE"@
                    &&& config.env_vars@[0].1@ == spec_joined_with(
                        self.optimization_flags.target_features@.map_values(|s: String| s@),
                        ","@,
                    )
                    &&& config.env_vars@[1].0@ == "RUSTC_BOOTSTRAP"@
                    &&& config.env_vars@[1].1@ == "1"@
                    &&& config.env_vars@[2].0@ == "CARGO_INCREMENTAL"@
                    &&& config.env_vars@[2].1@ == (if self.optimization_flags.incremental {
                        "1"@
                    } else {
                        "0"@
                    })
                    &&& config.cargo_config.profile_release.opt_level == 3
                    &&& config.cargo_config.profile_release.lto
                        == self.optimization_flags.enable_lto
                    &&& config.cargo_config.profile_release.codegen_units == (
                    match self.optimization_flags.codegen_units {
                        Some(u) => u,
                        None => 1usize,
                    })
                    &&& config.cargo_config.profile_release.panic@ == (
                    if self.codegen_config.panic_abort {
                        "abort"@
                    } else {
                        "unwind"@
                    })
                    &&& config.cargo_config.profile_release.overflow_checks
                        == self.codegen_config.overflow_checks
                    &&& !config.cargo_config.profile_release.debug
                    &&& !config.cargo_config.profile_release.debug_assertions
                    &&& !config.cargo_config.profile_release.rpath
                    &&& config.cargo_config.profile_release.strip
                },
                Err(m) => false,
            },
    {
        let mut rustflags: Vec<String> = Vec::new();
        let ghost empty_flags = rustflags@;
        push_flag_pair(&mut rustflags, "opt-level=3");
        let ghost mut expect: Seq<Seq<char>> = seq!["-C"@, "opt-level=3"@];
        proof {
            assert(string_views(empty_flags) =~= Seq::<Seq<char>>::empty());
            assert(Seq::<Seq<char>>::empty() + expect =~= expect);
            assert(string_views(rustflags@) == expect);
        }
        if self.optimization_flags.enable_lto {
            push_flag_pair(&mut rustflags, "lto=fat");
            proof {
                expect = expect + seq!["-C"@, "lto=fat"@];
            }
        }
        if !self.optimization_flags.target_cpu.as_str().is_empty() {
            let mut cpu_flag = "target-cpu=".to_owned();
            cpu_flag.append(self.optimization_flags.target_cpu.as_str());
            push_flag_pair_string(&mut rustflags, cpu_flag);
            proof {
                expect = expect + seq!["-C"@, "target-cpu="@ + self.optimization_flags.target_cpu@];
            }
        }
        if self.optimization_flags.target_features.len() > 0 {
            let mut feature_flag = "target-feature=".to_owned();
            let joined = join_with(&self.optimization_flags.target_features, ",");
            feature_flag.append(joined.as_str());
            push_flag_pair_string(&mut rustflags, feature_flag);
            proof {
                expect = expect + seq![
                    "-C"@,
                    "target-feature="@ + spec_joined_with(
                        self.optimization_flags.target_features@.map_values(|s: String| s@),
                        ","@,
                    ),
                ];
            }
        }
        let mut model_flag = "code-model=".to_owned();
        model_flag.append(self.optimization_flags.code_model.name());
        push_flag_pair_string(&mut rustflags, model_flag);
        proof {
            expect = expect + seq![
                "-C"@,
                "code-model="@ + self.optimization_flags.code_model.spec_name(),
            ];
        }
        if self.codegen_config.panic_abort {
            push_flag_pair(&mut rustflags, "panic=abort");
            proof {
                expect = expect + seq!["-C"@, "panic=abort"@];
            }
        }
        if !self.codegen_config.overflow_checks {
            push_flag_pair(&mut rustflags, "overflow-checks=no");
            proof {
                expect = expect + seq!["-C"@, "overflow-checks=no"@];
            }
        }
        if let Some(units) = self.optimization_flags.codegen_units {
            let mut units_flag = "codegen-units=".to_owned();
            let units_dec = u64_to_dec_string(units as u64);
            units_flag.append(units_dec.as_str());
            push_flag_pair_string(&mut rustflags, units_flag);
            proof {
                expect = expect + seq!["-C"@, "codegen-units="@ + spec_dec_chars(units as int)];
            }
        }
        let mut threshold_flag = "inline-threshold=".to_owned();
        let threshold_dec = u64_to_dec_string(self.inline_strategy.inline_threshold as u64);
        threshold_flag.append(threshold_dec.as_str());
        push_flag_pair_string(&mut rustflags, threshold_flag);
        push_flag_pair(&mut rustflags, "embed-bitcode=no");
        push_flag_pair(&mut rustflags, "debuginfo=0");
        push_flag_pair(&mut rustflags, "rpath=no");
        push_flag_pair(&mut rustflags, "force-frame-pointers=no");
        proof {
            expect = expect + seq![
                "-C"@,
                "inline-threshold="@ + spec_dec_chars(self.inline_strategy.inline_threshold as int),
            ];
            expect = expect + seq!["-C"@, "embed-bitcode=no"@];
            expect = expect + seq!["-C"@, "debuginfo=0"@];
            expect = expect + seq!["-C"@, "rpath=no"@];
            expect = expect + seq!["-C"@, "force-frame-pointers=no"@];
            assert(string_views(rustflags@) == expect);
            assert(expect =~= spec_rustflags(
                &self.optimization_flags,
                &self.codegen_config,
                &self.inline_strategy,
            ));
        }
        let env_vars = self.generate_env_vars();
        let cargo_config = self.generate_cargo_config();
        Ok(CompilerConfig { rustflags, env_vars, cargo_config })
    }

    /// The environment the build runs under: the target features, the
    /// bootstrap switch, and the incremental-compilation switch.
    fn generate_env_vars(&self) -> (r: Vec<(String, String)>)
        ensures
            r@.len() == 3,
            r@[0].0@ == "CARGO_CFG_TARGET_FEATURE"@,
            r@[0].1@ == spec_joined_with(
                self.optimization_flags.target_features@.map_values(|s: String| s@),
                ","@,
            ),
            r@[1].0@ == "RUSTC_BOOTSTRAP"@,
            r@[1].1@ == "1"@,
            r@[2].0@ == "CARGO_INCREMENTAL"@,
            r@[2].1@ == (if self.optimization_flags.incremental {
                "1"@
            } else {
                "0"@
            }),
    {
        let mut env_vars: Vec<(String, String)> = Vec::new();
        env_vars.push(
            (
                "CARGO_CFG_TARGET_FEATURE".to_owned(),
                join_with(&self.optimization_flags.target_features, ","),
            ),
        );
        env_vars.push(("RUSTC_BOOTSTRAP".to_owned(), "1".to_owned()));
        if self.optimization_flags.incremental {
            env_vars.push(("CARGO_INCREMENTAL".to_owned(), "1".to_owned()));
        } else {
            env_vars.push(("CARGO_INCREMENTAL".to_owned(), "0".to_owned()));
        }
        env_vars
    }

    /// The cargo release profile matching the configured flags.
    fn generate_cargo_config(&self) -> (r: CargoConfig)
        ensures
            r.profile_release.opt_level == 3,
            r.profile_release.lto == self.optimization_flags.enable_lto,
            r.profile_release.codegen_units == (match self.optimization_flags.codegen_units {
                Some(u) => u,
                None => 1usize,
            }),
            r.profile_release.panic@ == (if self.codegen_config.panic_abort {
                "abort"@
            } else {
                "unwind"@
            }),
            r.profile_release.overflow_checks == self.codegen_config.overflow_checks,
            !r.profile_release.debug,
            !r.profile_release.debug_assertions,
            !r.profile_release.rpath,
            r.profile_release.strip,
    {
        let codegen_units = match self.optimization_flags.codegen_units {
            Some(u) => u,
            None => 1,
        };
        let panic = if self.codegen_config.panic_abort {
            "abort".to_owned()
        } else {
            "unwind".to_owned()
        };
        CargoConfig {
            profile_release: ProfileConfig {
                opt_level: 3,
                lto: self.optimization_flags.enable_lto,
                codegen_units,
                panic,
                overflow_checks: self.codegen_config.overflow_checks,
                debug: false,
                debug_assertions: false,
                rpath: false,
                strip: true,
            },
        }
    }

    /// A copy of the optimization counters.
    pub fn get_stats(&self) -> (r: CompilerOptimizationStats)
        ensures
            r.inlined_functions == self.stats.inlined_functions,
            r.constant_folding == self.stats.constant_folding,
            r.dead_code_elimination == self.stats.dead_code_elimination,
            r.loop_optimizations == self.stats.loop_optimizations,
    {
        CompilerOptimizationStats {
            inlined_functions: self.stats.inlined_functions,
            constant_folding: self.stats.constant_folding,
            dead_code_elimination: self.stats.dead_code_elimination,
            loop_optimizations: self.stats.loop_optimizations,
        }
    }
}

/// An operation whose result is fixed at compile time.
pub trait ZeroCostAbstraction {
    type Output;

    /// The compile-time-determined result.
    fn compute_at_compile_time(&self) -> Self::Output;

    /// The same result on the inline path.
    fn inline_operation(&self) -> Self::Output;
}

/// The xorshift mix of one byte: the table entry precomputed per event id.
pub open spec fn spec_event_hash(input: u8) -> u64 {
    let h0 = input as u64;
    let h1 = h0 ^ (h0 << 13);
    let h2 = h1 ^ (h1 >> 7);
    h2 ^ (h2 << 17)
}

/// The xorshift mix of one byte.
pub fn event_hash(input: u8) -> (r: u64)
    ensures
        r == spec_event_hash(input),
{
    let h0 = input as u64;
    let h1 = h0 ^ (h0 << 13);
    let h2 = h1 ^ (h1 >> 7);
    h2 ^ (h2 << 17)
}

/// Event processor over precomputed tables: a hash per event id, and a
/// route assigning each id to one of sixteen workers.
pub struct CompileTimeOptimizedEventProcessor {
    hash_table: Vec<u64>,
    route_table: Vec<u32>,
}

impl CompileTimeOptimizedEventProcessor {
    /// Well-formedness: the tables hold the precomputed hash and route of
    /// every id.
    pub closed spec fn wf(&self) -> bool {
        &&& self.hash_table@.len() == 256
        &&& self.route_table@.len() == 1024
        &&& forall|i: int| 0 <= i < 256 ==> self.hash_table@[i] == spec_event_hash(i as u8)
        &&& forall|i: int| 0 <= i < 1024 ==> self.route_table@[i] == (i % 16) as u32
    }

    /// A processor with both tables precomputed.
    pub fn new() -> (r: Self)
        ensures
            r.wf(),
    {
        let mut hash_table: Vec<u64> = Vec::new();
        let mut i: usize = 0;
        while i < 256
            invariant
                i <= 256,
                hash_table@.len() == i,
                forall|k: int| 0 <= k < i ==> hash_table@[k] == spec_event_hash(k as u8),
            decreases 256 - i,
        {
            hash_table.push(event_hash(i as u8));
            i = i + 1;
        }
        let mut route_table: Vec<u32> = Vec::new();
        let mut j: usize = 0;
        while j < 1024
            invariant
                j <= 1024,
                route_table@.len() == j,
                forall|k: int| 0 <= k < j ==> route_table@[k] == (k % 16) as u32,
            decreases 1024 - j,
        {
            route_table.push((j % 16) as u32);
            j = j + 1;
        }
        CompileTimeOptimizedEventProcessor { hash_table, route_table }
    }

    /// Routes an event id to its worker: the id modulo sixteen, below
    /// sixteen in every case.
    pub fn route_event_zero_cost(&self, event_id: u8) -> (r: u32)
        requires
            self.wf(),
        ensures
            r == event_id as int % 16,
            r < 16,
    {
        // The id is below the table size, so masking it would not change it.
        self.route_table[event_id as usize]
    }

    /// Looks up the precomputed hash of an event id.
    pub fn hash_lookup_optimized(&self, key: u8) -> (r: u64)
        requires
            self.wf(),
        ensures
            r == spec_event_hash(key),
    {
        self.hash_table[key as usize]
    }
}

/// The sum of a value sequence.
pub open spec fn spec_sum(s: Seq<u64>) -> int
    decreases s.len(),
{
    if s.len() == 0 {
        0
    } else {
        spec_sum(s.drop_last()) + s.last()
    }
}

/// Vectorization-friendly summation.
pub struct SIMDCompileTimeOptimizer;

impl SIMDCompileTimeOptimizer {
    /// Sums the values; the bound is a machine limit on the total.
    pub fn vectorized_sum_compile_time(data: &Vec<u64>) -> (r: u64)
        requires
            spec_sum(data@) <= u64::MAX,
        ensures
            r == spec_sum(data@),
    {
        let mut total: u64 = 0;
        let n = data.len();
        let mut i: usize = 0;
        while i < n
            invariant
                n == data@.len(),
                i <= n,
                total == spec_sum(data@.take(i as int)),
                spec_sum(data@) <= u64::MAX,
            decreases n - i,
        {
            proof {
                assert(data@.take(i + 1).drop_last() =~= data@.take(i as int));
                assert(data@.take(i + 1).last() == data@[i as int]);
                lemma_sum_prefix_bound(data@, i + 1);
            }
            total = total + data[i];
            i = i + 1;
        }
        proof {
            assert(data@.take(n as int) =~= data@);
        }
        total
    }
}

/// A prefix sum never exceeds the whole sum.
proof fn lemma_sum_prefix_bound(s: Seq<u64>, k: int)
    requires
        0 <= k <= s.len(),
    ensures
        spec_sum(s.take(k)) <= spec_sum(s),
    decreases s.len() - k,
{
    if k < s.len() {
        lemma_sum_prefix_bound(s, k + 1);
        assert(s.take(k + 1).drop_last() =~= s.take(k));
        assert(s.take(k + 1).last() == s[k]);
    } else {
        assert(s.take(k) =~= s);
    }
}

/// The build script enabling CPU-feature detection and fast linking.
pub open spec fn spec_build_script() -> Seq<char> {
    "
fn main() {
    if is_x86_feature_detected!(\"avx2\") {
        println!(\"cargo:rustc-cfg=has_avx2\");
    }

    if is_x86_feature_detected!(\"avx512f\") {
        println!(\"cargo:rustc-cfg=has_avx512\");
    }

    println!(\"cargo:rustc-env=TARGET_FEATURE=+sse4.2,+avx,+avx2,+fma\");

    println!(\"cargo:rustc-link-arg=-fuse-ld=lld\");

    println!(\"cargo:rustc-env=COMPILE_TIME_OPTIMIZED=1\");
}
"@
}

/// Generates the optimized build script.
pub fn generate_build_script() -> (r: String)
    ensures
        r@ == spec_build_script(),
{
    "
fn main() {
    if is_x86_feature_detected!(\"avx2\") {
        println!(\"cargo:rustc-cfg=has_avx2\");
    }

    if is_x86_feature_detected!(\"avx512f\") {
        println!(\"cargo:rustc-cfg=has_avx512\");
    }

    println!(\"cargo:rustc-env=TARGET_FEATURE=+sse4.2,+avx,+avx2,+fma\");

    println!(\"cargo:rustc-link-arg=-fuse-ld=lld\");

    println!(\"cargo:rustc-env=COMPILE_TIME_OPTIMIZED=1\");
}
".to_owned()
}

/// The cargo configuration enabling the optimized release profile.
pub open spec fn spec_cargo_config_toml() -> Seq<char> {
    "
[build]
rustflags = [
    \"-C\", \"opt-level=3\",
    \"-C\", \"lto=fat\",
    \"-C\", \"panic=abort\",
    \"-C\", \"codegen-units=1\",
    \"-C\", \"target-cpu=native\",
    \"-C\", \"embed-bitcode=no\",
    \"-C\", \"debuginfo=0\",
    \"-C\", \"overflow-checks=no\",
    \"-C\", \"inline-threshold=1000\",
]

[profile.release]
opt-level = 3
lto = \"fat\"
codegen-units = 1
panic = \"abort\"
overflow-checks = false
debug = false
debug-assertions = false
rpath = false
strip = true

[profile.release-with-debug]
inherits = \"release\"
debug = true
strip = false

[target.x86_64-unknown-linux-gnu]
linker = \"clang\"
rustflags = [
    \"-C\", \"link-arg=-fuse-ld=lld\",
    \"-C\", \"link-arg=-Wl,--gc-sections\",
    \"-C\", \"link-arg=-Wl,--icf=all\",
    \"-C\", \"target-feature=+sse4.2,+avx,+avx2,+fma,+bmi1,+bmi2,+lzcnt,+popcnt\",
]

[target.x86_64-apple-darwin]
rustflags = [
    \"-C\", \"target-feature=+sse4.2,+avx,+avx2,+fma,+bmi1,+bmi2,+lzcnt,+popcnt\",
]

[target.x86_64-pc-windows-msvc]
rustflags = [
    \"-C\", \"target-feature=+sse4.2,+avx,+avx2,+fma,+bmi1,+bmi2,+lzcnt,+popcnt\",
]
"@
}

/// Generates the cargo configuration for the optimized release profile.
pub fn generate_cargo_config_toml() -> (r: String)
    ensures
        r@ == spec_cargo_config_toml(),
{
    "
[build]
rustflags = [
    \"-C\", \"opt-level=3\",
    \"-C\", \"lto=fat\",
    \"-C\", \"panic=abort\",
    \"-C\", \"codegen-units=1\",
    \"-C\", \"target-cpu=native\",
    \"-C\", \"embed-bitcode=no\",
    \"-C\", \"debuginfo=0\",
    \"-C\", \"overflow-checks=no\",
    \"-C\", \"inline-threshold=1000\",
]

[profile.release]
opt-level = 3
lto = \"fat\"
codegen-units = 1
panic = \"abort\"
overflow-checks = false
debug = false
debug-assertions = false
rpath = false
strip = true

[profile.release-with-debug]
inherits = \"release\"
debug = true
strip = false

[target.x86_64-unknown-linux-gnu]
linker = \"clang\"
rustflags = [
    \"-C\", \"link-arg=-fuse-ld=lld\",
    \"-C\", \"link-arg=-Wl,--gc-sections\",
    \"-C\", \"link-arg=-Wl,--icf=all\",
    \"-C\", \"target-feature=+sse4.2,+avx,+avx2,+fma,+bmi1,+bmi2,+lzcnt,+popcnt\",
]

[target.x86_64-apple-darwin]
rustflags = [
    \"-C\", \"target-feature=+sse4.2,+avx,+avx2,+fma,+bmi1,+bmi2,+lzcnt,+popcnt\",
]

[target.x86_64-pc-windows-msvc]
rustflags = [
    \"-C\", \"target-feature=+sse4.2,+avx,+avx2,+fma,+bmi1,+bmi2,+lzcnt,+popcnt\",
]
".to_owned()
}

} // verus!
