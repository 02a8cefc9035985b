//! The orchestrator: owns the target machine and the registry of compiled
//! artifacts, generates a fresh name per compile from a strictly
//! increasing counter, hands emitted text to a pluggable compilation
//! backend, and tracks invocation statistics per artifact.

use crate::ir::emit_module;
use crate::ir::spec_module_text;
use crate::ir::JitCode;
use crate::target::TargetMachine;
use crate::text::digits_of;
use crate::text::lemma_digits_injective;
use crate::text::u64_to_string;
use crate::types::FunctionSignature;
use vstd::prelude::*;

verus! {

/// How aggressively the backend should optimize, from none (debug
/// builds) through basic and standard up to maximum, target-specific
/// optimization.
#[derive(Debug, Clone, Copy, PartialEq, Eq, Structural)]
pub enum OptimizationLevel {
    NoOpt,
    Less,
    Standard,
    Aggressive,
}

/// An opaque, backend-supplied token standing for an invocable compiled
/// function. This crate never interprets it.
#[derive(Debug, Clone, Copy, PartialEq, Eq, Structural)]
pub struct InvocableHandle {
    pub token: u64,
}

/// The compilation backend: lowers one emitted module to an invocable
/// handle, or reports a backend-defined message. Nothing is assumed of
/// an implementation; the engine states what holds whatever comes back.
pub trait CompilationBackend {
    fn lower(&mut self, ir: &str, entry_name: &str) -> Result<InvocableHandle, String>;
}

/// A deterministic in-process backend for tests and wiring: hands out
/// consecutive tokens, or fails with a fixed message when one is set.
#[derive(Debug)]
pub struct FixedBackend {
    pub next_token: u64,
    pub failure: Option<String>,
}

impl CompilationBackend for FixedBackend {
    fn lower(&mut self, _ir: &str, _entry_name: &str) -> Result<InvocableHandle, String> {
        match &self.failure {
            Option::Some(message) => Result::Err(message.clone()),
            Option::None => {
                let token = self.next_token;
                if self.next_token < u64::MAX {
                    self.next_token = self.next_token + 1;
                }
                Result::Ok(InvocableHandle { token })
            },
        }
    }
}

/// A compiled artifact: the registry key, the handle, the signature it
/// was compiled under, when it was compiled, and its usage counters. The
/// counters change only through `LLVMJit::record_invocation`.
#[derive(Debug)]
pub struct CompiledFunction {
    /// The generated registry key, `"jit_fn_"` followed by `id`.
    pub name: String,
    /// The value of the module counter when this artifact was compiled;
    /// the source of name uniqueness.
    pub id: u64,
    pub handle: InvocableHandle,
    pub signature: FunctionSignature,
    /// Timestamp supplied by the caller at compile time, in nanoseconds.
    pub compiled_at_ns: u64,
    pub call_count: u64,
    /// Cumulative recorded latency, in nanoseconds.
    pub total_time_ns: u64,
}

/// One row of the performance report.
#[derive(Debug)]
pub struct PerformanceStats {
    pub function_name: String,
    pub call_count: u64,
    pub total_time_ns: u64,
    /// `total_time_ns / call_count`, or zero when nothing was recorded.
    pub average_time_ns: u64,
    pub compiled_at_ns: u64,
}

/// Why a compile or a lookup failed.
#[derive(Debug)]
pub enum JitError {
    /// The generator could not express the computation.
    CompilationFailed(String),
    /// A value type or a lookup key was invalid or unknown.
    InvalidType(String),
    /// The backend could not lower the emitted module; kept distinct from
    /// generation failure so callers can tell the two apart.
    LLVMError(String),
    /// Reserved for optimizer-pass failures.
    OptimizationFailed(String),
}

/// The human-readable rendering of an error.
pub open spec fn spec_message(e: JitError) -> Seq<char> {
    match e {
        JitError::CompilationFailed(m) => "Compilation failed: "@ + m@,
        JitError::InvalidType(m) => "Invalid type: "@ + m@,
        JitError::LLVMError(m) => "LLVM error: "@ + m@,
        JitError::OptimizationFailed(m) => "Optimization failed: "@ + m@,
    }
}

impl JitError {
    /// Renders the error kind and its cause.
    pub fn message(&self) -> (r: String)
        ensures
            r@ == spec_message(*self),
    {
        match self {
            JitError::CompilationFailed(m) => {
                let mut s = "Compilation failed: ".to_owned();
                s.append(m.as_str());
                s
            },
            JitError::InvalidType(m) => {
                let mut s = "Invalid type: ".to_owned();
                s.append(m.as_str());
                s
            },
            JitError::LLVMError(m) => {
                let mut s = "LLVM error: ".to_owned();
                s.append(m.as_str());
                s
            },
            JitError::OptimizationFailed(m) => {
                let mut s = "Optimization failed: ".to_owned();
                s.append(m.as_str());
                s
            },
        }
    }
}

/// The generated name for the compile numbered `id`.
pub open spec fn spec_fn_name(id: u64) -> Seq<char> {
    "jit_fn_"@ + digits_of(id as nat)
}

/// Distinct compile numbers yield distinct generated names.
pub proof fn lemma_fn_name_injective(a: u64, b: u64)
    requires
        spec_fn_name(a) == spec_fn_name(b),
    ensures
        a == b,
{
    let p = "jit_fn_"@;
    let sa = spec_fn_name(a);
    let sb = spec_fn_name(b);
    assert(digits_of(a as nat) =~= sa.subrange(p.len() as int, sa.len() as int));
    assert(digits_of(b as nat) =~= sb.subrange(p.len() as int, sb.len() as int));
    lemma_digits_injective(a as nat, b as nat);
}

/// Renders the generated name for the compile numbered `id`.
fn fn_name_for(id: u64) -> (s: String)
    ensures
        s@ == spec_fn_name(id),
{
    let mut s = "jit_fn_".to_owned();
    s.append(u64_to_string(id).as_str());
    s
}

/// An artifact after one recorded invocation of the given latency; both
/// counters saturate at the top of their range.
pub open spec fn spec_recorded(f: CompiledFunction, elapsed_ns: u64) -> CompiledFunction {
    CompiledFunction {
        call_count: if f.call_count == u64::MAX {
            u64::MAX
        } else {
            (f.call_count + 1) as u64
        },
        total_time_ns: if f.total_time_ns + elapsed_ns > u64::MAX {
            u64::MAX
        } else {
            (f.total_time_ns + elapsed_ns) as u64
        },
        ..f
    }
}

/// The reported average: total over count, or zero when nothing was
/// recorded.
pub open spec fn spec_average(total_ns: u64, count: u64) -> u64 {
    if count == 0 {
        0
    } else {
        (total_ns as nat / count as nat) as u64
    }
}

/// The JIT engine: one target machine, one registry, one optimization
/// level.
#[derive(Debug)]
pub struct LLVMJit {
    pub target_machine: TargetMachine,
    pub compiled_functions: Vec<CompiledFunction>,
    /// Strictly increasing; incremented by every compile, also a failing
    /// one, so a name is never reused within one engine instance.
    pub module_counter: u64,
    pub optimization_level: OptimizationLevel,
}

impl LLVMJit {
    /// The registry invariant: artifacts are numbered below the counter,
    /// in strictly increasing order, and each is keyed by the generated
    /// name for its number.
    pub open spec fn wf(self) -> bool {
        &&& forall|i: int|
            0 <= i < self.compiled_functions@.len() ==> (
            #[trigger] self.compiled_functions@[i]).id < self.module_counter
        &&& forall|i: int, j: int|
            0 <= i < j < self.compiled_functions@.len()
                ==> self.compiled_functions@[i].id < self.compiled_functions@[j].id
        &&& forall|i: int|
            0 <= i < self.compiled_functions@.len() ==> (
            #[trigger] self.compiled_functions@[i]).name@ == spec_fn_name(
                self.compiled_functions@[i].id,
            )
    }

    /// A fresh engine for the given target: empty registry, counter at
    /// zero, standard optimization level.
    pub fn new(target_machine: TargetMachine) -> (jit: LLVMJit)
        ensures
            jit.wf(),
            jit.target_machine == target_machine,
            jit.compiled_functions@.len() == 0,
            jit.module_counter == 0,
            jit.optimization_level == OptimizationLevel::Standard,
    {
        LLVMJit {
            target_machine,
            compiled_functions: Vec::new(),
            module_counter: 0,
            optimization_level: OptimizationLevel::Standard,
        }
    }

    /// Compiles one kernel: allocates the next generated name, increments
    /// the counter unconditionally (also when the backend fails, so names
    /// are never reused), emits the module for the current target, and
    /// hands it to the backend. On success the artifact is appended to
    /// the registry with zero counters and the given timestamp, and a
    /// reference to the stored artifact is returned; the backend's
    /// failure comes back as `LLVMError` and leaves the registry
    /// unchanged.
    pub fn compile_function<B: CompilationBackend>(
        &mut self,
        code: JitCode,
        backend: &mut B,
        now_ns: u64,
    ) -> (r: Result<&CompiledFunction, JitError>)
        requires
            old(self).wf(),
            old(self).module_counter < u64::MAX,
        ensures
            final(self).wf(),
            final(self).target_machine == old(self).target_machine,
            final(self).optimization_level == old(self).optimization_level,
            final(self).module_counter == old(self).module_counter + 1,
            r matches Ok(f) ==> {
                &&& final(self).compiled_functions@ == old(self).compiled_functions@.push(*f)
                &&& f.id == old(self).module_counter
                &&& f.name@ == spec_fn_name(old(self).module_counter)
                &&& f.signature.name@ == spec_fn_name(old(self).module_counter)
                &&& f.signature.return_type == code.signature.return_type
                &&& f.signature.parameters == code.signature.parameters
                &&& f.signature.calling_convention == code.signature.calling_convention
                &&& f.compiled_at_ns == now_ns
                &&& f.call_count == 0
                &&& f.total_time_ns == 0
            },
            r matches Err(e) ==> {
                &&& final(self).compiled_functions == old(self).compiled_functions
                &&& e matches JitError::LLVMError(_)
            },
    {
        let function_name = fn_name_for(self.module_counter);
        let id = self.module_counter;
        self.module_counter = self.module_counter + 1;
        let llvm_ir = emit_module(&self.target_machine, &code, function_name.as_str());
        match backend.lower(llvm_ir.as_str(), function_name.as_str()) {
            Result::Ok(handle) => {
                let signature_name = function_name.clone();
                let compiled = CompiledFunction {
                    name: function_name,
                    id,
                    handle,
                    signature: FunctionSignature {
                        name: signature_name,
                        return_type: code.signature.return_type,
                        parameters: code.signature.parameters,
                        calling_convention: code.signature.calling_convention,
                    },
                    compiled_at_ns: now_ns,
                    call_count: 0,
                    total_time_ns: 0,
                };
                self.compiled_functions.push(compiled);
                let idx = self.compiled_functions.len() - 1;
                Result::Ok(&self.compiled_functions[idx])
            },
            Result::Err(message) => Result::Err(JitError::LLVMError(message)),
        }
    }

    /// Records one invocation of the named artifact: its call count goes
    /// up by one and the elapsed time is added to its total (both
    /// saturating). Every other artifact, and an unknown name the whole
    /// registry, is left exactly as it was; an unknown name reports
    /// `InvalidType`.
    pub fn record_invocation(&mut self, name: &str, elapsed_ns: u64) -> (r: Result<(), JitError>)
        requires
            old(self).wf(),
        ensures
            final(self).wf(),
            final(self).target_machine == old(self).target_machine,
            final(self).optimization_level == old(self).optimization_level,
            final(self).module_counter == old(self).module_counter,
            final(self).compiled_functions@.len() == old(self).compiled_functions@.len(),
            forall|i: int|
                0 <= i < old(self).compiled_functions@.len()
                    ==> final(self).compiled_functions@[i]
                    == (if old(self).compiled_functions@[i].name@ == name@ {
                    spec_recorded(old(self).compiled_functions@[i], elapsed_ns)
                } else {
                    old(self).compiled_functions@[i]
                }),
            (r is Ok) == exists|i: int|
                0 <= i < old(self).compiled_functions@.len()
                    && (#[trigger] old(self).compiled_functions@[i]).name@ == name@,
            r matches Err(e) ==> {
                &&& e matches JitError::InvalidType(m) && m@ == "unknown function"@
                &&& *final(self) == *old(self)
            },
    {
        proof {
            Self::lemma_names_distinct(*old(self));
        }
        let key = name.to_owned();
        let mut i: usize = 0;
        while i < self.compiled_functions.len()
            invariant
                *self == *old(self),
                old(self).wf(),
                key@ == name@,
                0 <= i <= self.compiled_functions@.len(),
                forall|j: int|
                    0 <= j < i ==> (#[trigger] self.compiled_functions@[j]).name@ != name@,
            decreases self.compiled_functions@.len() - i,
        {
            if self.compiled_functions[i].name.eq(&key) {
                let mut found = self.compiled_functions.remove(i);
                if found.call_count < u64::MAX {
                    found.call_count = found.call_count + 1;
                }
                if elapsed_ns > u64::MAX - found.total_time_ns {
                    found.total_time_ns = u64::MAX;
                } else {
                    found.total_time_ns = found.total_time_ns + elapsed_ns;
                }
                self.compiled_functions.insert(i, found);
                proof {
                    let updated = spec_recorded(old(self).compiled_functions@[i as int], elapsed_ns);
                    assert(self.compiled_functions@ =~= old(self).compiled_functions@.update(
                        i as int,
                        updated,
                    ));
                    let ghost before = old(self).compiled_functions@;
                    assert forall|j: int|
                        0 <= j < before.len() && j != i implies (#[trigger] before[j]).name@
                        != name@ by {
                        Self::lemma_names_distinct(*old(self));
                    }
                }
                return Result::Ok(());
            }
            i = i + 1;
        }
        Result::Err(JitError::InvalidType("unknown function".to_owned()))
    }

    /// Artifacts of a well-formed registry carry pairwise distinct names:
    /// their numbers differ, and the generated name is injective in the
    /// number. The source of the key-uniqueness guarantee: however many
    /// compiles an engine performs, and whether or not they succeed, each
    /// successful one adds a key no earlier compile can have used.
    pub proof fn lemma_names_distinct(jit: LLVMJit)
        requires
            jit.wf(),
        ensures
            forall|i: int, j: int|
                0 <= i < j < jit.compiled_functions@.len()
                    ==> jit.compiled_functions@[i].name@ != jit.compiled_functions@[j].name@,
    {
        assert forall|i: int, j: int|
            0 <= i < j < jit.compiled_functions@.len() implies jit.compiled_functions@[i].name@
            != jit.compiled_functions@[j].name@ by {
            if jit.compiled_functions@[i].name@ == jit.compiled_functions@[j].name@ {
                lemma_fn_name_injective(
                    jit.compiled_functions@[i].id,
                    jit.compiled_functions@[j].id,
                );
            }
        }
    }

    /// One report row per artifact, in registry order (stable for a given
    /// registry state): name, counters, and the average latency, which is
    /// zero when nothing was recorded and total over count otherwise.
    pub fn get_performance_stats(&self) -> (stats: Vec<PerformanceStats>)
        ensures
            stats@.len() == self.compiled_functions@.len(),
            forall|i: int|
                0 <= i < stats@.len() ==> {
                    &&& (#[trigger] stats@[i]).function_name@
                        == self.compiled_functions@[i].name@
                    &&& stats@[i].call_count == self.compiled_functions@[i].call_count
                    &&& stats@[i].total_time_ns == self.compiled_functions@[i].total_time_ns
                    &&& stats@[i].average_time_ns == spec_average(
                        self.compiled_functions@[i].total_time_ns,
                        self.compiled_functions@[i].call_count,
                    )
                    &&& stats@[i].compiled_at_ns == self.compiled_functions@[i].compiled_at_ns
                },
    {
        let mut stats: Vec<PerformanceStats> = Vec::new();
        let mut i: usize = 0;
        while i < self.compiled_functions.len()
            invariant
                0 <= i <= self.compiled_functions@.len(),
                stats@.len() == i,
                forall|j: int|
                    0 <= j < i ==> {
                        &&& (#[trigger] stats@[j]).function_name@
                            == self.compiled_functions@[j].name@
                        &&& stats@[j].call_count == self.compiled_functions@[j].call_count
                        &&& stats@[j].total_time_ns == self.compiled_functions@[j].total_time_ns
                        &&& stats@[j].average_time_ns == spec_average(
                            self.compiled_functions@[j].total_time_ns,
                            self.compiled_functions@[j].call_count,
                        )
                        &&& stats@[j].compiled_at_ns == self.compiled_functions@[j].compiled_at_ns
                    },
            decreases self.compiled_functions@.len() - i,
        {
            let f = &self.compiled_functions[i];
            let average_time_ns = if f.call_count > 0 {
                f.total_time_ns / f.call_count
            } else {
                0
            };
            stats.push(
                PerformanceStats {
                    function_name: f.name.clone(),
                    call_count: f.call_count,
                    total_time_ns: f.total_time_ns,
                    average_time_ns,
                    compiled_at_ns: f.compiled_at_ns,
                },
            );
            i = i + 1;
        }
        stats
    }

    /// Emits the module text for a kernel under a caller-chosen name,
    /// without touching the registry. Generation is total: it succeeds
    /// for every kernel, with exactly the specified module text.
    pub fn generate_llvm_ir(&self, code: &JitCode, function_name: &str) -> (r: Result<
        String,
        JitError,
    >)
        ensures
            r matches Ok(ir) && ir@ == spec_module_text(self.target_machine, *code, function_name@),
    {
        Result::Ok(emit_module(&self.target_machine, code, function_name))
    }

    /// Emits the vector-add body for this engine's target.
    pub fn generate_vector_add(&self, size: usize) -> (r: Result<String, JitError>)
        ensures
            r matches Ok(ir) && ir@ == crate::ir::spec_vector_add_text(
                crate::target::spec_has_wide_simd(self.target_machine),
                size as nat,
            ),
    {
        let wide = crate::target::has_feature(&self.target_machine.cpu_features, "avx2");
        Result::Ok(crate::ir::emit_vector_add(wide, size))
    }

    /// Emits the blocked matrix-multiply body for this engine's target.
    pub fn generate_matrix_multiply(&self, m: usize, n: usize, k: usize) -> (r: Result<
        String,
        JitError,
    >)
        ensures
            r matches Ok(ir) && ir@ == crate::ir::spec_matmul_text(
                crate::target::spec_has_wide_simd(self.target_machine),
                m as nat,
                n as nat,
                k as nat,
            ),
    {
        let wide = crate::target::has_feature(&self.target_machine.cpu_features, "avx2");
        Result::Ok(crate::ir::emit_matrix_multiply(wide, m, n, k))
    }

    /// Emits the convolution placeholder body.
    pub fn generate_convolution(&self) -> (r: Result<String, JitError>)
        ensures
            r matches Ok(ir) && ir@ == crate::ir::conv_text(),
    {
        Result::Ok(crate::ir::emit_convolution())
    }

    /// Emits one custom instruction as a body line.
    pub fn generate_instruction(&self, instruction: &crate::ir::JitInstruction) -> (r: Result<
        String,
        JitError,
    >)
        ensures
            r matches Ok(ir) && ir@ == crate::ir::instruction_text(*instruction),
    {
        Result::Ok(crate::ir::emit_instruction(instruction))
    }

    /// Emits the elementwise scalar loop for the given operation.
    pub fn generate_scalar_loop(&self, operation: &str, size: usize) -> (r: Result<
        String,
        JitError,
    >)
        ensures
            r matches Ok(ir) && ir@ == crate::ir::scalar_loop_text(operation@, size as nat),
    {
        Result::Ok(crate::ir::emit_scalar_loop(operation, size))
    }

    /// Translates one value type to its textual spelling.
    pub fn type_to_llvm(&self, t: &crate::types::JitType) -> (r: String)
        ensures
            r@ == crate::types::spec_type_text(*t),
    {
        crate::types::type_to_llvm(t)
    }
}

} // verus!
