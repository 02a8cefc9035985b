use jitgen::engine::CompilationBackend;
use jitgen::engine::FixedBackend;
use jitgen::engine::JitError;
use jitgen::engine::LLVMJit;
use jitgen::ir::JitCode;
use jitgen::ir::JitOperation;
use jitgen::target::TargetMachine;
use jitgen::types::CallingConvention;
use jitgen::types::FunctionSignature;
use jitgen::types::JitType;

fn wide_target() -> TargetMachine {
    TargetMachine::from_probes("linux", "x86_64", true, false, false, false)
}

fn ok_backend() -> FixedBackend {
    FixedBackend { next_token: 1, failure: None }
}

fn failing_backend(message: &str) -> FixedBackend {
    FixedBackend { next_token: 1, failure: Some(message.to_string()) }
}

fn vector_add_code(size: usize) -> JitCode {
    JitCode {
        signature: FunctionSignature {
            name: String::new(),
            return_type: JitType::Void,
            parameters: vec![
                JitType::Ptr(Box::new(JitType::F32)),
                JitType::Ptr(Box::new(JitType::F32)),
                JitType::Ptr(Box::new(JitType::F32)),
            ],
            calling_convention: CallingConvention::C,
        },
        operation: JitOperation::VectorAdd { size },
    }
}

#[test]
fn compile_produces_distinct_keys_and_counts_every_attempt() {
    let mut jit = LLVMJit::new(wide_target());
    let mut backend = ok_backend();
    let mut names = Vec::new();
    for i in 0..3 {
        let artifact = jit.compile_function(vector_add_code(16 + i), &mut backend, 0).unwrap();
        names.push(artifact.name.clone());
    }
    assert_eq!(names, vec!["jit_fn_0", "jit_fn_1", "jit_fn_2"]);
    assert_eq!(jit.module_counter, 3);

    // A failing compile still consumes a number, so no later success can
    // reuse one.
    let mut bad = failing_backend("lowering rejected");
    let err = jit.compile_function(vector_add_code(8), &mut bad, 0).err().unwrap();
    assert_eq!(err.message(), "LLVM error: lowering rejected");
    assert_eq!(jit.module_counter, 4);
    assert_eq!(jit.compiled_functions.len(), 3);

    let artifact = jit.compile_function(vector_add_code(8), &mut backend, 0).unwrap();
    assert_eq!(artifact.name, "jit_fn_4");
}

#[test]
fn compile_stores_signature_under_generated_name() {
    let mut jit = LLVMJit::new(wide_target());
    let mut backend = ok_backend();
    let artifact = jit.compile_function(vector_add_code(20), &mut backend, 77).unwrap();
    assert_eq!(artifact.name, "jit_fn_0");
    assert_eq!(artifact.signature.name, "jit_fn_0");
    assert_eq!(artifact.signature.parameters.len(), 3);
    assert_eq!(artifact.compiled_at_ns, 77);
    assert_eq!(artifact.call_count, 0);
    assert_eq!(artifact.total_time_ns, 0);
}

#[test]
fn record_unknown_name_mutates_nothing() {
    let mut jit = LLVMJit::new(wide_target());
    let mut backend = ok_backend();
    jit.compile_function(vector_add_code(16), &mut backend, 0).unwrap();
    jit.record_invocation("jit_fn_0", 5).unwrap();

    let err = jit.record_invocation("jit_fn_7", 1_000_000).err().unwrap();
    assert!(matches!(err, JitError::InvalidType(_)));
    assert_eq!(err.message(), "Invalid type: unknown function");

    let stats = jit.get_performance_stats();
    assert_eq!(stats.len(), 1);
    assert_eq!(stats[0].call_count, 1);
    assert_eq!(stats[0].total_time_ns, 5);
}

#[test]
fn average_time_is_total_over_count() {
    let mut jit = LLVMJit::new(wide_target());
    let mut backend = ok_backend();
    jit.compile_function(vector_add_code(20), &mut backend, 0).unwrap();

    // Three invocations of 10ms, 20ms and 30ms average to 20ms.
    jit.record_invocation("jit_fn_0", 10_000_000).unwrap();
    jit.record_invocation("jit_fn_0", 20_000_000).unwrap();
    jit.record_invocation("jit_fn_0", 30_000_000).unwrap();

    let stats = jit.get_performance_stats();
    assert_eq!(stats[0].function_name, "jit_fn_0");
    assert_eq!(stats[0].call_count, 3);
    assert_eq!(stats[0].total_time_ns, 60_000_000);
    assert_eq!(stats[0].average_time_ns, 20_000_000);
}

#[test]
fn average_time_is_zero_before_any_invocation() {
    let mut jit = LLVMJit::new(wide_target());
    let mut backend = ok_backend();
    jit.compile_function(vector_add_code(16), &mut backend, 0).unwrap();
    let stats = jit.get_performance_stats();
    assert_eq!(stats[0].call_count, 0);
    assert_eq!(stats[0].average_time_ns, 0);
}

#[test]
fn recording_touches_only_the_named_artifact() {
    let mut jit = LLVMJit::new(wide_target());
    let mut backend = ok_backend();
    jit.compile_function(vector_add_code(16), &mut backend, 0).unwrap();
    jit.compile_function(vector_add_code(24), &mut backend, 0).unwrap();

    jit.record_invocation("jit_fn_1", 9).unwrap();

    let stats = jit.get_performance_stats();
    assert_eq!(stats[0].function_name, "jit_fn_0");
    assert_eq!(stats[0].call_count, 0);
    assert_eq!(stats[1].function_name, "jit_fn_1");
    assert_eq!(stats[1].call_count, 1);
    assert_eq!(stats[1].total_time_ns, 9);
}

#[test]
fn fixed_backend_hands_out_consecutive_tokens() {
    let mut backend = ok_backend();
    let a = backend.lower("ir", "f0").unwrap();
    let b = backend.lower("ir", "f1").unwrap();
    assert_eq!(a.token, 1);
    assert_eq!(b.token, 2);
}

#[test]
fn error_messages_name_their_kind() {
    assert_eq!(
        JitError::CompilationFailed("bad kernel".to_string()).message(),
        "Compilation failed: bad kernel"
    );
    assert_eq!(JitError::InvalidType("mystery".to_string()).message(), "Invalid type: mystery");
    assert_eq!(JitError::LLVMError("boom".to_string()).message(), "LLVM error: boom");
    assert_eq!(
        JitError::OptimizationFailed("pass".to_string()).message(),
        "Optimization failed: pass"
    );
}

#[test]
fn end_to_end_wide_simd_scenario() {
    let target = TargetMachine::from_probes("linux", "x86_64", true, false, false, false);
    let mut jit = LLVMJit::new(target);

    // 20 = 2 lanes of 8 plus 4 leftover: both markers present.
    let ir20 = jit.generate_llvm_ir(&vector_add_code(20), "probe").unwrap();
    assert!(ir20.contains("vector_loop:"));
    assert!(ir20.contains("scalar_cleanup:"));

    // 16 is an exact multiple of the lane width: no cleanup marker.
    let ir16 = jit.generate_llvm_ir(&vector_add_code(16), "probe").unwrap();
    assert!(ir16.contains("vector_loop:"));
    assert!(!ir16.contains("scalar_cleanup:"));

    // With wide SIMD present the matrix multiply blocks by 64.
    let mm = jit.generate_matrix_multiply(128, 128, 128).unwrap();
    assert!(mm.contains("%bj.next = add i64 %bj, 64"));

    // Three recorded invocations average out.
    let mut backend = ok_backend();
    jit.compile_function(vector_add_code(20), &mut backend, 0).unwrap();
    jit.record_invocation("jit_fn_0", 10_000_000).unwrap();
    jit.record_invocation("jit_fn_0", 20_000_000).unwrap();
    jit.record_invocation("jit_fn_0", 30_000_000).unwrap();
    let stats = jit.get_performance_stats();
    assert_eq!(stats[0].average_time_ns, 20_000_000);
    assert_eq!(stats[0].call_count, 3);
}
