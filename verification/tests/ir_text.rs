use jitgen::engine::LLVMJit;
use jitgen::ir::JitCode;
use jitgen::ir::JitInstruction;
use jitgen::ir::JitOperation;
use jitgen::target::TargetMachine;
use jitgen::types::CallingConvention;
use jitgen::types::FunctionSignature;
use jitgen::types::JitType;

fn wide_target() -> TargetMachine {
    TargetMachine::from_probes("linux", "x86_64", true, false, false, false)
}

fn narrow_target() -> TargetMachine {
    TargetMachine::from_probes("linux", "x86_64", false, false, false, false)
}

fn vector_add_code(size: usize) -> JitCode {
    JitCode {
        signature: FunctionSignature {
            name: String::new(),
            return_type: JitType::Void,
            parameters: vec![
                JitType::Ptr(Box::new(JitType::F32)),
                JitType::Ptr(Box::new(JitType::F32)),
                JitType::Ptr(Box::new(JitType::F32)),
            ],
            calling_convention: CallingConvention::C,
        },
        operation: JitOperation::VectorAdd { size },
    }
}

#[test]
fn translate_is_deterministic() {
    let t = JitType::Struct(vec![JitType::I8, JitType::Array(Box::new(JitType::F64), 3)]);
    let jit = LLVMJit::new(narrow_target());
    assert_eq!(jit.type_to_llvm(&t), jit.type_to_llvm(&t));
    let nested = JitType::Ptr(Box::new(JitType::Ptr(Box::new(JitType::I32))));
    assert_eq!(jit.type_to_llvm(&nested), jit.type_to_llvm(&nested));
}

#[test]
fn translate_exact_spellings() {
    let jit = LLVMJit::new(narrow_target());
    assert_eq!(jit.type_to_llvm(&JitType::Void), "void");
    assert_eq!(jit.type_to_llvm(&JitType::I8), "i8");
    assert_eq!(jit.type_to_llvm(&JitType::I16), "i16");
    assert_eq!(jit.type_to_llvm(&JitType::I64), "i64");
    assert_eq!(jit.type_to_llvm(&JitType::F64), "double");
    assert_eq!(jit.type_to_llvm(&JitType::Array(Box::new(JitType::I64), 4)), "[4 x i64]");
    assert_eq!(jit.type_to_llvm(&JitType::Array(Box::new(JitType::I8), 0)), "[0 x i8]");
    assert_eq!(jit.type_to_llvm(&JitType::Struct(vec![JitType::I32])), "{ ... }");
    assert_eq!(jit.type_to_llvm(&JitType::Ptr(Box::new(JitType::Ptr(Box::new(JitType::F32))))), "float**");
}

#[test]
fn vector_add_with_remainder_has_both_loops() {
    let jit = LLVMJit::new(wide_target());
    let ir = jit.generate_vector_add(20).unwrap();
    assert!(ir.contains("vector_loop:"));
    assert!(ir.contains("scalar_cleanup:"));
    assert!(ir.contains("  ret void\n"));
    // 20 elements = 2 whole lanes of 8, so the lane loop runs 2 iterations.
    assert!(ir.contains("icmp slt i64 %i.vec.next, 2"));
}

#[test]
fn vector_add_exact_multiple_has_no_cleanup() {
    let jit = LLVMJit::new(wide_target());
    let ir = jit.generate_vector_add(16).unwrap();
    assert!(ir.contains("vector_loop:"));
    assert!(!ir.contains("scalar_cleanup:"));
    assert!(ir.contains("  ret void\n"));
}

#[test]
fn vector_add_without_wide_simd_is_one_scalar_loop() {
    let jit = LLVMJit::new(narrow_target());
    let ir = jit.generate_vector_add(1024).unwrap();
    assert!(!ir.contains("vector_loop"));
    assert!(!ir.contains("scalar_cleanup"));
    assert_eq!(ir.matches("loop:").count(), 1);
    assert_eq!(ir.matches("br label %").count(), 1);
    assert!(ir.contains("icmp slt i64 %i.next, 1024"));
}

#[test]
fn neon_is_not_the_wide_simd_feature() {
    let arm = TargetMachine::from_probes("linux", "aarch64", false, false, false, true);
    let jit = LLVMJit::new(arm);
    let ir = jit.generate_vector_add(64).unwrap();
    assert!(!ir.contains("vector_loop"));
    assert_eq!(ir.matches("loop:").count(), 1);
    let module = jit.generate_llvm_ir(&vector_add_code(64), "jit_fn_0").unwrap();
    assert!(module.starts_with("target triple = \"aarch64-unknown-linux-gnu\"\n"));
    assert!(module.contains("\"target-features\"=\"neon\""));
}

#[test]
fn vector_add_below_one_lane_is_scalar() {
    let jit = LLVMJit::new(wide_target());
    let ir = jit.generate_vector_add(7).unwrap();
    assert!(!ir.contains("vector_loop"));
    assert_eq!(ir.matches("loop:").count(), 1);
}

#[test]
fn matrix_multiply_block_size_follows_features() {
    let wide = LLVMJit::new(wide_target());
    let ir = wide.generate_matrix_multiply(128, 128, 128).unwrap();
    assert!(ir.contains("Blocked matrix multiply 128x128x128"));
    assert!(ir.contains("%bj.next = add i64 %bj, 64"));
    assert!(ir.contains("block_i_loop:"));
    assert!(ir.contains("blocks_done:"));
    assert!(ir.contains("  ret void\n"));

    let narrow = LLVMJit::new(narrow_target());
    let ir = narrow.generate_matrix_multiply(16, 8, 4).unwrap();
    assert!(ir.contains("Blocked matrix multiply 16x8x4"));
    assert!(ir.contains("%bj.next = add i64 %bj, 32"));
}

#[test]
fn convolution_is_structural_placeholder() {
    let jit = LLVMJit::new(wide_target());
    let ir = jit.generate_convolution().unwrap();
    assert!(ir.contains("convolution"));
    assert!(ir.ends_with("  ret void\n"));
}

#[test]
fn custom_instruction_lines() {
    let jit = LLVMJit::new(narrow_target());
    let call = JitInstruction {
        opcode: "call".to_string(),
        operands: vec!["@helper".to_string(), "%arg0".to_string()],
    };
    assert_eq!(jit.generate_instruction(&call).unwrap(), "  call @helper, %arg0\n");
    let bare = JitInstruction { opcode: "unreachable".to_string(), operands: vec![] };
    assert_eq!(jit.generate_instruction(&bare).unwrap(), "  unreachable\n");
}

#[test]
fn module_layout_and_attributes() {
    let jit = LLVMJit::new(wide_target());
    let ir = jit.generate_llvm_ir(&vector_add_code(20), "jit_fn_0").unwrap();
    assert!(ir.starts_with("target triple = \"x86_64-unknown-linux-gnu\"\n"));
    assert!(ir.contains("attributes #0 = { \"target-features\"=\"avx2\" }\n"));
    assert!(ir.contains("define void @jit_fn_0(float* %arg0, float* %arg1, float* %arg2) {\n"));
    assert!(ir.contains("entry:\n"));
    assert!(ir.ends_with("}\n"));
}

#[test]
fn module_omits_attribute_line_without_features() {
    let jit = LLVMJit::new(narrow_target());
    let ir = jit.generate_llvm_ir(&vector_add_code(4), "jit_fn_0").unwrap();
    assert!(!ir.contains("attributes"));
    assert!(ir.contains("target triple = \"x86_64-unknown-linux-gnu\"\n"));
}

#[test]
fn module_joins_features_in_detection_order() {
    let target = TargetMachine::from_probes("linux", "x86_64", true, true, true, false);
    let jit = LLVMJit::new(target);
    let ir = jit.generate_llvm_ir(&vector_add_code(4), "jit_fn_0").unwrap();
    assert!(ir.contains("\"target-features\"=\"avx2,fma,bmi2\""));
}

#[test]
fn custom_kernel_module_keeps_instruction_order() {
    let jit = LLVMJit::new(narrow_target());
    let code = JitCode {
        signature: FunctionSignature {
            name: String::new(),
            return_type: JitType::Void,
            parameters: vec![],
            calling_convention: CallingConvention::Fast,
        },
        operation: JitOperation::CustomKernel {
            instructions: vec![
                JitInstruction { opcode: "first".to_string(), operands: vec![] },
                JitInstruction { opcode: "second".to_string(), operands: vec!["%x".to_string()] },
            ],
        },
    };
    let ir = jit.generate_llvm_ir(&code, "jit_fn_0").unwrap();
    assert!(ir.contains("define void @jit_fn_0() {\nentry:\n  first\n  second %x\n  ret void\n}\n"));
}

#[test]
fn scalar_loop_is_parameterized_by_operation() {
    let jit = LLVMJit::new(narrow_target());
    let ir = jit.generate_scalar_loop("fmul float", 5).unwrap();
    assert!(ir.contains("%result.val = fmul float %a.val, %b.val"));
    assert!(ir.contains("icmp slt i64 %i.next, 5"));
}
