use jitgen::engine::LLVMJit;
use jitgen::target::TargetMachine;
use jitgen::types::JitType;

fn x86_avx2_target() -> TargetMachine {
    TargetMachine::from_probes("linux", "x86_64", true, true, true, false)
}

#[test]
fn test_jit_creation() {
    let jit = LLVMJit::new(x86_avx2_target());

    assert!(!jit.target_machine.target_triple.is_empty());
    println!("Target: {}", jit.target_machine.target_triple);
    println!("Features: {:?}", jit.target_machine.cpu_features);
}

#[test]
fn test_vector_add_ir_generation() {
    let jit = LLVMJit::new(x86_avx2_target());

    let ir = jit.generate_vector_add(1024).unwrap();
    assert!(ir.contains("fadd"));
    assert!(ir.contains("ret void"));

    println!("Generated IR:\n{}", ir);
}

#[test]
fn test_type_conversion() {
    let jit = LLVMJit::new(x86_avx2_target());

    assert_eq!(jit.type_to_llvm(&JitType::F32), "float");
    assert_eq!(jit.type_to_llvm(&JitType::Ptr(Box::new(JitType::I32))), "i32*");
    assert_eq!(jit.type_to_llvm(&JitType::Vector(Box::new(JitType::F32), 8)), "<8 x float>");
}

#[test]
fn test_target_detection() {
    let target = x86_avx2_target();
    assert!(!target.target_triple.is_empty());

    println!("Detected x86_64 features: {:?}", target.cpu_features);
}
