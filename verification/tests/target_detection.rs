use jitgen::target::get_target_triple;
use jitgen::target::TargetMachine;

#[test]
fn triple_table_rows() {
    assert_eq!(get_target_triple("linux", "x86_64"), "x86_64-unknown-linux-gnu");
    assert_eq!(get_target_triple("linux", "aarch64"), "aarch64-unknown-linux-gnu");
    assert_eq!(get_target_triple("macos", "x86_64"), "x86_64-apple-darwin");
    assert_eq!(get_target_triple("macos", "aarch64"), "aarch64-apple-darwin");
    assert_eq!(get_target_triple("windows", "x86_64"), "x86_64-pc-windows-msvc");
}

#[test]
fn triple_falls_back_to_unknown_and_is_never_empty() {
    assert_eq!(get_target_triple("plan9", "mips"), "unknown");
    assert_eq!(get_target_triple("", ""), "unknown");
    assert!(!get_target_triple("plan9", "mips").is_empty());
    assert!(!get_target_triple("linux", "x86_64").is_empty());
}

#[test]
fn hints_follow_their_features() {
    let all = TargetMachine::from_probes("linux", "x86_64", true, true, true, false);
    assert_eq!(all.cpu_features, vec!["avx2", "fma", "bmi2"]);
    assert_eq!(
        all.optimization_features,
        vec!["vectorize-loops", "slp-vectorize", "fuse-multiply-add"]
    );

    let fma_only = TargetMachine::from_probes("linux", "x86_64", false, true, false, false);
    assert_eq!(fma_only.cpu_features, vec!["fma"]);
    assert_eq!(fma_only.optimization_features, vec!["fuse-multiply-add"]);

    let arm = TargetMachine::from_probes("linux", "aarch64", false, false, false, true);
    assert_eq!(arm.cpu_features, vec!["neon"]);
    assert_eq!(arm.optimization_features, vec!["vectorize-loops"]);

    let bare = TargetMachine::from_probes("linux", "x86_64", false, false, false, false);
    assert!(bare.cpu_features.is_empty());
    assert!(bare.optimization_features.is_empty());
}
