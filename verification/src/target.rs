//! The target descriptor: the architecture triple, the detected feature
//! set, and the optimizer hints those features imply. Probing the host is
//! left to the caller; this module turns probe results into a descriptor
//! through total, exactly specified functions.

use vstd::prelude::*;

verus! {

/// The machine the generator emits code for. Immutable once built.
#[derive(Debug)]
pub struct TargetMachine {
    /// Detected feature names, in detection order (e.g. "avx2", "fma").
    pub cpu_features: Vec<String>,
    /// The architecture-OS-ABI identifier; never empty.
    pub target_triple: String,
    /// Optimizer-pass names implied by the detected features.
    pub optimization_features: Vec<String>,
}

/// The views of a list of feature names.
pub open spec fn feature_views(features: Seq<String>) -> Seq<Seq<char>> {
    features.map_values(|s: String| s@)
}

/// The feature named `f` was detected.
pub open spec fn spec_has_feature(t: TargetMachine, f: Seq<char>) -> bool {
    exists|i: int| 0 <= i < t.cpu_features@.len() && #[trigger] t.cpu_features@[i]@ == f
}

/// The wide-SIMD feature the vectorized emitters key on.
pub open spec fn spec_has_wide_simd(t: TargetMachine) -> bool {
    spec_has_feature(t, "avx2"@)
}

/// String-slice equality, settled through owned strings.
pub fn str_eq(a: &str, b: &str) -> (r: bool)
    ensures
        r == (a@ == b@),
{
    let oa = a.to_owned();
    let ob = b.to_owned();
    oa.eq(&ob)
}

/// Whether the feature list holds the given name.
pub fn has_feature(features: &Vec<String>, name: &str) -> (r: bool)
    ensures
        r == exists|i: int| 0 <= i < features@.len() && #[trigger] features@[i]@ == name@,
{
    let mut i: usize = 0;
    while i < features.len()
        invariant
            0 <= i <= features@.len(),
            forall|j: int| 0 <= j < i ==> #[trigger] features@[j]@ != name@,
        decreases features@.len() - i,
    {
        if str_eq(features[i].as_str(), name) {
            return true;
        }
        i = i + 1;
    }
    false
}

/// The triple for a known (operating system, architecture) pair, and the
/// "unknown" sentinel for every other pair. Never empty.
pub open spec fn spec_triple(os: Seq<char>, arch: Seq<char>) -> Seq<char> {
    if os == "linux"@ && arch == "x86_64"@ {
        "x86_64-unknown-linux-gnu"@
    } else if os == "linux"@ && arch == "aarch64"@ {
        "aarch64-unknown-linux-gnu"@
    } else if os == "macos"@ && arch == "x86_64"@ {
        "x86_64-apple-darwin"@
    } else if os == "macos"@ && arch == "aarch64"@ {
        "aarch64-apple-darwin"@
    } else if os == "windows"@ && arch == "x86_64"@ {
        "x86_64-pc-windows-msvc"@
    } else {
        "unknown"@
    }
}

/// Detection can never yield an empty triple: every entry of the static
/// table is non-empty, and the fallback is the non-empty "unknown".
pub proof fn lemma_triple_never_empty(os: Seq<char>, arch: Seq<char>)
    ensures
        spec_triple(os, arch).len() > 0,
{
    reveal_strlit("x86_64-unknown-linux-gnu");
    reveal_strlit("aarch64-unknown-linux-gnu");
    reveal_strlit("x86_64-apple-darwin");
    reveal_strlit("aarch64-apple-darwin");
    reveal_strlit("x86_64-pc-windows-msvc");
    reveal_strlit("unknown");
}

/// Maps an (operating system, architecture) pair to its triple through the
/// static table, falling back to "unknown"; the result is never empty.
pub fn get_target_triple(os: &str, arch: &str) -> (r: String)
    ensures
        r@ == spec_triple(os@, arch@),
        r@.len() > 0,
{
    proof {
        lemma_triple_never_empty(os@, arch@);
    }
    let on_linux = str_eq(os, "linux");
    let on_macos = str_eq(os, "macos");
    let on_windows = str_eq(os, "windows");
    let on_x86_64 = str_eq(arch, "x86_64");
    let on_aarch64 = str_eq(arch, "aarch64");
    if on_linux && on_x86_64 {
        "x86_64-unknown-linux-gnu".to_owned()
    } else if on_linux && on_aarch64 {
        "aarch64-unknown-linux-gnu".to_owned()
    } else if on_macos && on_x86_64 {
        "x86_64-apple-darwin".to_owned()
    } else if on_macos && on_aarch64 {
        "aarch64-apple-darwin".to_owned()
    } else if on_windows && on_x86_64 {
        "x86_64-pc-windows-msvc".to_owned()
    } else {
        "unknown".to_owned()
    }
}

/// The feature names present for the given probe results, in detection
/// order: avx2, fma, bmi2 on the x86 family, then neon on the ARM family.
pub open spec fn spec_features(avx2: bool, fma: bool, bmi2: bool, neon: bool) -> Seq<Seq<char>> {
    (if avx2 {
        seq!["avx2"@]
    } else {
        Seq::empty()
    }) + (if fma {
        seq!["fma"@]
    } else {
        Seq::empty()
    }) + (if bmi2 {
        seq!["bmi2"@]
    } else {
        Seq::empty()
    }) + (if neon {
        seq!["neon"@]
    } else {
        Seq::empty()
    })
}

/// The optimizer hints implied by the probe results: avx2 enables
/// vectorize-loops and slp-vectorize, fma enables fuse-multiply-add, and
/// neon enables vectorize-loops. No hint appears without its feature.
pub open spec fn spec_hints(avx2: bool, fma: bool, neon: bool) -> Seq<Seq<char>> {
    (if avx2 {
        seq!["vectorize-loops"@, "slp-vectorize"@]
    } else {
        Seq::empty()
    }) + (if fma {
        seq!["fuse-multiply-add"@]
    } else {
        Seq::empty()
    }) + (if neon {
        seq!["vectorize-loops"@]
    } else {
        Seq::empty()
    })
}

impl TargetMachine {
    /// Builds the descriptor from the outcome of host probes: the
    /// operating-system and architecture names and one flag per feature
    /// the architecture family can report. Detection never fails; with
    /// every flag false the feature set is empty, and an unrecognized
    /// pair of names yields the "unknown" triple.
    pub fn from_probes(os: &str, arch: &str, avx2: bool, fma: bool, bmi2: bool, neon: bool) -> (t:
        TargetMachine)
        ensures
            feature_views(t.cpu_features@) == spec_features(avx2, fma, bmi2, neon),
            feature_views(t.optimization_features@) == spec_hints(avx2, fma, neon),
            t.target_triple@ == spec_triple(os@, arch@),
            t.target_triple@.len() > 0,
            spec_has_wide_simd(t) == avx2,
    {
        let mut cpu_features: Vec<String> = Vec::new();
        let mut optimization_features: Vec<String> = Vec::new();
        if avx2 {
            cpu_features.push("avx2".to_owned());
            optimization_features.push("vectorize-loops".to_owned());
            optimization_features.push("slp-vectorize".to_owned());
        }
        if fma {
            cpu_features.push("fma".to_owned());
            optimization_features.push("fuse-multiply-add".to_owned());
        }
        if bmi2 {
            cpu_features.push("bmi2".to_owned());
        }
        if neon {
            cpu_features.push("neon".to_owned());
            optimization_features.push("vectorize-loops".to_owned());
        }
        let t = TargetMachine {
            cpu_features,
            target_triple: get_target_triple(os, arch),
            optimization_features,
        };
        proof {
            assert(feature_views(t.cpu_features@) =~= spec_features(avx2, fma, bmi2, neon));
            assert(feature_views(t.optimization_features@) =~= spec_hints(avx2, fma, neon));
            lemma_wide_simd_from_probes(t, avx2, fma, bmi2, neon);
        }
        t
    }
}

/// With the feature list built by `from_probes`, the wide-SIMD feature is
/// present exactly when the avx2 probe was.
proof fn lemma_wide_simd_from_probes(t: TargetMachine, avx2: bool, fma: bool, bmi2: bool, neon: bool)
    requires
        feature_views(t.cpu_features@) == spec_features(avx2, fma, bmi2, neon),
    ensures
        spec_has_wide_simd(t) == avx2,
{
    reveal_strlit("avx2");
    reveal_strlit("fma");
    reveal_strlit("bmi2");
    reveal_strlit("neon");
    let fs = spec_features(avx2, fma, bmi2, neon);
    if avx2 {
        assert(fs[0] == "avx2"@);
        assert(t.cpu_features@[0]@ == "avx2"@);
    } else {
        assert forall|i: int| 0 <= i < fs.len() implies #[trigger] fs[i] != "avx2"@ by {
            reveal_strlit("avx2");
            reveal_strlit("fma");
            reveal_strlit("bmi2");
            reveal_strlit("neon");
            assert("fma"@.len() == 3 && "avx2"@.len() == 4 && "bmi2"@.len() == 4 && "neon"@.len()
                == 4);
            assert("fma"@ != "avx2"@);
            assert("bmi2"@[0] != "avx2"@[0]);
            assert("bmi2"@ != "avx2"@);
            assert("neon"@[0] != "avx2"@[0]);
            assert("neon"@ != "avx2"@);
            assert(fs[i] == "fma"@ || fs[i] == "bmi2"@ || fs[i] == "neon"@);
        }
        assert(forall|i: int|
            0 <= i < t.cpu_features@.len() ==> #[trigger] t.cpu_features@[i]@ == fs[i]);
    }
}

} // verus!
