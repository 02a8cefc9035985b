//! The code generator: lowers a kernel description to a textual
//! intermediate-representation module for a given target machine. Every
//! emitter's output is pinned exactly, as a function of the kernel, the
//! generated name, and the target's feature set.

use crate::target::spec_has_wide_simd;
use crate::target::TargetMachine;
use crate::target::feature_views;
use crate::target::has_feature;
use crate::text::char_free;
use crate::text::digits_of;
use crate::text::pair_free;
use crate::text::join_strings;
use crate::text::join_texts;
use crate::text::lemma_contains_extend;
use crate::text::lemma_contains_mid;
use crate::text::text_contains;
use crate::text::u64_to_string;
use crate::text::usize_to_string;
use crate::types::spec_type_text;
use crate::types::type_to_llvm;
use crate::types::FunctionSignature;
use vstd::prelude::*;

verus! {

/// A kernel to compile: the operation and the signature it is exposed under.
#[derive(Debug)]
pub struct JitCode {
    pub signature: FunctionSignature,
    pub operation: JitOperation,
}

/// The operation a kernel performs. Sizes are meaningful when positive.
#[derive(Debug)]
pub enum JitOperation {
    VectorAdd { size: usize },
    MatrixMultiply { m: usize, n: usize, k: usize },
    ConvolutionLayer { input_channels: usize, output_channels: usize, kernel_size: usize },
    CustomKernel { instructions: Vec<JitInstruction> },
}

/// One instruction of a custom kernel: an opcode and its operands,
/// concatenated verbatim into the body (no legality validation here).
#[derive(Debug)]
pub struct JitInstruction {
    pub opcode: String,
    pub operands: Vec<String>,
}

/// The return statement that terminates every emitted body.
pub open spec fn ret_void_text() -> Seq<char> {
    "  ret void\n"@
}

/// The number of elements one vectorized iteration processes.
pub const LANE_WIDTH: usize = 8;

/// What precedes the vectorized loop's label.
pub open spec fn vector_loop_head() -> Seq<char> {
    "  ; Vectorized loop using AVX2\n  br label %vector_loop\n\n"@
}

/// The vectorized loop's label: the marker of the vectorized path.
pub open spec fn vector_loop_marker() -> Seq<char> {
    "vector_loop:"@
}

/// The vectorized loop's block, after its label: one lane-wide
/// load-add-store per buffer, over `chunks` iterations. Ends just before
/// the name of the label that follows the loop.
pub open spec fn vector_loop_tail(chunks: nat) -> Seq<char> {
    "\n  %i.vec = phi i64 [ 0, %entry ], [ %i.vec.next, %vector_loop ]\n  %a.vec.ptr = getelementptr <8 x float>, <8 x float>* %arg0, i64 %i.vec\n  %b.vec.ptr = getelementptr <8 x float>, <8 x float>* %arg1, i64 %i.vec\n  %result.vec.ptr = getelementptr <8 x float>, <8 x float>* %arg2, i64 %i.vec\n  %a.vec = load <8 x float>, <8 x float>* %a.vec.ptr\n  %b.vec = load <8 x float>, <8 x float>* %b.vec.ptr\n  %sum.vec = fadd <8 x float> %a.vec, %b.vec\n  store <8 x float> %sum.vec, <8 x float>* %result.vec.ptr\n  %i.vec.next = add i64 %i.vec, 1\n  %cond.vec = icmp slt i64 %i.vec.next, "@
        + digits_of(chunks) + "\n  br i1 %cond.vec, label %vector_loop, label %"@
}

/// The vectorized loop over whole lanes, up to the name of the label
/// that follows it.
pub open spec fn vector_loop_prefix(chunks: nat) -> Seq<char> {
    vector_loop_head() + vector_loop_marker() + vector_loop_tail(chunks)
}

/// The scalar cleanup loop's label: the marker of the cleanup path.
pub open spec fn cleanup_marker() -> Seq<char> {
    "scalar_cleanup:"@
}

/// The scalar cleanup loop's block, after its label: starts at the first
/// element the vectorized loop did not cover and runs to `size`.
pub open spec fn cleanup_tail(chunks: nat, size: nat) -> Seq<char> {
    "\n  %start.scalar = mul i64 "@ + digits_of(chunks)
        + ", 8\n  br label %scalar_loop\n\nscalar_loop:\n  %i.scalar = phi i64 [ %start.scalar, %scalar_cleanup ], [ %i.scalar.next, %scalar_loop ]\n  %a.ptr.s = getelementptr float, float* %arg0, i64 %i.scalar\n  %b.ptr.s = getelementptr float, float* %arg1, i64 %i.scalar\n  %result.ptr.s = getelementptr float, float* %arg2, i64 %i.scalar\n  %a.val.s = load float, float* %a.ptr.s\n  %b.val.s = load float, float* %b.ptr.s\n  %sum.s = fadd float %a.val.s, %b.val.s\n  store float %sum.s, float* %result.ptr.s\n  %i.scalar.next = add i64 %i.scalar, 1\n  %cond.scalar = icmp slt i64 %i.scalar.next, "@
        + digits_of(size) + "\n  br i1 %cond.scalar, label %scalar_loop, label %cleanup_done\n\ncleanup_done:\n"@
}

/// The scalar cleanup loop for the remainder elements.
pub open spec fn cleanup_text(chunks: nat, size: nat) -> Seq<char> {
    cleanup_marker() + cleanup_tail(chunks, size)
}

/// What precedes the scalar loop's label.
pub open spec fn scalar_loop_head() -> Seq<char> {
    "\n  br label %loop\n\n"@
}

/// The scalar loop's label: the marker of the scalar path.
pub open spec fn scalar_loop_marker() -> Seq<char> {
    "loop:"@
}

/// The scalar loop's block, after its label: one element per iteration
/// over all `size` elements, parameterized by the binary operation.
pub open spec fn scalar_loop_tail(op: Seq<char>, size: nat) -> Seq<char> {
    "\n  %i = phi i64 [ 0, %entry ], [ %i.next, %loop ]\n  %a.ptr = getelementptr float, float* %arg0, i64 %i\n  %b.ptr = getelementptr float, float* %arg1, i64 %i\n  %result.ptr = getelementptr float, float* %arg2, i64 %i\n  %a.val = load float, float* %a.ptr\n  %b.val = load float, float* %b.ptr\n  %result.val = "@
        + op
        + " %a.val, %b.val\n  store float %result.val, float* %result.ptr\n  %i.next = add i64 %i, 1\n  %cond = icmp slt i64 %i.next, "@
        + digits_of(size) + "\n  br i1 %cond, label %loop, label %exit\n\nexit:\n"@
}

/// The elementwise scalar loop over all `size` elements: the canonical
/// template for elementwise kernels.
pub open spec fn scalar_loop_text(op: Seq<char>, size: nat) -> Seq<char> {
    scalar_loop_head() + scalar_loop_marker() + scalar_loop_tail(op, size)
}

/// The body of a vector-add kernel. With the wide-SIMD feature and at
/// least one full lane, a vectorized loop over `size / 8` lanes, followed
/// by a scalar cleanup loop exactly when `size % 8` elements remain;
/// otherwise a single scalar loop over all elements. Always terminated by
/// a return.
pub open spec fn spec_vector_add_text(wide: bool, size: nat) -> Seq<char> {
    if wide && size >= 8 {
        if size % 8 != 0 {
            vector_loop_prefix(size / 8) + "scalar_cleanup\n\n"@ + cleanup_text(size / 8, size)
                + ret_void_text()
        } else {
            vector_loop_prefix(size / 8) + "vector_done\n\nvector_done:\n"@ + ret_void_text()
        }
    } else {
        scalar_loop_text("fadd float"@, size) + ret_void_text()
    }
}

/// The cache-blocking tile size: a larger tile when the wide-SIMD feature
/// is available, a smaller one otherwise.
pub open spec fn spec_block_size(wide: bool) -> nat {
    if wide {
        64
    } else {
        32
    }
}

/// The body of a matrix-multiply kernel: a complete two-level blocked
/// loop nest over the output's row and column blocks in steps of the
/// block size. The innermost accumulation over `k` and the per-block
/// flush are structural placeholders.
pub open spec fn spec_matmul_text(wide: bool, m: nat, n: nat, k: nat) -> Seq<char> {
    "  ; Blocked matrix multiply "@ + digits_of(m) + "x"@ + digits_of(n) + "x"@ + digits_of(k)
        + "\n  ; Using cache-friendly blocking for optimal memory access\n  br label %block_i_loop\n\nblock_i_loop:\n  %bi = phi i64 [ 0, %entry ], [ %bi.next, %block_i_inc ]\n  br label %block_j_loop\n\nblock_j_loop:\n  %bj = phi i64 [ 0, %block_i_loop ], [ %bj.next, %block_j_inc ]\n  ; accumulation over k and the per-block flush are structural placeholders\n  br label %block_j_inc\n\nblock_j_inc:\n  %bj.next = add i64 %bj, "@
        + digits_of(spec_block_size(wide)) + "\n  %cond.bj = icmp slt i64 %bj.next, "@ + digits_of(
        n,
    ) + "\n  br i1 %cond.bj, label %block_j_loop, label %block_i_inc\n\nblock_i_inc:\n  %bi.next = add i64 %bi, "@
        + digits_of(spec_block_size(wide)) + "\n  %cond.bi = icmp slt i64 %bi.next, "@ + digits_of(
        m,
    ) + "\n  br i1 %cond.bi, label %block_i_loop, label %blocks_done\n\nblocks_done:\n"@
        + ret_void_text()
}

/// The body of a convolution kernel: a structurally valid placeholder
/// that performs no numeric work, terminated by a return.
pub open spec fn conv_text() -> Seq<char> {
    "  ; Optimized convolution using SIMD and loop unrolling\n  ; structural placeholder: the body performs no numeric work\n"@
        + ret_void_text()
}

/// One custom instruction as a body line: two spaces, the opcode, then,
/// if there are operands, a space and the operands joined by ", ".
pub open spec fn instruction_text(inst: JitInstruction) -> Seq<char> {
    "  "@ + inst.opcode@ + (if inst.operands@.len() == 0 {
        Seq::<char>::empty()
    } else {
        " "@ + join_texts(inst.operands@.map_values(|s: String| s@), ", "@)
    }) + "\n"@
}

/// The body lines of a custom kernel, one per instruction, in order.
pub open spec fn instructions_text(insts: Seq<JitInstruction>) -> Seq<char>
    decreases insts.len(),
{
    if insts.len() == 0 {
        Seq::empty()
    } else {
        instruction_text(insts[0]) + instructions_text(insts.drop_first())
    }
}

/// Appending an instruction appends its line.
pub proof fn lemma_instructions_push(insts: Seq<JitInstruction>, x: JitInstruction)
    ensures
        instructions_text(insts.push(x)) == instructions_text(insts) + instruction_text(x),
    decreases insts.len(),
{
    if insts.len() == 0 {
        assert(insts.push(x).len() == 1);
        assert(insts.push(x)[0] == x);
        assert(insts.push(x).drop_first() =~= Seq::<JitInstruction>::empty());
        assert(instructions_text(Seq::<JitInstruction>::empty()) == Seq::<char>::empty());
        assert(instructions_text(insts.push(x)) =~= instructions_text(insts) + instruction_text(
            x,
        ));
    } else {
        assert(insts.push(x)[0] == insts[0]);
        assert(insts.push(x).drop_first() =~= insts.drop_first().push(x));
        lemma_instructions_push(insts.drop_first(), x);
        assert(instructions_text(insts.push(x)) =~= instructions_text(insts) + instruction_text(
            x,
        ));
    }
}

/// One parameter declaration: its translated type and its positional name.
pub open spec fn param_decl(i: nat, t: crate::types::JitType) -> Seq<char> {
    spec_type_text(t) + " %arg"@ + digits_of(i)
}

/// The parameter list: declarations in order, joined by ", ".
pub open spec fn params_text(ps: Seq<crate::types::JitType>) -> Seq<char> {
    join_texts(ps.map(|i: int, t: crate::types::JitType| param_decl(i as nat, t)), ", "@)
}

/// The attribute-set line listing the detected features, joined by
/// commas; omitted entirely when no feature was detected.
pub open spec fn attr_text(features: Seq<Seq<char>>) -> Seq<char> {
    if features.len() == 0 {
        Seq::empty()
    } else {
        "attributes #0 = { \"target-features\"=\""@ + join_texts(features, ","@) + "\" }\n"@
    }
}

/// The module header: the target triple line, then the attribute line.
pub open spec fn module_header_text(t: TargetMachine) -> Seq<char> {
    "target triple = \""@ + t.target_triple@ + "\"\n"@ + attr_text(feature_views(t.cpu_features@))
}

/// The function definition line and entry label.
pub open spec fn define_text(sig: FunctionSignature, name: Seq<char>) -> Seq<char> {
    "define "@ + spec_type_text(sig.return_type) + " @"@ + name + "("@ + params_text(
        sig.parameters@,
    ) + ") {\nentry:\n"@
}

/// The operation-specific body.
pub open spec fn spec_body_text(t: TargetMachine, op: JitOperation) -> Seq<char> {
    match op {
        JitOperation::VectorAdd { size } => spec_vector_add_text(
            spec_has_wide_simd(t),
            size as nat,
        ),
        JitOperation::MatrixMultiply { m, n, k } => spec_matmul_text(
            spec_has_wide_simd(t),
            m as nat,
            n as nat,
            k as nat,
        ),
        JitOperation::ConvolutionLayer { .. } => conv_text(),
        JitOperation::CustomKernel { instructions } => instructions_text(instructions@)
            + ret_void_text(),
    }
}

/// The whole module: header, definition line, body, closing brace.
pub open spec fn spec_module_text(t: TargetMachine, code: JitCode, name: Seq<char>) -> Seq<char> {
    module_header_text(t) + define_text(code.signature, name) + spec_body_text(t, code.operation)
        + "}\n"@
}

/// Emits the vectorized whole-lane loop, up to the label that follows it.
fn emit_vector_loop_prefix(chunks: usize) -> (r: String)
    ensures
        r@ == vector_loop_prefix(chunks as nat),
{
    let mut ir = "  ; Vectorized loop using AVX2\n  br label %vector_loop\n\n".to_owned();
    ir.append("vector_loop:");
    ir.append(
        "\n  %i.vec = phi i64 [ 0, %entry ], [ %i.vec.next, %vector_loop ]\n  %a.vec.ptr = getelementptr <8 x float>, <8 x float>* %arg0, i64 %i.vec\n  %b.vec.ptr = getelementptr <8 x float>, <8 x float>* %arg1, i64 %i.vec\n  %result.vec.ptr = getelementptr <8 x float>, <8 x float>* %arg2, i64 %i.vec\n  %a.vec = load <8 x float>, <8 x float>* %a.vec.ptr\n  %b.vec = load <8 x float>, <8 x float>* %b.vec.ptr\n  %sum.vec = fadd <8 x float> %a.vec, %b.vec\n  store <8 x float> %sum.vec, <8 x float>* %result.vec.ptr\n  %i.vec.next = add i64 %i.vec, 1\n  %cond.vec = icmp slt i64 %i.vec.next, ",
    );
    ir.append(usize_to_string(chunks).as_str());
    ir.append("\n  br i1 %cond.vec, label %vector_loop, label %");
    proof {
        assert(ir@ =~= vector_loop_prefix(chunks as nat));
    }
    ir
}

/// Emits the scalar cleanup loop for the remainder elements.
fn emit_cleanup(chunks: usize, size: usize) -> (r: String)
    ensures
        r@ == cleanup_text(chunks as nat, size as nat),
{
    let mut ir = "scalar_cleanup:".to_owned();
    ir.append("\n  %start.scalar = mul i64 ");
    ir.append(usize_to_string(chunks).as_str());
    ir.append(
        ", 8\n  br label %scalar_loop\n\nscalar_loop:\n  %i.scalar = phi i64 [ %start.scalar, %scalar_cleanup ], [ %i.scalar.next, %scalar_loop ]\n  %a.ptr.s = getelementptr float, float* %arg0, i64 %i.scalar\n  %b.ptr.s = getelementptr float, float* %arg1, i64 %i.scalar\n  %result.ptr.s = getelementptr float, float* %arg2, i64 %i.scalar\n  %a.val.s = load float, float* %a.ptr.s\n  %b.val.s = load float, float* %b.ptr.s\n  %sum.s = fadd float %a.val.s, %b.val.s\n  store float %sum.s, float* %result.ptr.s\n  %i.scalar.next = add i64 %i.scalar, 1\n  %cond.scalar = icmp slt i64 %i.scalar.next, ",
    );
    ir.append(usize_to_string(size).as_str());
    ir.append("\n  br i1 %cond.scalar, label %scalar_loop, label %cleanup_done\n\ncleanup_done:\n");
    proof {
        assert(ir@ =~= cleanup_text(chunks as nat, size as nat));
    }
    ir
}

/// Emits the elementwise scalar loop for the given operation and bound.
pub fn emit_scalar_loop(operation: &str, size: usize) -> (r: String)
    ensures
        r@ == scalar_loop_text(operation@, size as nat),
{
    let mut ir = "\n  br label %loop\n\n".to_owned();
    ir.append("loop:");
    ir.append(
        "\n  %i = phi i64 [ 0, %entry ], [ %i.next, %loop ]\n  %a.ptr = getelementptr float, float* %arg0, i64 %i\n  %b.ptr = getelementptr float, float* %arg1, i64 %i\n  %result.ptr = getelementptr float, float* %arg2, i64 %i\n  %a.val = load float, float* %a.ptr\n  %b.val = load float, float* %b.ptr\n  %result.val = ",
    );
    ir.append(operation);
    ir.append(
        " %a.val, %b.val\n  store float %result.val, float* %result.ptr\n  %i.next = add i64 %i, 1\n  %cond = icmp slt i64 %i.next, ",
    );
    ir.append(usize_to_string(size).as_str());
    ir.append("\n  br i1 %cond, label %loop, label %exit\n\nexit:\n");
    proof {
        assert(ir@ =~= scalar_loop_text(operation@, size as nat));
    }
    ir
}

/// Emits the vector-add body for the given feature availability and size.
pub fn emit_vector_add(wide: bool, size: usize) -> (r: String)
    ensures
        r@ == spec_vector_add_text(wide, size as nat),
{
    if wide && size >= LANE_WIDTH {
        let chunks = size / LANE_WIDTH;
        let remainder = size % LANE_WIDTH;
        let mut ir = emit_vector_loop_prefix(chunks);
        if remainder != 0 {
            ir.append("scalar_cleanup\n\n");
            ir.append(emit_cleanup(chunks, size).as_str());
        } else {
            ir.append("vector_done\n\nvector_done:\n");
        }
        ir.append("  ret void\n");
        proof {
            assert(ir@ =~= spec_vector_add_text(wide, size as nat));
        }
        ir
    } else {
        let mut ir = emit_scalar_loop("fadd float", size);
        ir.append("  ret void\n");
        ir
    }
}

/// Emits the blocked matrix-multiply body.
pub fn emit_matrix_multiply(wide: bool, m: usize, n: usize, k: usize) -> (r: String)
    ensures
        r@ == spec_matmul_text(wide, m as nat, n as nat, k as nat),
{
    let block: u64 = if wide {
        64
    } else {
        32
    };
    let mut ir = "  ; Blocked matrix multiply ".to_owned();
    ir.append(usize_to_string(m).as_str());
    ir.append("x");
    ir.append(usize_to_string(n).as_str());
    ir.append("x");
    ir.append(usize_to_string(k).as_str());
    ir.append(
        "\n  ; Using cache-friendly blocking for optimal memory access\n  br label %block_i_loop\n\nblock_i_loop:\n  %bi = phi i64 [ 0, %entry ], [ %bi.next, %block_i_inc ]\n  br label %block_j_loop\n\nblock_j_loop:\n  %bj = phi i64 [ 0, %block_i_loop ], [ %bj.next, %block_j_inc ]\n  ; accumulation over k and the per-block flush are structural placeholders\n  br label %block_j_inc\n\nblock_j_inc:\n  %bj.next = add i64 %bj, ",
    );
    ir.append(u64_to_string(block).as_str());
    ir.append("\n  %cond.bj = icmp slt i64 %bj.next, ");
    ir.append(usize_to_string(n).as_str());
    ir.append(
        "\n  br i1 %cond.bj, label %block_j_loop, label %block_i_inc\n\nblock_i_inc:\n  %bi.next = add i64 %bi, ",
    );
    ir.append(u64_to_string(block).as_str());
    ir.append("\n  %cond.bi = icmp slt i64 %bi.next, ");
    ir.append(usize_to_string(m).as_str());
    ir.append("\n  br i1 %cond.bi, label %block_i_loop, label %blocks_done\n\nblocks_done:\n");
    ir.append("  ret void\n");
    proof {
        assert(ir@ =~= spec_matmul_text(wide, m as nat, n as nat, k as nat));
    }
    ir
}

/// Emits the convolution placeholder body.
pub fn emit_convolution() -> (r: String)
    ensures
        r@ == conv_text(),
{
    let mut ir =
        "  ; Optimized convolution using SIMD and loop unrolling\n  ; structural placeholder: the body performs no numeric work\n".to_owned();
    ir.append("  ret void\n");
    ir
}

/// Emits one custom instruction as a body line.
pub fn emit_instruction(inst: &JitInstruction) -> (r: String)
    ensures
        r@ == instruction_text(*inst),
{
    let mut ir = "  ".to_owned();
    ir.append(inst.opcode.as_str());
    if inst.operands.len() > 0 {
        ir.append(" ");
        ir.append(join_strings(&inst.operands, ", ").as_str());
    }
    ir.append("\n");
    proof {
        assert(ir@ =~= instruction_text(*inst));
    }
    ir
}

/// Emits the body of a custom kernel: the instruction lines in order,
/// terminated by a return.
pub fn emit_custom_kernel(instructions: &Vec<JitInstruction>) -> (r: String)
    ensures
        r@ == instructions_text(instructions@) + ret_void_text(),
{
    let mut ir = String::new();
    let mut i: usize = 0;
    while i < instructions.len()
        invariant
            0 <= i <= instructions@.len(),
            ir@ == instructions_text(instructions@.take(i as int)),
        decreases instructions@.len() - i,
    {
        ir.append(emit_instruction(&instructions[i]).as_str());
        proof {
            assert(instructions@.take(i + 1 as int) =~= instructions@.take(i as int).push(
                instructions@[i as int],
            ));
            lemma_instructions_push(instructions@.take(i as int), instructions@[i as int]);
        }
        i = i + 1;
    }
    proof {
        assert(instructions@.take(instructions@.len() as int) =~= instructions@);
    }
    ir.append("  ret void\n");
    ir
}

/// Emits the parameter list of the definition line.
fn emit_params(params: &Vec<crate::types::JitType>) -> (r: String)
    ensures
        r@ == params_text(params@),
{
    let ghost decls = params@.map(
        |i: int, t: crate::types::JitType| param_decl(i as nat, t),
    );
    let mut out: Vec<String> = Vec::new();
    let mut i: usize = 0;
    while i < params.len()
        invariant
            0 <= i <= params@.len(),
            out@.len() == i,
            decls == params@.map(|j: int, t: crate::types::JitType| param_decl(j as nat, t)),
            forall|j: int| 0 <= j < i ==> #[trigger] out@[j]@ == decls[j],
        decreases params@.len() - i,
    {
        let mut d = type_to_llvm(&params[i]);
        d.append(" %arg");
        d.append(usize_to_string(i).as_str());
        out.push(d);
        i = i + 1;
    }
    let r = join_strings(&out, ", ");
    proof {
        assert(out@.map_values(|s: String| s@) =~= decls);
    }
    r
}

/// Emits the whole module for a kernel under the generated name: the
/// target triple line, the attribute line when features were detected,
/// and one function definition whose body follows the per-operation
/// emission policy for this target.
pub fn emit_module(target: &TargetMachine, code: &JitCode, function_name: &str) -> (r: String)
    ensures
        r@ == spec_module_text(*target, *code, function_name@),
{
    let mut ir = "target triple = \"".to_owned();
    ir.append(target.target_triple.as_str());
    ir.append("\"\n");
    if target.cpu_features.len() > 0 {
        ir.append("attributes #0 = { \"target-features\"=\"");
        ir.append(join_strings(&target.cpu_features, ",").as_str());
        ir.append("\" }\n");
    }
    proof {
        assert(ir@ =~= module_header_text(*target));
    }
    ir.append("define ");
    ir.append(type_to_llvm(&code.signature.return_type).as_str());
    ir.append(" @");
    ir.append(function_name);
    ir.append("(");
    ir.append(emit_params(&code.signature.parameters).as_str());
    ir.append(") {\nentry:\n");
    proof {
        assert(ir@ =~= module_header_text(*target) + define_text(
            code.signature,
            function_name@,
        ));
    }
    let wide = has_feature(&target.cpu_features, "avx2");
    proof {
        assert(wide == spec_has_wide_simd(*target));
    }
    match &code.operation {
        JitOperation::VectorAdd { size } => {
            ir.append(emit_vector_add(wide, *size).as_str());
        },
        JitOperation::MatrixMultiply { m, n, k } => {
            ir.append(emit_matrix_multiply(wide, *m, *n, *k).as_str());
        },
        JitOperation::ConvolutionLayer { .. } => {
            ir.append(emit_convolution().as_str());
        },
        JitOperation::CustomKernel { instructions } => {
            ir.append(emit_custom_kernel(instructions).as_str());
        },
    }
    ir.append("}\n");
    proof {
        assert(ir@ =~= spec_module_text(*target, *code, function_name@));
    }
    ir
}

/// The vectorized loop's block is free of the pattern that opens the
/// cleanup label (an underscore followed by 'c'): its underscores are
/// followed by 'l', and a lane count holds digits only.
proof fn lemma_vector_tail_pattern_free(c: nat)
    ensures
        pair_free(vector_loop_tail(c), '_', 'c'),
        vector_loop_tail(c).len() > 0,
        vector_loop_tail(c)[0] == '\n',
        vector_loop_tail(c).last() == '%',
{
    let big =
        "\n  %i.vec = phi i64 [ 0, %entry ], [ %i.vec.next, %vector_loop ]\n  %a.vec.ptr = getelementptr <8 x float>, <8 x float>* %arg0, i64 %i.vec\n  %b.vec.ptr = getelementptr <8 x float>, <8 x float>* %arg1, i64 %i.vec\n  %result.vec.ptr = getelementptr <8 x float>, <8 x float>* %arg2, i64 %i.vec\n  %a.vec = load <8 x float>, <8 x float>* %a.vec.ptr\n  %b.vec = load <8 x float>, <8 x float>* %b.vec.ptr\n  %sum.vec = fadd <8 x float> %a.vec, %b.vec\n  store <8 x float> %sum.vec, <8 x float>* %result.vec.ptr\n  %i.vec.next = add i64 %i.vec, 1\n  %cond.vec = icmp slt i64 %i.vec.next, "@;
    let tail = "\n  br i1 %cond.vec, label %vector_loop, label %"@;
    reveal_strlit(
        "\n  %i.vec = phi i64 [ 0, %entry ], [ %i.vec.next, %vector_loop ]\n  %a.vec.ptr = getelementptr <8 x float>, <8 x float>* %arg0, i64 %i.vec\n  %b.vec.ptr = getelementptr <8 x float>, <8 x float>* %arg1, i64 %i.vec\n  %result.vec.ptr = getelementptr <8 x float>, <8 x float>* %arg2, i64 %i.vec\n  %a.vec = load <8 x float>, <8 x float>* %a.vec.ptr\n  %b.vec = load <8 x float>, <8 x float>* %b.vec.ptr\n  %sum.vec = fadd <8 x float> %a.vec, %b.vec\n  store <8 x float> %sum.vec, <8 x float>* %result.vec.ptr\n  %i.vec.next = add i64 %i.vec, 1\n  %cond.vec = icmp slt i64 %i.vec.next, ",
    );
    reveal_strlit("\n  br i1 %cond.vec, label %vector_loop, label %");
    let d = digits_of(c);
    crate::text::lemma_digits_chars(c);
    crate::text::lemma_digits_len(c);
    crate::text::lemma_digits_char_free(c, '_');
    crate::text::lemma_char_free_pair_free(d, '_', 'c');
    assert(pair_free(big, '_', 'c'));
    assert(pair_free(tail, '_', 'c'));
    assert(big.last() != '_');
    crate::text::lemma_pair_free_concat(big, d, '_', 'c');
    assert((big + d).last() == d.last());
    assert(d.last() != '_');
    crate::text::lemma_pair_free_concat(big + d, tail, '_', 'c');
    assert(vector_loop_tail(c) == big + d + tail);
    assert(vector_loop_tail(c)[0] == big[0]);
    assert(vector_loop_tail(c).last() == tail.last());
}

/// When the lane width divides the size, the emitted vector-add body —
/// the vectorized loop, the closing label, and the return — nowhere
/// carries the cleanup label.
proof fn lemma_no_cleanup_when_exact_multiple(c: nat)
    ensures
        !text_contains(
            vector_loop_prefix(c) + "vector_done\n\nvector_done:\n"@ + ret_void_text(),
            cleanup_marker(),
        ),
{
    let vh = vector_loop_head();
    let vm = vector_loop_marker();
    let vt = vector_loop_tail(c);
    let done = "vector_done\n\nvector_done:\n"@;
    let ret = ret_void_text();
    reveal_strlit("  ; Vectorized loop using AVX2\n  br label %vector_loop\n\n");
    reveal_strlit("vector_loop:");
    reveal_strlit("vector_done\n\nvector_done:\n");
    reveal_strlit("  ret void\n");
    reveal_strlit("scalar_cleanup:");
    lemma_vector_tail_pattern_free(c);
    assert(pair_free(vh, '_', 'c'));
    assert(pair_free(vm, '_', 'c'));
    assert(pair_free(done, '_', 'c'));
    assert(pair_free(ret, '_', 'c'));
    assert(vh.last() != '_');
    crate::text::lemma_pair_free_concat(vh, vm, '_', 'c');
    assert((vh + vm).last() == vm.last());
    assert(vm.last() != '_');
    crate::text::lemma_pair_free_concat(vh + vm, vt, '_', 'c');
    assert(vector_loop_prefix(c) == vh + vm + vt);
    assert((vh + vm + vt).last() == vt.last());
    crate::text::lemma_pair_free_concat(vh + vm + vt, done, '_', 'c');
    assert((vh + vm + vt + done).last() == done.last());
    assert(done.last() != '_');
    crate::text::lemma_pair_free_concat(vh + vm + vt + done, ret, '_', 'c');
    assert(cleanup_marker()[6] == '_');
    assert(cleanup_marker()[7] == 'c');
    crate::text::lemma_pair_free_excludes(
        vh + vm + vt + done + ret,
        cleanup_marker(),
        '_',
        'c',
        6,
    );
    assert(vector_loop_prefix(c) + done + ret == vh + vm + vt + done + ret);
}

/// The scalar loop carries no underscore at all when its operation
/// carries none, so neither vectorized-path label can occur in it.
proof fn lemma_scalar_path_underscore_free(op: Seq<char>, size: nat)
    requires
        char_free(op, '_'),
    ensures
        char_free(scalar_loop_text(op, size) + ret_void_text(), '_'),
{
    let s2 =
        "\n  %i = phi i64 [ 0, %entry ], [ %i.next, %loop ]\n  %a.ptr = getelementptr float, float* %arg0, i64 %i\n  %b.ptr = getelementptr float, float* %arg1, i64 %i\n  %result.ptr = getelementptr float, float* %arg2, i64 %i\n  %a.val = load float, float* %a.ptr\n  %b.val = load float, float* %b.ptr\n  %result.val = "@;
    let s3 =
        " %a.val, %b.val\n  store float %result.val, float* %result.ptr\n  %i.next = add i64 %i, 1\n  %cond = icmp slt i64 %i.next, "@;
    let s4 = "\n  br i1 %cond, label %loop, label %exit\n\nexit:\n"@;
    reveal_strlit(
        "\n  %i = phi i64 [ 0, %entry ], [ %i.next, %loop ]\n  %a.ptr = getelementptr float, float* %arg0, i64 %i\n  %b.ptr = getelementptr float, float* %arg1, i64 %i\n  %result.ptr = getelementptr float, float* %arg2, i64 %i\n  %a.val = load float, float* %a.ptr\n  %b.val = load float, float* %b.ptr\n  %result.val = ",
    );
    reveal_strlit(
        " %a.val, %b.val\n  store float %result.val, float* %result.ptr\n  %i.next = add i64 %i, 1\n  %cond = icmp slt i64 %i.next, ",
    );
    reveal_strlit("\n  br i1 %cond, label %loop, label %exit\n\nexit:\n");
    reveal_strlit("\n  br label %loop\n\n");
    reveal_strlit("loop:");
    reveal_strlit("  ret void\n");
    let d = digits_of(size);
    crate::text::lemma_digits_char_free(size, '_');
    assert(char_free(s2, '_'));
    assert(char_free(s3, '_'));
    assert(char_free(s4, '_'));
    assert(char_free(scalar_loop_head(), '_'));
    assert(char_free(scalar_loop_marker(), '_'));
    assert(char_free(ret_void_text(), '_'));
    crate::text::lemma_char_free_concat(s2, op, '_');
    crate::text::lemma_char_free_concat(s2 + op, s3, '_');
    crate::text::lemma_char_free_concat(s2 + op + s3, d, '_');
    crate::text::lemma_char_free_concat(s2 + op + s3 + d, s4, '_');
    assert(scalar_loop_tail(op, size) == s2 + op + s3 + d + s4);
    crate::text::lemma_char_free_concat(scalar_loop_head(), scalar_loop_marker(), '_');
    crate::text::lemma_char_free_concat(
        scalar_loop_head() + scalar_loop_marker(),
        scalar_loop_tail(op, size),
        '_',
    );
    assert(scalar_loop_text(op, size) == scalar_loop_head() + scalar_loop_marker()
        + scalar_loop_tail(op, size));
    crate::text::lemma_char_free_concat(scalar_loop_text(op, size), ret_void_text(), '_');
}

/// The vector-add body always carries a return statement. With the
/// wide-SIMD feature and at least one full lane it carries the
/// vectorized-loop marker, and it carries the scalar-cleanup marker if
/// and only if the remainder is nonzero. Without the wide-SIMD feature,
/// or below one full lane, the body is exactly the single scalar loop
/// followed by the return — it carries the scalar loop's marker and
/// neither marker of the vectorized path.
pub proof fn lemma_vector_add_markers(wide: bool, size: nat)
    ensures
        text_contains(spec_vector_add_text(wide, size), ret_void_text()),
        wide && size >= 8 ==> text_contains(spec_vector_add_text(wide, size), vector_loop_marker()),
        wide && size >= 8 ==> (text_contains(spec_vector_add_text(wide, size), cleanup_marker())
            <==> size % 8 != 0),
        wide && size >= 8 && size % 8 == 0 ==> spec_vector_add_text(wide, size)
            == vector_loop_prefix(size / 8) + "vector_done\n\nvector_done:\n"@ + ret_void_text(),
        !(wide && size >= 8) ==> spec_vector_add_text(wide, size) == scalar_loop_text(
            "fadd float"@,
            size,
        ) + ret_void_text(),
        !(wide && size >= 8) ==> text_contains(spec_vector_add_text(wide, size), scalar_loop_marker()),
        !(wide && size >= 8) ==> !text_contains(
            spec_vector_add_text(wide, size),
            vector_loop_marker(),
        ) && !text_contains(spec_vector_add_text(wide, size), cleanup_marker()),
{
    let text = spec_vector_add_text(wide, size);
    crate::text::lemma_contains_self(ret_void_text());
    if wide && size >= 8 {
        let c = size / 8;
        if size % 8 != 0 {
            let mid = "scalar_cleanup\n\n"@;
            lemma_contains_extend(
                vector_loop_prefix(c) + mid + cleanup_text(c, size),
                ret_void_text(),
                ret_void_text(),
            );
            lemma_contains_mid(
                vector_loop_head(),
                vector_loop_marker(),
                vector_loop_tail(c) + mid + cleanup_text(c, size) + ret_void_text(),
            );
            assert(text =~= (vector_loop_head() + vector_loop_marker()) + (vector_loop_tail(c)
                + mid + cleanup_text(c, size) + ret_void_text()));
            lemma_contains_mid(
                vector_loop_prefix(c) + mid,
                cleanup_marker(),
                cleanup_tail(c, size) + ret_void_text(),
            );
            assert(text =~= ((vector_loop_prefix(c) + mid) + cleanup_marker()) + (cleanup_tail(
                c,
                size,
            ) + ret_void_text()));
        } else {
            let mid = "vector_done\n\nvector_done:\n"@;
            lemma_contains_extend(
                vector_loop_prefix(c) + mid,
                ret_void_text(),
                ret_void_text(),
            );
            lemma_contains_mid(
                vector_loop_head(),
                vector_loop_marker(),
                vector_loop_tail(c) + mid + ret_void_text(),
            );
            assert(text =~= (vector_loop_head() + vector_loop_marker()) + (vector_loop_tail(c)
                + mid + ret_void_text()));
            lemma_no_cleanup_when_exact_multiple(c);
        }
    } else {
        lemma_contains_extend(
            scalar_loop_text("fadd float"@, size),
            ret_void_text(),
            ret_void_text(),
        );
        lemma_contains_mid(
            scalar_loop_head(),
            scalar_loop_marker(),
            scalar_loop_tail("fadd float"@, size) + ret_void_text(),
        );
        assert(text =~= (scalar_loop_head() + scalar_loop_marker()) + (scalar_loop_tail(
            "fadd float"@,
            size,
        ) + ret_void_text()));
        assert(char_free("fadd float"@, '_')) by {
            reveal_strlit("fadd float");
        }
        lemma_scalar_path_underscore_free("fadd float"@, size);
        assert(vector_loop_marker().len() == 12 && vector_loop_marker()[6] == '_') by {
            reveal_strlit("vector_loop:");
        }
        assert(cleanup_marker().len() == 15 && cleanup_marker()[6] == '_') by {
            reveal_strlit("scalar_cleanup:");
        }
        crate::text::lemma_char_free_excludes(text, vector_loop_marker(), '_', 6);
        crate::text::lemma_char_free_excludes(text, cleanup_marker(), '_', 6);
    }
}

/// The presence half of the vector-add policy, lifted to the whole
/// emitted module: for every vector-add kernel the module carries a
/// return statement; with the wide-SIMD feature and at least one full
/// lane it carries the vectorized-loop marker, and, when the remainder
/// is nonzero, the scalar-cleanup marker. (Absence is a fact about the
/// body alone: a caller-chosen name or triple may spell anything.)
pub proof fn lemma_module_vector_add_markers(
    t: TargetMachine,
    code: JitCode,
    name: Seq<char>,
    sz: usize,
)
    requires
        code.operation == (JitOperation::VectorAdd { size: sz }),
    ensures
        text_contains(spec_module_text(t, code, name), ret_void_text()),
        spec_has_wide_simd(t) && sz >= 8 ==> text_contains(
            spec_module_text(t, code, name),
            vector_loop_marker(),
        ),
        spec_has_wide_simd(t) && sz >= 8 && sz % 8 != 0 ==> text_contains(
            spec_module_text(t, code, name),
            cleanup_marker(),
        ),
        !(spec_has_wide_simd(t) && sz >= 8) ==> text_contains(
            spec_module_text(t, code, name),
            scalar_loop_marker(),
        ),
{
    let wide = spec_has_wide_simd(t);
    let body = spec_body_text(t, code.operation);
    let front = module_header_text(t) + define_text(code.signature, name);
    lemma_vector_add_markers(wide, sz as nat);
    assert(body == spec_vector_add_text(wide, sz as nat));
    lemma_contains_extend(front, body, ret_void_text());
    lemma_contains_extend(front + body, "}\n"@, ret_void_text());
    if wide && sz >= 8 {
        lemma_contains_extend(front, body, vector_loop_marker());
        lemma_contains_extend(front + body, "}\n"@, vector_loop_marker());
        if sz % 8 != 0 {
            lemma_contains_extend(front, body, cleanup_marker());
            lemma_contains_extend(front + body, "}\n"@, cleanup_marker());
        }
    } else {
        lemma_contains_extend(front, body, scalar_loop_marker());
        lemma_contains_extend(front + body, "}\n"@, scalar_loop_marker());
    }
}

} // verus!
