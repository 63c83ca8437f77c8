//! The executor: value stack, label and frame stacks, instruction dispatch,
//! and trap generation.
//!
//! One `step` executes exactly one instruction of the innermost frame and
//! reports what happened as a `Signal`. Structured control flow goes
//! through a per-function jump table computed when a frame is pushed; a
//! branch truncates the value stack to the height its target label saved,
//! preserving exactly the label's arity on top. Every frame always holds
//! one local slot per declared parameter and per declared local.

use vstd::prelude::*;
use crate::address::{ExecutableFuncAddr, FuncAddr, ModuleIndex};
use crate::host::HostContext;
use crate::inst::{BlockType, BrTableData, Instruction, InstructionKind};
use crate::memory::{MAX_PAGES, PAGE_SIZE};
use crate::module::ModuleInstance;
use crate::store::{FunctionInstance, Store};
use crate::trap::Trap;
use crate::value::{ValType, WasmValue};

verus! {

/// The ceiling on call depth; one deeper call traps as stack overflow.
pub const MAX_FRAMES: usize = 1024;

/// An executor failure: a trap defined by WebAssembly, or the discovery
/// that the module was not valid after all.
pub enum ExecError {
    Trap(Trap),
    Invalid(&'static str),
}

/// The per-step outcome, consumed by the dispatch loop.
pub enum Signal {
    Next,
    Jump(usize),
    Call(ExecutableFuncAddr),
    Return,
}

/// A structured-control target: where a branch to it continues, how many
/// values it carries, and the value-stack height it restores.
#[derive(Copy, Clone, PartialEq, Eq, Structural, Debug)]
pub struct Label {
    pub cont: usize,
    pub arity: usize,
    pub height: usize,
}

/// Precomputed targets of one structured-control opener, and of `else`.
#[derive(Copy, Clone, PartialEq, Eq, Structural, Debug)]
pub struct JumpInfo {
    pub end_idx: usize,
    pub else_idx: usize,
    pub has_else: bool,
}

/// A dynamic activation record.
pub struct Frame {
    pub exec_idx: usize,
    pub module_index: ModuleIndex,
    pub locals: Vec<WasmValue>,
    pub arity: usize,
    pub n_params: usize,
    pub n_locals: usize,
    pub height: usize,
    pub labels: Vec<Label>,
    pub pc: usize,
    pub jumps: Vec<JumpInfo>,
}

/// The executor state: the value stack and the frame stack; the program
/// counter is the innermost frame's.
pub struct Executor {
    pub stack: Vec<WasmValue>,
    pub frames: Vec<Frame>,
}

impl Executor {
    /// Every frame holds exactly one local slot per declared parameter and
    /// per declared local.
    pub open spec fn wf(&self) -> bool {
        forall|i: int|
            0 <= i < self.frames@.len() ==> (#[trigger] self.frames@[i]).locals@.len()
                == self.frames@[i].n_params + self.frames@[i].n_locals
    }

    /// Creates an executor with empty stacks.
    pub fn new() -> (e: Self)
        ensures
            e.wf(),
            e.stack@.len() == 0,
            e.frames@.len() == 0,
    {
        Executor { stack: Vec::new(), frames: Vec::new() }
    }

    /// The current call depth.
    pub fn depth(&self) -> (r: usize)
        ensures
            r == self.frames@.len(),
    {
        self.frames.len()
    }
}

/// Pops the top value; fails, changing nothing, exactly on an empty stack.
pub fn pop_any(stack: &mut Vec<WasmValue>) -> (r: Result<WasmValue, ExecError>)
    ensures
        match r {
            Ok(v) => old(stack)@.len() > 0 && v == old(stack)@.last() && final(stack)@ == old(stack)@.drop_last(),
            Err(_) => old(stack)@.len() == 0 && final(stack)@ == old(stack)@,
        },
{
    match stack.pop() {
        Some(v) => Ok(v),
        None => Err(ExecError::Invalid("value stack underflow")),
    }
}

/// Pops a 32-bit integer; fails, changing nothing, when the stack is empty
/// or its top is of another type.
pub fn pop_i32(stack: &mut Vec<WasmValue>) -> (r: Result<i32, ExecError>)
    ensures
        match r {
            Ok(v) => old(stack)@.len() > 0 && old(stack)@.last() == WasmValue::I32(v) && final(stack)@ == old(stack)@.drop_last(),
            Err(_) => final(stack)@ == old(stack)@ && (old(stack)@.len() == 0 || !(old(stack)@.last() is I32)),
        },
{
    if stack.len() == 0 {
        return Err(ExecError::Invalid("value stack underflow"));
    }
    let is_ok = match &stack[stack.len() - 1] {
        WasmValue::I32(_) => true,
        _ => false,
    };
    if !is_ok {
        return Err(ExecError::Invalid("operand is not a 32-bit integer"));
    }
    match stack.pop() {
        Some(WasmValue::I32(v)) => Ok(v),
        _ => Err(ExecError::Invalid("operand is not a 32-bit integer")),
    }
}

/// Pops a 64-bit integer; fails, changing nothing, when the stack is empty
/// or its top is of another type.
pub fn pop_i64(stack: &mut Vec<WasmValue>) -> (r: Result<i64, ExecError>)
    ensures
        match r {
            Ok(v) => old(stack)@.len() > 0 && old(stack)@.last() == WasmValue::I64(v) && final(stack)@ == old(stack)@.drop_last(),
            Err(_) => final(stack)@ == old(stack)@ && (old(stack)@.len() == 0 || !(old(stack)@.last() is I64)),
        },
{
    if stack.len() == 0 {
        return Err(ExecError::Invalid("value stack underflow"));
    }
    let is_ok = match &stack[stack.len() - 1] {
        WasmValue::I64(_) => true,
        _ => false,
    };
    if !is_ok {
        return Err(ExecError::Invalid("operand is not a 64-bit integer"));
    }
    match stack.pop() {
        Some(WasmValue::I64(v)) => Ok(v),
        _ => Err(ExecError::Invalid("operand is not a 64-bit integer")),
    }
}

/// Branches to the label `depth` levels out. The value stack is cut to the
/// height that label saved, with exactly the label's arity of values
/// preserved on top; the label and everything inside it are popped, and the
/// label's continuation is returned.
pub fn branch_to(stack: &mut Vec<WasmValue>, labels: &mut Vec<Label>, depth: usize) -> (r: Result<
    usize,
    ExecError,
>)
    ensures
        match r {
            Ok(pc) => depth < old(labels)@.len() && ({
                let l = old(labels)@[old(labels)@.len() - 1 - depth];
                &&& old(stack)@.len() >= l.height + l.arity
                &&& final(stack)@ == old(stack)@.subrange(0, l.height as int) + old(stack)@.subrange(old(stack)@.len() - l.arity, old(stack)@.len() as int)
                &&& final(labels)@ == old(labels)@.subrange(
                    0,
                    old(labels)@.len() - 1 - depth,
                )
                &&& pc == l.cont
            }),
            Err(_) => final(stack)@ == old(stack)@ && final(labels)@ == old(labels)@ && (depth
                >= old(labels)@.len() || ({
                let l = old(labels)@[old(labels)@.len() - 1 - depth];
                old(stack)@.len() < l.height + l.arity
            })),
        },
{
    if depth >= labels.len() {
        return Err(ExecError::Invalid("branch depth exceeds the label stack"));
    }
    let idx = labels.len() - 1 - depth;
    let l = labels[idx];
    let n = stack.len();
    if n < l.arity || n - l.arity < l.height {
        return Err(ExecError::Invalid("value stack is below the label height"));
    }
    // carry the arity values across the cut
    let mut carried: Vec<WasmValue> = Vec::new();
    let mut k: usize = 0;
    while k < l.arity
        invariant
            k <= l.arity,
            l.arity <= n == stack@.len(),
            stack@ == old(stack)@,
            carried@ == old(stack)@.subrange(n - l.arity, n - l.arity + k),
        decreases l.arity - k,
    {
        carried.push(stack[n - l.arity + k]);
        proof {
            assert(carried@ =~= old(stack)@.subrange(n - l.arity, n - l.arity + (k + 1)));
        }
        k = k + 1;
    }
    stack.truncate(l.height);
    proof {
        assert(stack@ =~= old(stack)@.subrange(0, l.height as int) + carried@.subrange(0, 0));
    }
    let mut k: usize = 0;
    while k < carried.len()
        invariant
            k <= carried@.len(),
            carried@ == old(stack)@.subrange(n - l.arity, n as int),
            n == old(stack)@.len(),
            l.height + l.arity <= n,
            stack@ == old(stack)@.subrange(0, l.height as int) + carried@.subrange(0, k as int),
        decreases carried@.len() - k,
    {
        stack.push(carried[k]);
        proof {
            assert(stack@ =~= old(stack)@.subrange(0, l.height as int) + carried@.subrange(
                0,
                k + 1,
            ));
        }
        k = k + 1;
    }
    proof {
        assert(carried@.subrange(0, carried@.len() as int) =~= carried@);
        assert(stack@ =~= old(stack)@.subrange(0, l.height as int) + old(stack)@.subrange(
            n - l.arity,
            n as int,
        ));
    }
    labels.truncate(idx);
    Ok(l.cont)
}

/// The little-endian value of a byte run.
pub open spec fn spec_le_value(bytes: Seq<u8>) -> nat
    decreases bytes.len(),
{
    if bytes.len() == 0 {
        0
    } else {
        (bytes[0] + 256 * spec_le_value(bytes.drop_first())) as nat
    }
}

/// The `w` little-endian bytes of a value.
pub open spec fn spec_le_bytes(v: nat, w: nat) -> Seq<u8>
    decreases w,
{
    if w == 0 {
        Seq::empty()
    } else {
        seq![(v % 256) as u8] + spec_le_bytes(v / 256, (w - 1) as nat)
    }
}

/// 256 to the `k`-th power: the count of values `k` bytes can carry.
pub open spec fn pow256(k: nat) -> nat
    decreases k,
{
    if k == 0 {
        1
    } else {
        256 * pow256((k - 1) as nat)
    }
}

/// Powers of 256 are at least one and grow with the exponent.
proof fn lemma_pow256_mono(a: nat, b: nat)
    requires
        a <= b,
    ensures
        1 <= pow256(a) <= pow256(b),
    decreases b,
{
    if b > 0 {
        if a < b {
            lemma_pow256_mono(a, (b - 1) as nat);
            assert(pow256(b) == 256 * pow256((b - 1) as nat));
            assert(pow256((b - 1) as nat) <= 256 * pow256((b - 1) as nat)) by (nonlinear_arith)
                requires
                    pow256((b - 1) as nat) >= 1,
            ;
        } else {
            lemma_pow256_mono((a - 1) as nat, (b - 1) as nat);
            assert(pow256(b) == 256 * pow256((b - 1) as nat));
            assert(256 * pow256((b - 1) as nat) >= 1) by (nonlinear_arith)
                requires
                    pow256((b - 1) as nat) >= 1,
            ;
        }
    }
}

/// A byte run carries a value below 256 to its length.
proof fn lemma_le_value_bound(bytes: Seq<u8>)
    ensures
        spec_le_value(bytes) < pow256(bytes.len()),
    decreases bytes.len(),
{
    if bytes.len() == 0 {
    } else {
        lemma_le_value_bound(bytes.drop_first());
        assert(bytes[0] + 256 * spec_le_value(bytes.drop_first()) < 256 * pow256(
            bytes.drop_first().len(),
        )) by (nonlinear_arith)
            requires
                bytes[0] < 256,
                spec_le_value(bytes.drop_first()) < pow256(bytes.drop_first().len()),
        ;
    }
}

/// Reads the little-endian value of `width` bytes at `eff` of the memory in
/// slot `mem_slot`; past the end of memory it traps as an out-of-bounds
/// access.
fn mem_load_raw(store: &Store, mem_slot: usize, eff: u64, width: usize) -> (r: Result<
    u64,
    ExecError,
>)
    requires
        store.wf(),
        mem_slot < store.mems@.len(),
        1 <= width <= 8,
    ensures
        match r {
            Ok(raw) => eff + width <= store.mems@[mem_slot as int].view().len() && raw
                == spec_le_value(
                store.mems@[mem_slot as int].view().subrange(eff as int, eff as int + width),
            ) && raw < pow256(width as nat),
            Err(e) => e matches ExecError::Trap(Trap::OutOfBoundsMemoryAccess) && eff + width
                > store.mems@[mem_slot as int].view().len(),
        },
{
    let m = &store.mems[mem_slot];
    let len = m.byte_len();
    if eff > (usize::MAX as u64) || (eff as usize) > len || width > len - (eff as usize) {
        return Err(ExecError::Trap(Trap::OutOfBoundsMemoryAccess));
    }
    let bytes = match m.load_bytes(eff as usize, width) {
        Some(b) => b,
        None => {
            return Err(ExecError::Trap(Trap::OutOfBoundsMemoryAccess));
        },
    };
    let ghost bs = bytes@;
    proof {
        assert(bs.skip(width as int) =~= Seq::<u8>::empty());
    }
    let mut raw: u64 = 0;
    let mut k: usize = width;
    while k > 0
        invariant
            k <= width == bytes@.len() <= 8,
            bytes@ == bs,
            raw == spec_le_value(bs.skip(k as int)),
        decreases k,
    {
        proof {
            assert(bs.skip(k as int - 1)[0] == bs[k as int - 1]);
            assert(bs.skip(k as int - 1).drop_first() =~= bs.skip(k as int));
            lemma_le_value_bound(bs.skip(k as int));
            lemma_pow256_mono(bs.skip(k as int).len(), 7);
            assert(pow256(7nat) == 0x100_0000_0000_0000 && pow256(8nat)
                == 0x1_0000_0000_0000_0000) by {
                reveal_with_fuel(pow256, 9);
            }
            assert(raw * 256 + bs[k as int - 1] < 0x1_0000_0000_0000_0000) by (nonlinear_arith)
                requires
                    raw < 0x100_0000_0000_0000,
                    bs[k as int - 1] < 256,
            ;
        }
        k = k - 1;
        raw = raw * 256 + (bytes[k] as u64);
    }
    proof {
        assert(bs.skip(0) =~= bs);
        lemma_le_value_bound(bs);
    }
    Ok(raw)
}

/// Writes the `width` little-endian bytes of `raw` at `eff` of the memory
/// in slot `mem_slot`; past the end of memory it traps as an out-of-bounds
/// access and the memory is unchanged.
fn mem_store_raw(store: &mut Store, mem_slot: usize, eff: u64, width: usize, raw: u64) -> (r:
    Result<(), ExecError>)
    requires
        old(store).wf(),
        mem_slot < old(store).mems@.len(),
        1 <= width <= 8,
    ensures
        final(store).wf(),
        final(store).modules@ == old(store).modules@,
        final(store).mems@.len() == old(store).mems@.len(),
        match r {
            Ok(()) => eff + width <= old(store).mems@[mem_slot as int].view().len() && final(store).mems@[mem_slot as int].view() == old(store).mems@[mem_slot as int].view().subrange(
                0,
                eff as int,
            ) + spec_le_bytes(raw as nat, width as nat) + old(store).mems@[
                mem_slot as int
            ].view().subrange(
                eff as int + width,
                old(store).mems@[mem_slot as int].view().len() as int,
            ) && final(store).mems@ == old(store).mems@.update(
                mem_slot as int,
                final(store).mems@[mem_slot as int],
            ),
            Err(e) => e matches ExecError::Trap(Trap::OutOfBoundsMemoryAccess) && eff + width
                > old(store).mems@[mem_slot as int].view().len() && final(store).mems@ == old(store).mems@,
        },
{
    let mut bytes: Vec<u8> = Vec::new();
    let mut v: u64 = raw;
    let mut k: usize = 0;
    while k < width
        invariant
            k <= width,
            spec_le_bytes(raw as nat, width as nat) == bytes@ + spec_le_bytes(
                v as nat,
                (width - k) as nat,
            ),
            bytes@.len() == k,
        decreases width - k,
    {
        let ghost pre = bytes@;
        bytes.push((v % 256) as u8);
        proof {
            assert(pre + (seq![(v as nat % 256) as u8] + spec_le_bytes(
                v as nat / 256,
                (width - k - 1) as nat,
            )) =~= bytes@ + spec_le_bytes(v as nat / 256, (width - k - 1) as nat));
        }
        v = v / 256;
        k = k + 1;
    }
    proof {
        assert(bytes@ + spec_le_bytes(v as nat, 0) =~= bytes@);
    }
    let mlen = store.mems[mem_slot].byte_len();
    if eff > (usize::MAX as u64) || (eff as usize) > mlen || width > mlen - (eff as usize) {
        return Err(ExecError::Trap(Trap::OutOfBoundsMemoryAccess));
    }
    let ghost pre_mems = store.mems@;
    let mref = &mut store.mems[mem_slot];
    let res = mref.store_bytes(eff as usize, bytes.as_slice());
    proof {
        assert(store.mems@ =~= pre_mems.update(mem_slot as int, store.mems@[mem_slot as int]));
    }
    match res {
        Ok(()) => Ok(()),
        Err(()) => Err(ExecError::Trap(Trap::OutOfBoundsMemoryAccess)),
    }
}

/// Computes the jump table of a body: for every structured opener the index
/// of its matching `end`, and for `if` also of its `else` when present.
fn compute_jumps(body: &Vec<Instruction>) -> (r: Result<Vec<JumpInfo>, ExecError>)
    ensures
        match r {
            Ok(j) => j@.len() == body@.len() && (forall|i: int|
                0 <= i < j@.len() ==> (#[trigger] j@[i]).end_idx < body@.len() && j@[i].else_idx
                    < body@.len()),
            Err(_) => true,
        },
{
    let n = body.len();
    let mut j: Vec<JumpInfo> = Vec::new();
    let mut i: usize = 0;
    while i < n
        invariant
            j@.len() == i <= n,
            n == body@.len(),
            forall|x: int|
                0 <= x < j@.len() ==> (#[trigger] j@[x]).end_idx < n && j@[x].else_idx < n,
        decreases n - i,
    {
        if n > 0 {
            j.push(JumpInfo { end_idx: 0, else_idx: 0, has_else: false });
        }
        i = i + 1;
    }
    let mut openers: Vec<usize> = Vec::new();
    let mut i: usize = 0;
    while i < n
        invariant
            j@.len() == n == body@.len(),
            forall|x: int|
                0 <= x < j@.len() ==> (#[trigger] j@[x]).end_idx < n && j@[x].else_idx < n,
            forall|x: int| 0 <= x < openers@.len() ==> (#[trigger] openers@[x]) < n,
            i <= n,
        decreases n - i,
    {
        let is_opener = match &body[i].kind {
            InstructionKind::Block { .. } => true,
            InstructionKind::Loop { .. } => true,
            InstructionKind::If { .. } => true,
            InstructionKind::Try { .. } => true,
            _ => false,
        };
        if is_opener {
            openers.push(i);
        } else {
            match &body[i].kind {
                InstructionKind::Else => {
                    if openers.len() == 0 {
                        return Err(ExecError::Invalid("an else without an opener"));
                    }
                    let op = openers[openers.len() - 1];
                    let entry = JumpInfo { end_idx: j[op].end_idx, else_idx: i, has_else: true };
                    j[op] = entry;
                },
                InstructionKind::End => {
                    if openers.len() > 0 {
                        let op = match openers.pop() {
                            Some(x) => x,
                            None => {
                                return Err(ExecError::Invalid("an end without an opener"));
                            },
                        };
                        let entry = JumpInfo {
                            end_idx: i,
                            else_idx: j[op].else_idx,
                            has_else: j[op].has_else,
                        };
                        j[op] = entry;
                    }
                },
                _ => {},
            }
        }
        i = i + 1;
    }
    if openers.len() != 0 {
        return Err(ExecError::Invalid("an opener without an end"));
    }
    Ok(j)
}

impl Executor {
    /// Pushes a frame for the defined function in slot `exec_idx`: pops its
    /// arguments into the local slots, zero-fills the declared locals, and
    /// starts at its first instruction. One frame past the depth ceiling
    /// traps as stack overflow. The new frame holds exactly one local per
    /// declared parameter and per declared local.
    pub fn push_frame(&mut self, store: &Store, exec_idx: usize) -> (r: Result<(), ExecError>)
        requires
            old(self).wf(),
            store.wf(),
            exec_idx < store.funcs@.len(),
        ensures
            final(self).wf(),
            match r {
                Ok(()) => final(self).frames@.len() == old(self).frames@.len() + 1 && final(self).frames@.drop_last() == old(self).frames@ && (
                store.funcs@[exec_idx as int] matches FunctionInstance::Defined(d) && ({
                    let f = final(self).frames@.last();
                    &&& f.n_params == d.ty.params@.len()
                    &&& f.n_locals == d.locals@.len()
                    &&& f.locals@.len() == f.n_params + f.n_locals
                    &&& f.arity == d.ty.returns@.len()
                    &&& f.pc == 0
                    &&& old(self).stack@.len() >= f.n_params
                    &&& f.height == old(self).stack@.len() - f.n_params
                    &&& final(self).stack@ == old(self).stack@.subrange(0, f.height as int)
                    &&& forall|k: int|
                        0 <= k < f.n_params ==> f.locals@[k] == old(self).stack@[f.height + k]
                })),
                Err(_) => final(self).frames@ == old(self).frames@ && final(self).stack@ == old(self).stack@,
            },
    {
        if self.frames.len() >= MAX_FRAMES {
            return Err(ExecError::Trap(Trap::StackOverflow));
        }
        let d = match &store.funcs[exec_idx] {
            FunctionInstance::Defined(d) => d,
            FunctionInstance::Host(_) => {
                return Err(ExecError::Invalid("a host function cannot become a frame"));
            },
        };
        let jumps = match compute_jumps(&d.body) {
            Ok(j) => j,
            Err(e) => {
                return Err(e);
            },
        };
        let n_params = d.ty.params.len();
        let n_locals = d.locals.len();
        if self.stack.len() < n_params {
            return Err(ExecError::Invalid("value stack underflow at a call"));
        }
        let height = self.stack.len() - n_params;
        // move the arguments into the local slots
        let mut locals: Vec<WasmValue> = Vec::new();
        let mut k: usize = 0;
        while k < n_params
            invariant
                k <= n_params,
                self.stack@ == old(self).stack@,
                height + n_params == self.stack@.len(),
                height + n_params <= usize::MAX,
                locals@.len() == k,
                forall|x: int| 0 <= x < k ==> locals@[x] == self.stack@[height + x],
            decreases n_params - k,
        {
            locals.push(self.stack[height + k]);
            k = k + 1;
        }
        self.stack.truncate(height);
        // zero-fill the declared locals
        let mut k: usize = 0;
        while k < n_locals
            invariant
                k <= n_locals,
                n_locals == d.locals@.len(),
                locals@.len() == n_params + k,
                self.stack@ == old(self).stack@.subrange(0, height as int),
                forall|x: int| 0 <= x < n_params ==> locals@[x] == old(self).stack@[height + x],
            decreases n_locals - k,
        {
            locals.push(WasmValue::default_for(d.locals[k]));
            k = k + 1;
        }
        let arity = d.ty.returns.len();
        self.frames.push(
            Frame {
                exec_idx,
                module_index: d.module_index,
                locals,
                arity,
                n_params,
                n_locals,
                height,
                labels: Vec::new(),
                pc: 0,
                jumps,
            },
        );
        Ok(())
    }

    /// Pops the innermost frame: the value stack is cut back to the frame's
    /// entry height with exactly the frame's result arity preserved on top,
    /// so what a return leaves behind is always as many values as the
    /// function's declared results.
    pub fn do_return(&mut self) -> (r: Result<Signal, ExecError>)
        requires
            old(self).wf(),
            old(self).frames@.len() > 0,
        ensures
            final(self).wf(),
            match r {
                Ok(sig) => sig is Return && ({
                    let f = old(self).frames@.last();
                    &&& final(self).frames@ == old(self).frames@.drop_last()
                    &&& old(self).stack@.len() >= f.height + f.arity
                    &&& final(self).stack@ == old(self).stack@.subrange(0, f.height as int)
                        + old(self).stack@.subrange(
                        old(self).stack@.len() - f.arity,
                        old(self).stack@.len() as int,
                    )
                }),
                Err(_) => true,
            },
    {
        let fl = self.frames.len();
        let arity = self.frames[fl - 1].arity;
        let height = self.frames[fl - 1].height;
        let n = self.stack.len();
        if n < arity || n - arity < height {
            return Err(ExecError::Invalid("value stack is below the frame height"));
        }
        let mut carried: Vec<WasmValue> = Vec::new();
        let mut k: usize = 0;
        while k < arity
            invariant
                k <= arity,
                arity <= n == self.stack@.len(),
                self.stack@ == old(self).stack@,
                self.frames@ == old(self).frames@,
                carried@ == old(self).stack@.subrange(n - arity, n - arity + k),
            decreases arity - k,
        {
            carried.push(self.stack[n - arity + k]);
            proof {
                assert(carried@ =~= old(self).stack@.subrange(n - arity, n - arity + (k + 1)));
            }
            k = k + 1;
        }
        self.stack.truncate(height);
        proof {
            assert(self.stack@ =~= old(self).stack@.subrange(0, height as int) + carried@.subrange(
                0,
                0,
            ));
        }
        let mut k: usize = 0;
        while k < carried.len()
            invariant
                k <= carried@.len(),
                carried@ == old(self).stack@.subrange(n - arity, n as int),
                n == old(self).stack@.len(),
                height + arity <= n,
                self.frames@ == old(self).frames@,
                self.stack@ == old(self).stack@.subrange(0, height as int) + carried@.subrange(
                    0,
                    k as int,
                ),
            decreases carried@.len() - k,
        {
            self.stack.push(carried[k]);
            proof {
                assert(self.stack@ =~= old(self).stack@.subrange(0, height as int)
                    + carried@.subrange(0, k + 1));
            }
            k = k + 1;
        }
        proof {
            assert(carried@.subrange(0, carried@.len() as int) =~= carried@);
            assert(self.stack@ =~= old(self).stack@.subrange(0, height as int) + old(self).stack@.subrange(n - arity, n as int));
        }
        let _ = self.frames.pop();
        Ok(Signal::Return)
    }
}

/// Executes a pure operand-stack operator of the 32-bit integer group, or
/// reports that the operator is not of this group.
fn exec_pure_i32(kind: &InstructionKind, stack: &mut Vec<WasmValue>) -> (r: Option<
    Result<(), ExecError>,
>) {
    match kind {
        InstructionKind::I32Const { value } => {
            stack.push(WasmValue::I32(*value));
            Some(Ok(()))
        },
        InstructionKind::I32Eqz => {
            match pop_i32(stack) {
                Ok(a) => {
                    stack.push(WasmValue::I32(if a == 0 { 1 } else { 0 }));
                    Some(Ok(()))
                },
                Err(e) => Some(Err(e)),
            }
        },
        InstructionKind::I32Eq | InstructionKind::I32Ne | InstructionKind::I32LtS
            | InstructionKind::I32LtU | InstructionKind::I32GtS | InstructionKind::I32GtU
            | InstructionKind::I32LeS | InstructionKind::I32LeU | InstructionKind::I32GeS
            | InstructionKind::I32GeU => {
            let b = match pop_i32(stack) {
                Ok(x) => x,
                Err(e) => {
                    return Some(Err(e));
                },
            };
            let a = match pop_i32(stack) {
                Ok(x) => x,
                Err(e) => {
                    return Some(Err(e));
                },
            };
            let ua = crate::numeric::i32_bits(a);
            let ub = crate::numeric::i32_bits(b);
            let c: bool = match kind {
                InstructionKind::I32Eq => a == b,
                InstructionKind::I32Ne => a != b,
                InstructionKind::I32LtS => a < b,
                InstructionKind::I32LtU => ua < ub,
                InstructionKind::I32GtS => a > b,
                InstructionKind::I32GtU => ua > ub,
                InstructionKind::I32LeS => a <= b,
                InstructionKind::I32LeU => ua <= ub,
                InstructionKind::I32GeS => a >= b,
                _ => ua >= ub,
            };
            stack.push(WasmValue::I32(if c { 1 } else { 0 }));
            Some(Ok(()))
        },
        InstructionKind::I32Add | InstructionKind::I32Sub | InstructionKind::I32Mul
            | InstructionKind::I32And | InstructionKind::I32Or | InstructionKind::I32Xor
            | InstructionKind::I32Shl | InstructionKind::I32ShrS | InstructionKind::I32ShrU
            | InstructionKind::I32Rotl | InstructionKind::I32Rotr => {
            let b = match pop_i32(stack) {
                Ok(x) => x,
                Err(e) => {
                    return Some(Err(e));
                },
            };
            let a = match pop_i32(stack) {
                Ok(x) => x,
                Err(e) => {
                    return Some(Err(e));
                },
            };
            let ua = crate::numeric::i32_bits(a);
            let ub = crate::numeric::i32_bits(b);
            let k: u32 = ub % 32;
            let res: i32 = match kind {
                InstructionKind::I32Add => crate::numeric::i32_add_wrap(a, b),
                InstructionKind::I32Sub => crate::numeric::i32_sub_wrap(a, b),
                InstructionKind::I32Mul => crate::numeric::i32_mul_wrap(a, b),
                InstructionKind::I32And => crate::numeric::u32_signed(ua & ub),
                InstructionKind::I32Or => crate::numeric::u32_signed(ua | ub),
                InstructionKind::I32Xor => crate::numeric::u32_signed(ua ^ ub),
                InstructionKind::I32Shl => crate::numeric::u32_signed(ua << k),
                InstructionKind::I32ShrU => crate::numeric::u32_signed(ua >> k),
                InstructionKind::I32ShrS => {
                    // arithmetic shift: floor division by the power of two
                    if a >= 0 {
                        crate::numeric::u32_signed(ua >> k)
                    } else {
                        let w = (-(a + 1)) as u32;
                        -((w >> k) as i32) - 1
                    }
                },
                InstructionKind::I32Rotl => {
                    if k == 0 {
                        a
                    } else {
                        crate::numeric::u32_signed((ua << k) | (ua >> (32 - k)))
                    }
                },
                _ => {
                    if k == 0 {
                        a
                    } else {
                        crate::numeric::u32_signed((ua >> k) | (ua << (32 - k)))
                    }
                },
            };
            stack.push(WasmValue::I32(res));
            Some(Ok(()))
        },
        InstructionKind::I32DivS | InstructionKind::I32DivU | InstructionKind::I32RemS
            | InstructionKind::I32RemU => {
            let b = match pop_i32(stack) {
                Ok(x) => x,
                Err(e) => {
                    return Some(Err(e));
                },
            };
            let a = match pop_i32(stack) {
                Ok(x) => x,
                Err(e) => {
                    return Some(Err(e));
                },
            };
            let res = match kind {
                InstructionKind::I32DivS => crate::numeric::i32_div_s(a, b),
                InstructionKind::I32DivU => crate::numeric::i32_div_u(a, b),
                InstructionKind::I32RemS => crate::numeric::i32_rem_s(a, b),
                _ => crate::numeric::i32_rem_u(a, b),
            };
            match res {
                Ok(v) => {
                    stack.push(WasmValue::I32(v));
                    Some(Ok(()))
                },
                Err(t) => Some(Err(ExecError::Trap(t))),
            }
        },
        InstructionKind::I32Clz => {
            match pop_i32(stack) {
                Ok(a) => {
                    let ua = crate::numeric::i32_bits(a);
                    proof {
                        crate::numeric::lemma_bitlen_bound(ua as nat);
                    }
                    let n = crate::numeric::bitlen_u64(ua as u64);
                    stack.push(WasmValue::I32((32 - n) as i32));
                    Some(Ok(()))
                },
                Err(e) => Some(Err(e)),
            }
        },
        InstructionKind::I32Ctz => {
            match pop_i32(stack) {
                Ok(a) => {
                    let ua = crate::numeric::i32_bits(a);
                    let n = crate::numeric::ctz_u64(ua as u64, 32);
                    stack.push(WasmValue::I32(n as i32));
                    Some(Ok(()))
                },
                Err(e) => Some(Err(e)),
            }
        },
        InstructionKind::I32Popcnt => {
            match pop_i32(stack) {
                Ok(a) => {
                    let ua = crate::numeric::i32_bits(a);
                    let n = crate::numeric::popcnt_u64(ua as u64);
                    stack.push(WasmValue::I32(n as i32));
                    Some(Ok(()))
                },
                Err(e) => Some(Err(e)),
            }
        },
        _ => None,
    }
}

/// Executes a pure operand-stack operator of the 64-bit integer group, or
/// reports that the operator is not of this group.
fn exec_pure_i64(kind: &InstructionKind, stack: &mut Vec<WasmValue>) -> (r: Option<
    Result<(), ExecError>,
>) {
    match kind {
        InstructionKind::I64Const { value } => {
            stack.push(WasmValue::I64(*value));
            Some(Ok(()))
        },
        InstructionKind::I64Eqz => {
            match pop_i64(stack) {
                Ok(a) => {
                    stack.push(WasmValue::I32(if a == 0 { 1 } else { 0 }));
                    Some(Ok(()))
                },
                Err(e) => Some(Err(e)),
            }
        },
        InstructionKind::I64Eq | InstructionKind::I64Ne | InstructionKind::I64LtS
            | InstructionKind::I64LtU | InstructionKind::I64GtS | InstructionKind::I64GtU
            | InstructionKind::I64LeS | InstructionKind::I64LeU | InstructionKind::I64GeS
            | InstructionKind::I64GeU => {
            let b = match pop_i64(stack) {
                Ok(x) => x,
                Err(e) => {
                    return Some(Err(e));
                },
            };
            let a = match pop_i64(stack) {
                Ok(x) => x,
                Err(e) => {
                    return Some(Err(e));
                },
            };
            let ua = crate::numeric::i64_bits(a);
            let ub = crate::numeric::i64_bits(b);
            let c: bool = match kind {
                InstructionKind::I64Eq => a == b,
                InstructionKind::I64Ne => a != b,
                InstructionKind::I64LtS => a < b,
                InstructionKind::I64LtU => ua < ub,
                InstructionKind::I64GtS => a > b,
                InstructionKind::I64GtU => ua > ub,
                InstructionKind::I64LeS => a <= b,
                InstructionKind::I64LeU => ua <= ub,
                InstructionKind::I64GeS => a >= b,
                _ => ua >= ub,
            };
            stack.push(WasmValue::I32(if c { 1 } else { 0 }));
            Some(Ok(()))
        },
        InstructionKind::I64Add | InstructionKind::I64Sub | InstructionKind::I64Mul
            | InstructionKind::I64And | InstructionKind::I64Or | InstructionKind::I64Xor
            | InstructionKind::I64Shl | InstructionKind::I64ShrS | InstructionKind::I64ShrU
            | InstructionKind::I64Rotl | InstructionKind::I64Rotr => {
            let b = match pop_i64(stack) {
                Ok(x) => x,
                Err(e) => {
                    return Some(Err(e));
                },
            };
            let a = match pop_i64(stack) {
                Ok(x) => x,
                Err(e) => {
                    return Some(Err(e));
                },
            };
            let ua = crate::numeric::i64_bits(a);
            let ub = crate::numeric::i64_bits(b);
            let k: u64 = ub % 64;
            let res: i64 = match kind {
                InstructionKind::I64Add => crate::numeric::i64_add_wrap(a, b),
                InstructionKind::I64Sub => crate::numeric::i64_sub_wrap(a, b),
                InstructionKind::I64Mul => crate::numeric::i64_mul_wrap(a, b),
                InstructionKind::I64And => crate::numeric::u64_signed(ua & ub),
                InstructionKind::I64Or => crate::numeric::u64_signed(ua | ub),
                InstructionKind::I64Xor => crate::numeric::u64_signed(ua ^ ub),
                InstructionKind::I64Shl => crate::numeric::u64_signed(ua << k),
                InstructionKind::I64ShrU => crate::numeric::u64_signed(ua >> k),
                InstructionKind::I64ShrS => {
                    if a >= 0 {
                        crate::numeric::u64_signed(ua >> k)
                    } else {
                        let w = (-(a + 1)) as u64;
                        -((w >> k) as i64) - 1
                    }
                },
                InstructionKind::I64Rotl => {
                    if k == 0 {
                        a
                    } else {
                        crate::numeric::u64_signed((ua << k) | (ua >> (64 - k)))
                    }
                },
                _ => {
                    if k == 0 {
                        a
                    } else {
                        crate::numeric::u64_signed((ua >> k) | (ua << (64 - k)))
                    }
                },
            };
            stack.push(WasmValue::I64(res));
            Some(Ok(()))
        },
        InstructionKind::I64DivS | InstructionKind::I64DivU | InstructionKind::I64RemS
            | InstructionKind::I64RemU => {
            let b = match pop_i64(stack) {
                Ok(x) => x,
                Err(e) => {
                    return Some(Err(e));
                },
            };
            let a = match pop_i64(stack) {
                Ok(x) => x,
                Err(e) => {
                    return Some(Err(e));
                },
            };
            let res = match kind {
                InstructionKind::I64DivS => crate::numeric::i64_div_s(a, b),
                InstructionKind::I64DivU => crate::numeric::i64_div_u(a, b),
                InstructionKind::I64RemS => crate::numeric::i64_rem_s(a, b),
                _ => crate::numeric::i64_rem_u(a, b),
            };
            match res {
                Ok(v) => {
                    stack.push(WasmValue::I64(v));
                    Some(Ok(()))
                },
                Err(t) => Some(Err(ExecError::Trap(t))),
            }
        },
        InstructionKind::I64Clz => {
            match pop_i64(stack) {
                Ok(a) => {
                    let ua = crate::numeric::i64_bits(a);
                    let n = crate::numeric::bitlen_u64(ua);
                    stack.push(WasmValue::I64((64 - n) as i64));
                    Some(Ok(()))
                },
                Err(e) => Some(Err(e)),
            }
        },
        InstructionKind::I64Ctz => {
            match pop_i64(stack) {
                Ok(a) => {
                    let ua = crate::numeric::i64_bits(a);
                    let n = crate::numeric::ctz_u64(ua, 64);
                    stack.push(WasmValue::I64(n as i64));
                    Some(Ok(()))
                },
                Err(e) => Some(Err(e)),
            }
        },
        InstructionKind::I64Popcnt => {
            match pop_i64(stack) {
                Ok(a) => {
                    let ua = crate::numeric::i64_bits(a);
                    let n = crate::numeric::popcnt_u64(ua);
                    stack.push(WasmValue::I64(n as i64));
                    Some(Ok(()))
                },
                Err(e) => Some(Err(e)),
            }
        },
        _ => None,
    }
}

/// Executes a pure operand-stack operator of the parametric, constant and
/// conversion group, or reports that the operator is not of this group.
fn exec_pure_misc(kind: &InstructionKind, stack: &mut Vec<WasmValue>) -> (r: Option<
    Result<(), ExecError>,
>) {
    match kind {
        InstructionKind::Nop => Some(Ok(())),
        InstructionKind::Drop => {
            match pop_any(stack) {
                Ok(_) => Some(Ok(())),
                Err(e) => Some(Err(e)),
            }
        },
        InstructionKind::Select | InstructionKind::TypedSelect { .. } => {
            let c = match pop_i32(stack) {
                Ok(x) => x,
                Err(e) => {
                    return Some(Err(e));
                },
            };
            let v2 = match pop_any(stack) {
                Ok(x) => x,
                Err(e) => {
                    return Some(Err(e));
                },
            };
            let v1 = match pop_any(stack) {
                Ok(x) => x,
                Err(e) => {
                    return Some(Err(e));
                },
            };
            stack.push(if c != 0 { v1 } else { v2 });
            Some(Ok(()))
        },
        InstructionKind::F32Const { value } => {
            stack.push(WasmValue::F32(*value));
            Some(Ok(()))
        },
        InstructionKind::F64Const { value } => {
            stack.push(WasmValue::F64(*value));
            Some(Ok(()))
        },
        InstructionKind::RefNull { ty } => {
            stack.push(WasmValue::default_for(*ty));
            Some(Ok(()))
        },
        InstructionKind::RefIsNull => {
            match pop_any(stack) {
                Ok(WasmValue::FuncRef(f)) => {
                    stack.push(WasmValue::I32(if f.is_none() { 1 } else { 0 }));
                    Some(Ok(()))
                },
                Ok(WasmValue::ExternRef(f)) => {
                    stack.push(WasmValue::I32(if f.is_none() { 1 } else { 0 }));
                    Some(Ok(()))
                },
                Ok(_) => Some(Err(ExecError::Invalid("operand is not a reference"))),
                Err(e) => Some(Err(e)),
            }
        },
        InstructionKind::I32WrapI64 => {
            match pop_i64(stack) {
                Ok(a) => {
                    let ua = crate::numeric::i64_bits(a);
                    let low = (ua % 0x1_0000_0000) as u32;
                    stack.push(WasmValue::I32(crate::numeric::u32_signed(low)));
                    Some(Ok(()))
                },
                Err(e) => Some(Err(e)),
            }
        },
        InstructionKind::I64ExtendI32S => {
            match pop_i32(stack) {
                Ok(a) => {
                    stack.push(WasmValue::I64(a as i64));
                    Some(Ok(()))
                },
                Err(e) => Some(Err(e)),
            }
        },
        InstructionKind::I64ExtendI32U => {
            match pop_i32(stack) {
                Ok(a) => {
                    let ua = crate::numeric::i32_bits(a);
                    stack.push(WasmValue::I64(ua as i64));
                    Some(Ok(()))
                },
                Err(e) => Some(Err(e)),
            }
        },
        InstructionKind::I32Extend8S => {
            match pop_i32(stack) {
                Ok(a) => {
                    let b = crate::numeric::i32_bits(a) % 0x100;
                    let v: i32 = if b < 0x80 {
                        b as i32
                    } else {
                        (b as i32) - 0x100
                    };
                    stack.push(WasmValue::I32(v));
                    Some(Ok(()))
                },
                Err(e) => Some(Err(e)),
            }
        },
        InstructionKind::I32Extend16S => {
            match pop_i32(stack) {
                Ok(a) => {
                    let b = crate::numeric::i32_bits(a) % 0x1_0000;
                    let v: i32 = if b < 0x8000 {
                        b as i32
                    } else {
                        (b as i32) - 0x1_0000
                    };
                    stack.push(WasmValue::I32(v));
                    Some(Ok(()))
                },
                Err(e) => Some(Err(e)),
            }
        },
        InstructionKind::I64Extend8S => {
            match pop_i64(stack) {
                Ok(a) => {
                    let b = crate::numeric::i64_bits(a) % 0x100;
                    let v: i64 = if b < 0x80 {
                        b as i64
                    } else {
                        (b as i64) - 0x100
                    };
                    stack.push(WasmValue::I64(v));
                    Some(Ok(()))
                },
                Err(e) => Some(Err(e)),
            }
        },
        InstructionKind::I64Extend16S => {
            match pop_i64(stack) {
                Ok(a) => {
                    let b = crate::numeric::i64_bits(a) % 0x1_0000;
                    let v: i64 = if b < 0x8000 {
                        b as i64
                    } else {
                        (b as i64) - 0x1_0000
                    };
                    stack.push(WasmValue::I64(v));
                    Some(Ok(()))
                },
                Err(e) => Some(Err(e)),
            }
        },
        InstructionKind::I64Extend32S => {
            match pop_i64(stack) {
                Ok(a) => {
                    let b = crate::numeric::i64_bits(a) % 0x1_0000_0000;
                    let v: i64 = if b < 0x8000_0000 {
                        b as i64
                    } else {
                        (b as i64) - 0x1_0000_0000
                    };
                    stack.push(WasmValue::I64(v));
                    Some(Ok(()))
                },
                Err(e) => Some(Err(e)),
            }
        },
        InstructionKind::I32ReinterpretF32 => {
            match pop_any(stack) {
                Ok(WasmValue::F32(bits)) => {
                    stack.push(WasmValue::I32(crate::numeric::u32_signed(bits)));
                    Some(Ok(()))
                },
                Ok(_) => Some(Err(ExecError::Invalid("operand is not a 32-bit float"))),
                Err(e) => Some(Err(e)),
            }
        },
        InstructionKind::I64ReinterpretF64 => {
            match pop_any(stack) {
                Ok(WasmValue::F64(bits)) => {
                    stack.push(WasmValue::I64(crate::numeric::u64_signed(bits)));
                    Some(Ok(()))
                },
                Ok(_) => Some(Err(ExecError::Invalid("operand is not a 64-bit float"))),
                Err(e) => Some(Err(e)),
            }
        },
        InstructionKind::F32ReinterpretI32 => {
            match pop_i32(stack) {
                Ok(a) => {
                    stack.push(WasmValue::F32(crate::numeric::i32_bits(a)));
                    Some(Ok(()))
                },
                Err(e) => Some(Err(e)),
            }
        },
        InstructionKind::F64ReinterpretI64 => {
            match pop_i64(stack) {
                Ok(a) => {
                    stack.push(WasmValue::F64(crate::numeric::i64_bits(a)));
                    Some(Ok(()))
                },
                Err(e) => Some(Err(e)),
            }
        },
        _ => None,
    }
}


/// The depth a branch table selects: the listed target at the index, and
/// the default for any index past the table.
pub fn br_table_target(table: &BrTableData, idx: u32) -> (d: u32)
    ensures
        (idx as int) < table.table@.len() ==> d == table.table@[idx as int],
        (idx as int) >= table.table@.len() ==> d == table.default,
{
    if (idx as u64) < (table.table.len() as u64) {
        table.table[idx as usize]
    } else {
        table.default
    }
}

/// The function handle an indirect call reads from a table slot: an index
/// past the table traps as an undefined element, a null slot as an
/// uninitialized element.
pub fn table_entry_for_call(store: &Store, slot: usize, idx: u32) -> (r: Result<
    FuncAddr,
    ExecError,
>)
    requires
        slot < store.tables@.len(),
    ensures
        match r {
            Ok(fa) => (idx as int) < store.tables@[slot as int].view().len()
                && store.tables@[slot as int].view()[idx as int] == Some(fa),
            Err(e) => (e matches ExecError::Trap(Trap::UndefinedElement) && (idx as int)
                >= store.tables@[slot as int].view().len()) || (e matches ExecError::Trap(
                Trap::UninitializedElement,
            ) && (idx as int) < store.tables@[slot as int].view().len() && store.tables@[
                slot as int
            ].view()[idx as int] is None),
        },
{
    if (idx as u64) > (usize::MAX as u64) {
        return Err(ExecError::Trap(Trap::UndefinedElement));
    }
    match store.tables[slot].get(idx as usize) {
        Some(Some(fa)) => Ok(fa),
        Some(None) => Err(ExecError::Trap(Trap::UninitializedElement)),
        None => Err(ExecError::Trap(Trap::UndefinedElement)),
    }
}

/// The byte window a memory.init reads from its data segment. A dropped
/// segment behaves as empty, so any use of it with a nonzero length traps
/// out of bounds, and the segment and memory are left unchanged.
pub fn data_init_source(store: &Store, dslot: usize, src: u32, n: u32) -> (r: Result<
    Vec<u8>,
    ExecError,
>)
    requires
        dslot < store.datas@.len(),
    ensures
        ({
            let effective = if store.datas@[dslot as int].dropped {
                Seq::<u8>::empty()
            } else {
                store.datas@[dslot as int].bytes@
            };
            match r {
                Ok(chunk) => src + n <= effective.len() && chunk@ == effective.subrange(
                    src as int,
                    src + n,
                ),
                Err(e) => e matches ExecError::Trap(Trap::OutOfBoundsMemoryAccess) && src + n
                    > effective.len(),
            }
        }),
{
    let seg_len: usize = if store.datas[dslot].dropped {
        0
    } else {
        store.datas[dslot].bytes.len()
    };
    if (src as u64) + (n as u64) > (seg_len as u64) {
        return Err(ExecError::Trap(Trap::OutOfBoundsMemoryAccess));
    }
    let mut chunk: Vec<u8> = Vec::new();
    if n == 0 {
        proof {
            let effective = if store.datas@[dslot as int].dropped {
                Seq::<u8>::empty()
            } else {
                store.datas@[dslot as int].bytes@
            };
            assert(chunk@ =~= effective.subrange(src as int, src as int));
        }
        return Ok(chunk);
    }
    let mut k: usize = 0;
    let n = n as usize;
    let src = src as usize;
    while k < n
        invariant
            k <= n,
            !store.datas@[dslot as int].dropped,
            src + n <= store.datas@[dslot as int].bytes@.len(),
            src + n <= usize::MAX,
            dslot < store.datas@.len(),
            chunk@ == store.datas@[dslot as int].bytes@.subrange(src as int, src + k),
        decreases n - k,
    {
        chunk.push(store.datas[dslot].bytes[src + k]);
        proof {
            assert(chunk@ =~= store.datas@[dslot as int].bytes@.subrange(src as int, src + (k
                + 1)));
        }
        k = k + 1;
    }
    proof {
        assert(chunk@ =~= store.datas@[dslot as int].bytes@.subrange(src as int, src + n as int));
    }
    Ok(chunk)
}

impl Executor {
    /// Advances the innermost frame's program counter to `to`.
    fn set_pc(&mut self, to: usize)
        requires
            old(self).wf(),
            old(self).frames@.len() > 0,
        ensures
            final(self).wf(),
            final(self).stack@ == old(self).stack@,
            final(self).frames@.len() == old(self).frames@.len(),
            final(self).frames@ == old(self).frames@.update(
                old(self).frames@.len() - 1,
                Frame { pc: to, ..old(self).frames@.last() },
            ),
            forall|i: int|
                0 <= i < old(self).frames@.len() ==> (#[trigger] final(self).frames@[i]).height
                    == old(self).frames@[i].height && final(self).frames@[i].arity == old(self).frames@[i].arity,
    {
        let fl = self.frames.len();
        let fr = &mut self.frames[fl - 1];
        fr.pc = to;
        proof {
            assert(self.frames@[fl - 1] == Frame { pc: to, ..old(self).frames@[fl - 1] });
            assert(self.frames@ =~= old(self).frames@.update(
                fl - 1,
                Frame { pc: to, ..old(self).frames@.last() },
            ));
        }
    }

    /// Pops the top `n` values as an argument list in stack order.
    fn pop_args(&mut self, n: usize) -> (r: Result<Vec<WasmValue>, ExecError>)
        requires
            old(self).wf(),
        ensures
            final(self).wf(),
            final(self).frames@ == old(self).frames@,
            match r {
                Ok(args) => old(self).stack@.len() >= n && args@ == old(self).stack@.subrange(
                    old(self).stack@.len() - n,
                    old(self).stack@.len() as int,
                ) && final(self).stack@ == old(self).stack@.subrange(
                    0,
                    old(self).stack@.len() - n,
                ),
                Err(_) => final(self).stack@ == old(self).stack@,
            },
    {
        let sl = self.stack.len();
        if sl < n {
            return Err(ExecError::Invalid("value stack underflow at a host call"));
        }
        let h = sl - n;
        let mut args: Vec<WasmValue> = Vec::new();
        let mut k: usize = 0;
        while k < n
            invariant
                k <= n,
                h + n == self.stack@.len(),
                h + n <= usize::MAX,
                self.stack@ == old(self).stack@,
                self.frames@ == old(self).frames@,
                args@ == old(self).stack@.subrange(h as int, h + k),
            decreases n - k,
        {
            args.push(self.stack[h + k]);
            proof {
                assert(args@ =~= old(self).stack@.subrange(h as int, h + (k + 1)));
            }
            k = k + 1;
        }
        self.stack.truncate(h);
        Ok(args)
    }

    /// Invokes the function in slot `ea`: a defined function becomes a new
    /// frame, an embedder's function runs to completion here, lent the
    /// calling module's first memory, with whatever it returned checked
    /// against its declared results.
    pub fn invoke(&mut self, store: &mut Store, ea: ExecutableFuncAddr, caller_pc_after: usize) -> (r:
        Result<Signal, ExecError>)
        requires
            old(self).wf(),
            old(store).wf(),
            ea.0 < old(store).funcs@.len(),
        ensures
            final(self).wf(),
            final(store).wf(),
            final(store).modules@ == old(store).modules@,
            final(store).funcs@.len() == old(store).funcs@.len(),
            // an invocation only calls or completes in place
            r matches Ok(s) ==> (s is Call || s is Next),
            // a defined callee became a new frame whose entry height splits
            // the stack below its arguments, with the declared arities
            r matches Ok(Signal::Call(_)) ==> final(self).frames@.len() == old(self).frames@.len() + 1 && final(self).frames@.last().height
                + final(self).frames@.last().n_params == old(self).stack@.len() && final(self).frames@.last().n_params == crate::store::spec_func_ty(
                &old(store),
                ea,
            ).params@.len() && final(self).frames@.last().arity == crate::store::spec_func_ty(
                &old(store),
                ea,
            ).returns@.len() && final(self).stack@.len() == final(self).frames@.last().height,
            // an embedder's callee ran here: its arguments left the stack and
            // exactly its declared results arrived
            r matches Ok(Signal::Next) ==> final(self).frames@.len() == old(self).frames@.len()
                && old(self).stack@.len() >= crate::store::spec_func_ty(
                &old(store),
                ea,
            ).params@.len() && final(self).stack@.len() == old(self).stack@.len()
                - crate::store::spec_func_ty(&old(store), ea).params@.len()
                + crate::store::spec_func_ty(&old(store), ea).returns@.len(),
            // the outermost frame keeps its entry height and arity
            (old(self).frames@.len() > 0 && final(self).frames@.len() > 0 && r is Ok) ==> final(self).frames@[0].height == old(self).frames@[0].height && final(self).frames@[0].arity
                == old(self).frames@[0].arity,
    {
        let is_host = match &store.funcs[ea.0] {
            FunctionInstance::Host(_) => true,
            FunctionInstance::Defined(_) => false,
        };
        if !is_host {
            if self.frames.len() > 0 {
                let ghost pre = self.frames@;
                self.set_pc(caller_pc_after);
                proof {
                    assert(self.frames@[0].height == pre[0].height && self.frames@[0].arity
                        == pre[0].arity);
                }
            }
            match self.push_frame(store, ea.0) {
                Ok(()) => Ok(Signal::Call(ea)),
                Err(e) => Err(e),
            }
        } else {
            let (n_params, n_results) = {
                let ft = store.funcs[ea.0].get_ty();
                (ft.params.len(), ft.returns.len())
            };
            let args = match self.pop_args(n_params) {
                Ok(a) => a,
                Err(e) => {
                    return Err(e);
                },
            };
            let mut results: Vec<WasmValue> = Vec::new();
            let mut ctx = HostContext { mem: Vec::new() };
            // lend the calling module's first memory without copying it
            let mem_slot: Option<usize> = if self.frames.len() > 0 {
                let mi = self.frames[self.frames.len() - 1].module_index;
                store.resolve_mem(mi, 0)
            } else {
                None
            };
            let mut lent_len: usize = 0;
            match mem_slot {
                Some(slot) => {
                    let ghost pre_mems = store.mems@;
                    let mref = &mut store.mems[slot];
                    proof {
                        use_type_invariant(&*mref);
                    }
                    mref.swap_data(&mut ctx.mem);
                    proof {
                        assert(store.mems@ =~= pre_mems.update(
                            slot as int,
                            store.mems@[slot as int],
                        ));
                    }
                    lent_len = ctx.mem.len();
                },
                None => {},
            }
            let call_res = match &store.funcs[ea.0] {
                FunctionInstance::Host(h) => h.call(&args, &mut results, &mut ctx),
                FunctionInstance::Defined(_) => Err(
                    Trap::HostFunctionError(String::from_str("not a host function")),
                ),
            };
            // take the memory back; an embedder must not have resized it
            match mem_slot {
                Some(slot) => {
                    if ctx.mem.len() != lent_len {
                        return Err(ExecError::Invalid("the host resized the lent memory"));
                    }
                    let ghost pre_mems = store.mems@;
                    let mref = &mut store.mems[slot];
                    proof {
                        use_type_invariant(&*mref);
                    }
                    if ctx.mem.len() % PAGE_SIZE != 0 {
                        return Err(ExecError::Invalid("the host resized the lent memory"));
                    }
                    let ok_max = match mref.max_pages() {
                        Some(mx) => {
                            proof {
                                vstd::arithmetic::mul::lemma_mul_inequality(0, mx as int, PAGE_SIZE as int);
                            }
                            ctx.mem.len() as u64 <= (mx as u64) * (PAGE_SIZE as u64)
                        },
                        None => ctx.mem.len() as u64 <= (MAX_PAGES as u64) * (PAGE_SIZE as u64),
                    };
                    if !(ok_max && ctx.mem.len() as u64 <= (MAX_PAGES as u64) * (
                    PAGE_SIZE as u64)) {
                        return Err(ExecError::Invalid("the host resized the lent memory"));
                    }
                    mref.swap_data(&mut ctx.mem);
                    proof {
                        assert(store.mems@ =~= pre_mems.update(
                            slot as int,
                            store.mems@[slot as int],
                        ));
                    }
                },
                None => {},
            }
            match call_res {
                Ok(()) => {},
                Err(t) => {
                    return Err(ExecError::Trap(t));
                },
            }
            if results.len() != n_results {
                return Err(ExecError::Invalid("the host returned the wrong result count"));
            }
            // what the host returned must be of the declared result types
            let mut k: usize = 0;
            while k < results.len()
                invariant
                    self.wf(),
                    store.wf(),
                    store.modules@ == old(store).modules@,
                    store.funcs@ == old(store).funcs@,
                    self.frames@ == old(self).frames@,
                    ea.0 < store.funcs@.len(),
                    k <= results@.len(),
                decreases results@.len() - k,
            {
                let declared = match &store.funcs[ea.0] {
                    FunctionInstance::Host(h) => {
                        let ft = h.ty();
                        if k < ft.returns.len() {
                            Some(ft.returns[k])
                        } else {
                            None
                        }
                    },
                    FunctionInstance::Defined(_) => None,
                };
                let matches_decl = match declared {
                    Some(t) => results[k].value_type() == t,
                    None => false,
                };
                if !matches_decl {
                    return Err(ExecError::Invalid("the host returned a result of the wrong type"));
                }
                k = k + 1;
            }
            let mut k: usize = 0;
            while k < results.len()
                invariant
                    self.wf(),
                    k <= results@.len(),
                    self.frames@ == old(self).frames@,
                    n_params <= old(self).stack@.len(),
                    self.stack@.len() == old(self).stack@.len() - n_params + k,
                decreases results@.len() - k,
            {
                self.stack.push(results[k]);
                k = k + 1;
            }
            if self.frames.len() > 0 {
                let ghost pre = self.frames@;
                self.set_pc(caller_pc_after);
                proof {
                    assert(self.frames@[0].height == pre[0].height && self.frames@[0].arity
                        == pre[0].arity);
                }
            }
            Ok(Signal::Next)
        }
    }
}

impl Executor {
    /// Executes exactly one instruction of the innermost frame. `Next` and
    /// `Jump` stay in the frame; `Call` pushed a frame; `Return` popped
    /// one, and when the frame stack is empty afterwards the computation
    /// has finished with its values on the stack. Traps and invalid-module
    /// discoveries come back as errors, the state left for inspection.
    #[verifier::rlimit(100)]
    #[verifier::spinoff_prover]
    pub fn step(&mut self, store: &mut Store) -> (r: Result<Signal, ExecError>)
        requires
            old(self).wf(),
            old(store).wf(),
            old(self).frames@.len() > 0,
        ensures
            final(self).wf(),
            final(store).wf(),
            final(store).modules@ == old(store).modules@,
            // a return pops exactly one frame and leaves exactly the frame's
            // declared arity above its entry height
            r matches Ok(Signal::Return) ==> final(self).frames@ == old(self).frames@.drop_last()
                && final(self).stack@.len() == old(self).frames@.last().height + old(self).frames@.last().arity,
            // anything else keeps the frame stack at least as deep, and the
            // outermost frame keeps its entry height and arity
            (r matches Ok(s) && !(s is Return)) ==> final(self).frames@.len() >= old(self).frames@.len()
                && final(self).frames@[0].height == old(self).frames@[0].height
                && final(self).frames@[0].arity == old(self).frames@[0].arity,
    {
        let fl = self.frames.len();
        let fidx = self.frames[fl - 1].exec_idx;
        let pc = self.frames[fl - 1].pc;
        let mi = self.frames[fl - 1].module_index;
        if fidx >= store.funcs.len() {
            return Err(ExecError::Invalid("stale function slot"));
        }
        let body_len = match &store.funcs[fidx] {
            FunctionInstance::Defined(d) => d.body.len(),
            FunctionInstance::Host(_) => {
                return Err(ExecError::Invalid("a host function cannot be stepped"));
            },
        };
        if pc >= body_len {
            return Err(ExecError::Invalid("the program counter ran past the body"));
        }
        let kind = match &store.funcs[fidx] {
            FunctionInstance::Defined(d) => &d.body[pc].kind,
            FunctionInstance::Host(_) => {
                return Err(ExecError::Invalid("a host function cannot be stepped"));
            },
        };
        match kind {
            InstructionKind::Unreachable => Err(ExecError::Trap(Trap::Unreachable)),
            InstructionKind::Block { ty } | InstructionKind::Loop { ty } | InstructionKind::If {
                ty,
            } => {
                let is_loop = match kind {
                    InstructionKind::Loop { .. } => true,
                    _ => false,
                };
                let is_if = match kind {
                    InstructionKind::If { .. } => true,
                    _ => false,
                };
                let arity: usize = match ty {
                    BlockType::Empty => 0,
                    BlockType::Value(_) => 1,
                    BlockType::TypeIndex(tix) => {
                        if (mi.0 as usize) >= store.modules.len() {
                            return Err(ExecError::Invalid("stale module index"));
                        }
                        let (np, nr) = match &store.modules[mi.0 as usize] {
                            ModuleInstance::Defined(dm) => {
                                if (*tix as usize) >= dm.type_count() {
                                    return Err(ExecError::Invalid("block type index out of range"));
                                }
                                let ft = dm.get_type(*tix as usize);
                                (ft.params.len(), ft.returns.len())
                            },
                            ModuleInstance::Host(_) => {
                                return Err(ExecError::Invalid("a host module has no code"));
                            },
                        };
                        if np != 0 {
                            return Err(
                                ExecError::Invalid("block parameters are not supported here"),
                            );
                        }
                        nr
                    },
                };
                let info = {
                    let fr = &self.frames[fl - 1];
                    if pc >= fr.jumps.len() {
                        return Err(ExecError::Invalid("the jump table is too short"));
                    }
                    fr.jumps[pc]
                };
                if info.end_idx >= body_len || info.else_idx >= body_len {
                    return Err(ExecError::Invalid("a jump target is out of range"));
                }
                if is_if {
                    let c = match pop_i32(&mut self.stack) {
                        Ok(x) => x,
                        Err(e) => {
                            return Err(e);
                        },
                    };
                    let height = self.stack.len();
                    if c != 0 {
                        let fr = &mut self.frames[fl - 1];
                        fr.labels.push(Label { cont: info.end_idx + 1, arity, height });
                        fr.pc = pc + 1;
                        Ok(Signal::Next)
                    } else {
                        if info.has_else {
                            let fr = &mut self.frames[fl - 1];
                            fr.labels.push(Label { cont: info.end_idx + 1, arity, height });
                            fr.pc = info.else_idx + 1;
                            Ok(Signal::Jump(info.else_idx + 1))
                        } else {
                            let fr = &mut self.frames[fl - 1];
                            fr.pc = info.end_idx + 1;
                            Ok(Signal::Jump(info.end_idx + 1))
                        }
                    }
                } else {
                    let height = self.stack.len();
                    let cont = if is_loop {
                        pc
                    } else {
                        info.end_idx + 1
                    };
                    let used_arity = if is_loop {
                        0
                    } else {
                        arity
                    };
                    let fr = &mut self.frames[fl - 1];
                    fr.labels.push(Label { cont, arity: used_arity, height });
                    fr.pc = pc + 1;
                    Ok(Signal::Next)
                }
            },
            InstructionKind::Else => {
                let info = {
                    let fr = &self.frames[fl - 1];
                    if pc >= fr.jumps.len() {
                        return Err(ExecError::Invalid("the jump table is too short"));
                    }
                    fr.jumps[pc]
                };
                if info.end_idx >= body_len {
                    return Err(ExecError::Invalid("a jump target is out of range"));
                }
                // the then-branch finished: continue at the matching end
                let fr = &mut self.frames[fl - 1];
                fr.pc = info.end_idx;
                Ok(Signal::Jump(info.end_idx))
            },
            InstructionKind::End => {
                let has_label = self.frames[fl - 1].labels.len() > 0;
                if has_label {
                    let fr = &mut self.frames[fl - 1];
                    let _ = fr.labels.pop();
                    fr.pc = pc + 1;
                    Ok(Signal::Next)
                } else {
                    self.do_return()
                }
            },
            InstructionKind::Return => self.do_return(),
            InstructionKind::Br { relative_depth } => {
                let d = *relative_depth as usize;
                let fr = &mut self.frames[fl - 1];
                match branch_to(&mut self.stack, &mut fr.labels, d) {
                    Ok(cont) => {
                        fr.pc = cont;
                        Ok(Signal::Jump(cont))
                    },
                    Err(e) => Err(e),
                }
            },
            InstructionKind::BrIf { relative_depth } => {
                let d = *relative_depth as usize;
                let c = match pop_i32(&mut self.stack) {
                    Ok(x) => x,
                    Err(e) => {
                        return Err(e);
                    },
                };
                if c != 0 {
                    let fr = &mut self.frames[fl - 1];
                    match branch_to(&mut self.stack, &mut fr.labels, d) {
                        Ok(cont) => {
                            fr.pc = cont;
                            Ok(Signal::Jump(cont))
                        },
                        Err(e) => Err(e),
                    }
                } else {
                    self.set_pc(pc + 1);
                    Ok(Signal::Next)
                }
            },
            InstructionKind::BrTable { table } => {
                let i = match pop_i32(&mut self.stack) {
                    Ok(x) => x,
                    Err(e) => {
                        return Err(e);
                    },
                };
                let ui = crate::numeric::i32_bits(i);
                // an index past the table selects the default depth
                let d = br_table_target(table, ui) as usize;
                let fr = &mut self.frames[fl - 1];
                match branch_to(&mut self.stack, &mut fr.labels, d) {
                    Ok(cont) => {
                        fr.pc = cont;
                        Ok(Signal::Jump(cont))
                    },
                    Err(e) => Err(e),
                }
            },
            InstructionKind::Call { function_index } => {
                let fi = *function_index as usize;
                let ea = match store.resolve_func(FuncAddr(mi, fi)) {
                    Some(x) => x,
                    None => {
                        return Err(ExecError::Invalid("call to an unknown function index"));
                    },
                };
                self.invoke(store, ea, pc + 1)
            },
            InstructionKind::CallIndirect { index, table_index } => {
                let tix = *index as usize;
                let tbl = *table_index as usize;
                let i = match pop_i32(&mut self.stack) {
                    Ok(x) => x,
                    Err(e) => {
                        return Err(e);
                    },
                };
                let ui = crate::numeric::i32_bits(i);
                let slot = match store.resolve_table(mi, tbl) {
                    Some(x) => x,
                    None => {
                        return Err(ExecError::Invalid("call through an unknown table"));
                    },
                };
                let fa = match table_entry_for_call(store, slot, ui) {
                    Ok(fa) => fa,
                    Err(e) => {
                        return Err(e);
                    },
                };
                let ea = match store.resolve_func(fa) {
                    Some(x) => x,
                    None => {
                        return Err(ExecError::Invalid("a table entry names no function"));
                    },
                };
                if (mi.0 as usize) >= store.modules.len() {
                    return Err(ExecError::Invalid("stale module index"));
                }
                let compatible = {
                    let expected = match &store.modules[mi.0 as usize] {
                        ModuleInstance::Defined(dm) => {
                            if tix >= dm.type_count() {
                                return Err(ExecError::Invalid("call type index out of range"));
                            }
                            dm.get_type(tix)
                        },
                        ModuleInstance::Host(_) => {
                            return Err(ExecError::Invalid("a host module has no code"));
                        },
                    };
                    let actual = store.funcs[ea.0].get_ty();
                    expected.matches(actual)
                };
                if !compatible {
                    return Err(ExecError::Trap(Trap::IndirectCallTypeMismatch));
                }
                self.invoke(store, ea, pc + 1)
            },
            InstructionKind::LocalGet { local_index } => {
                let li = *local_index as usize;
                let fr = &self.frames[fl - 1];
                if li >= fr.locals.len() {
                    return Err(ExecError::Invalid("local index out of range"));
                }
                let v = fr.locals[li];
                self.stack.push(v);
                self.set_pc(pc + 1);
                Ok(Signal::Next)
            },
            InstructionKind::LocalSet { local_index } => {
                let li = *local_index as usize;
                let v = match pop_any(&mut self.stack) {
                    Ok(x) => x,
                    Err(e) => {
                        return Err(e);
                    },
                };
                let fr = &mut self.frames[fl - 1];
                if li >= fr.locals.len() {
                    return Err(ExecError::Invalid("local index out of range"));
                }
                fr.locals[li] = v;
                fr.pc = pc + 1;
                proof {
                    assert(self.frames@[fl - 1].locals@.len() == old(self).frames@[fl
                        - 1].locals@.len());
                }
                Ok(Signal::Next)
            },
            InstructionKind::LocalTee { local_index } => {
                let li = *local_index as usize;
                if self.stack.len() == 0 {
                    return Err(ExecError::Invalid("value stack underflow"));
                }
                let v = self.stack[self.stack.len() - 1];
                let fr = &mut self.frames[fl - 1];
                if li >= fr.locals.len() {
                    return Err(ExecError::Invalid("local index out of range"));
                }
                fr.locals[li] = v;
                fr.pc = pc + 1;
                proof {
                    assert(self.frames@[fl - 1].locals@.len() == old(self).frames@[fl
                        - 1].locals@.len());
                }
                Ok(Signal::Next)
            },
            InstructionKind::GlobalGet { global_index } => {
                let gi = *global_index as usize;
                let slot = match store.resolve_global(mi, gi) {
                    Some(x) => x,
                    None => {
                        return Err(ExecError::Invalid("global index out of range"));
                    },
                };
                let v = store.globals[slot].value();
                self.stack.push(v);
                self.set_pc(pc + 1);
                Ok(Signal::Next)
            },
            InstructionKind::GlobalSet { global_index } => {
                let gi = *global_index as usize;
                let v = match pop_any(&mut self.stack) {
                    Ok(x) => x,
                    Err(e) => {
                        return Err(e);
                    },
                };
                let slot = match store.resolve_global(mi, gi) {
                    Some(x) => x,
                    None => {
                        return Err(ExecError::Invalid("global index out of range"));
                    },
                };
                let ghost pre_globals = store.globals@;
                let gref = &mut store.globals[slot];
                let res = gref.set_value(v);
                proof {
                    assert(store.globals@ =~= pre_globals.update(
                        slot as int,
                        store.globals@[slot as int],
                    ));
                }
                match res {
                    Ok(()) => {
                        self.set_pc(pc + 1);
                        Ok(Signal::Next)
                    },
                    Err(()) => Err(ExecError::Invalid("assignment to an immutable global")),
                }
            },
            InstructionKind::I32Load { memarg } | InstructionKind::I64Load { memarg }
                | InstructionKind::F32Load { memarg } | InstructionKind::F64Load { memarg }
                | InstructionKind::I32Load8S { memarg } | InstructionKind::I32Load8U { memarg }
                | InstructionKind::I32Load16S { memarg } | InstructionKind::I32Load16U {
                memarg,
            } | InstructionKind::I64Load8S { memarg } | InstructionKind::I64Load8U { memarg }
                | InstructionKind::I64Load16S { memarg } | InstructionKind::I64Load16U { memarg }
                | InstructionKind::I64Load32S { memarg } | InstructionKind::I64Load32U {
                memarg,
            } => {
                let width: usize = match kind {
                    InstructionKind::I32Load { .. } => 4,
                    InstructionKind::I64Load { .. } => 8,
                    InstructionKind::F32Load { .. } => 4,
                    InstructionKind::F64Load { .. } => 8,
                    InstructionKind::I32Load8S { .. } => 1,
                    InstructionKind::I32Load8U { .. } => 1,
                    InstructionKind::I32Load16S { .. } => 2,
                    InstructionKind::I32Load16U { .. } => 2,
                    InstructionKind::I64Load8S { .. } => 1,
                    InstructionKind::I64Load8U { .. } => 1,
                    InstructionKind::I64Load16S { .. } => 2,
                    InstructionKind::I64Load16U { .. } => 2,
                    InstructionKind::I64Load32S { .. } => 4,
                    _ => 4,
                };
                let shape: u8 = match kind {
                    InstructionKind::I32Load { .. } => 0,
                    InstructionKind::I64Load { .. } => 1,
                    InstructionKind::F32Load { .. } => 2,
                    InstructionKind::F64Load { .. } => 3,
                    InstructionKind::I32Load8S { .. } => 4,
                    InstructionKind::I32Load8U { .. } => 0,
                    InstructionKind::I32Load16S { .. } => 5,
                    InstructionKind::I32Load16U { .. } => 0,
                    InstructionKind::I64Load8S { .. } => 6,
                    InstructionKind::I64Load8U { .. } => 1,
                    InstructionKind::I64Load16S { .. } => 7,
                    InstructionKind::I64Load16U { .. } => 1,
                    InstructionKind::I64Load32S { .. } => 8,
                    _ => 1,
                };
                let offset = memarg.offset;
                let addr = match pop_i32(&mut self.stack) {
                    Ok(x) => x,
                    Err(e) => {
                        return Err(e);
                    },
                };
                let eff = (crate::numeric::i32_bits(addr) as u64) + (offset as u64);
                let slot = match store.resolve_mem(mi, 0) {
                    Some(x) => x,
                    None => {
                        return Err(ExecError::Invalid("the module has no memory"));
                    },
                };
                let raw = match mem_load_raw(store, slot, eff, width) {
                    Ok(x) => x,
                    Err(e) => {
                        return Err(e);
                    },
                };
                proof {
                    reveal_with_fuel(pow256, 9);
                }
                let value = if shape == 0 {
                    WasmValue::I32(crate::numeric::u32_signed(raw as u32))
                } else if shape == 1 {
                    WasmValue::I64(crate::numeric::u64_signed(raw))
                } else if shape == 2 {
                    WasmValue::F32(raw as u32)
                } else if shape == 3 {
                    WasmValue::F64(raw)
                } else if shape == 4 {
                    WasmValue::I32(
                        if raw < 0x80 {
                            raw as i32
                        } else {
                            (raw as i32) - 0x100
                        },
                    )
                } else if shape == 5 {
                    WasmValue::I32(
                        if raw < 0x8000 {
                            raw as i32
                        } else {
                            (raw as i32) - 0x1_0000
                        },
                    )
                } else if shape == 6 {
                    WasmValue::I64(
                        if raw < 0x80 {
                            raw as i64
                        } else {
                            (raw as i64) - 0x100
                        },
                    )
                } else if shape == 7 {
                    WasmValue::I64(
                        if raw < 0x8000 {
                            raw as i64
                        } else {
                            (raw as i64) - 0x1_0000
                        },
                    )
                } else {
                    WasmValue::I64(
                        if raw < 0x8000_0000 {
                            raw as i64
                        } else {
                            (raw as i64) - 0x1_0000_0000
                        },
                    )
                };
                self.stack.push(value);
                self.set_pc(pc + 1);
                Ok(Signal::Next)
            },
            InstructionKind::I32Store { memarg } | InstructionKind::I64Store { memarg }
                | InstructionKind::F32Store { memarg } | InstructionKind::F64Store { memarg }
                | InstructionKind::I32Store8 { memarg } | InstructionKind::I32Store16 { memarg }
                | InstructionKind::I64Store8 { memarg } | InstructionKind::I64Store16 { memarg }
                | InstructionKind::I64Store32 { memarg } => {
                let width: usize = match kind {
                    InstructionKind::I32Store { .. } => 4,
                    InstructionKind::I64Store { .. } => 8,
                    InstructionKind::F32Store { .. } => 4,
                    InstructionKind::F64Store { .. } => 8,
                    InstructionKind::I32Store8 { .. } => 1,
                    InstructionKind::I32Store16 { .. } => 2,
                    InstructionKind::I64Store8 { .. } => 1,
                    InstructionKind::I64Store16 { .. } => 2,
                    _ => 4,
                };
                let wants_i64: bool = match kind {
                    InstructionKind::I64Store { .. } => true,
                    InstructionKind::I64Store8 { .. } => true,
                    InstructionKind::I64Store16 { .. } => true,
                    InstructionKind::I64Store32 { .. } => true,
                    _ => false,
                };
                let is_float: u8 = match kind {
                    InstructionKind::F32Store { .. } => 1,
                    InstructionKind::F64Store { .. } => 2,
                    _ => 0,
                };
                let offset = memarg.offset;
                let raw: u64 = if is_float == 1 {
                    match pop_any(&mut self.stack) {
                        Ok(WasmValue::F32(bits)) => bits as u64,
                        Ok(_) => {
                            return Err(ExecError::Invalid("operand is not a 32-bit float"));
                        },
                        Err(e) => {
                            return Err(e);
                        },
                    }
                } else if is_float == 2 {
                    match pop_any(&mut self.stack) {
                        Ok(WasmValue::F64(bits)) => bits,
                        Ok(_) => {
                            return Err(ExecError::Invalid("operand is not a 64-bit float"));
                        },
                        Err(e) => {
                            return Err(e);
                        },
                    }
                } else if wants_i64 {
                    match pop_i64(&mut self.stack) {
                        Ok(v) => crate::numeric::i64_bits(v),
                        Err(e) => {
                            return Err(e);
                        },
                    }
                } else {
                    match pop_i32(&mut self.stack) {
                        Ok(v) => crate::numeric::i32_bits(v) as u64,
                        Err(e) => {
                            return Err(e);
                        },
                    }
                };
                let addr = match pop_i32(&mut self.stack) {
                    Ok(x) => x,
                    Err(e) => {
                        return Err(e);
                    },
                };
                let eff = (crate::numeric::i32_bits(addr) as u64) + (offset as u64);
                let slot = match store.resolve_mem(mi, 0) {
                    Some(x) => x,
                    None => {
                        return Err(ExecError::Invalid("the module has no memory"));
                    },
                };
                match mem_store_raw(store, slot, eff, width, raw) {
                    Ok(()) => {
                        self.set_pc(pc + 1);
                        Ok(Signal::Next)
                    },
                    Err(e) => Err(e),
                }
            },
            InstructionKind::MemorySize { .. } => {
                let slot = match store.resolve_mem(mi, 0) {
                    Some(x) => x,
                    None => {
                        return Err(ExecError::Invalid("the module has no memory"));
                    },
                };
                let pages = store.mems[slot].page_count();
                self.stack.push(WasmValue::I32(pages as i32));
                self.set_pc(pc + 1);
                Ok(Signal::Next)
            },
            InstructionKind::MemoryGrow { .. } => {
                let delta = match pop_i32(&mut self.stack) {
                    Ok(x) => x,
                    Err(e) => {
                        return Err(e);
                    },
                };
                let slot = match store.resolve_mem(mi, 0) {
                    Some(x) => x,
                    None => {
                        return Err(ExecError::Invalid("the module has no memory"));
                    },
                };
                let udelta = crate::numeric::i32_bits(delta);
                let outcome: i32 = if udelta > MAX_PAGES {
                    -1
                } else {
                    let ghost pre_mems = store.mems@;
                    let mref = &mut store.mems[slot];
                    let res = mref.grow(udelta);
                    proof {
                        assert(store.mems@ =~= pre_mems.update(
                            slot as int,
                            store.mems@[slot as int],
                        ));
                    }
                    res
                };
                self.stack.push(WasmValue::I32(outcome));
                self.set_pc(pc + 1);
                Ok(Signal::Next)
            },
            InstructionKind::MemoryInit { segment, .. } => {
                let seg = *segment as usize;
                let n = match pop_i32(&mut self.stack) {
                    Ok(x) => crate::numeric::i32_bits(x),
                    Err(e) => {
                        return Err(e);
                    },
                };
                let src = match pop_i32(&mut self.stack) {
                    Ok(x) => crate::numeric::i32_bits(x),
                    Err(e) => {
                        return Err(e);
                    },
                };
                let dst = match pop_i32(&mut self.stack) {
                    Ok(x) => crate::numeric::i32_bits(x),
                    Err(e) => {
                        return Err(e);
                    },
                };
                let dslot = match store.resolve_data(mi, seg) {
                    Some(x) => x,
                    None => {
                        return Err(ExecError::Invalid("data segment index out of range"));
                    },
                };
                let mslot = match store.resolve_mem(mi, 0) {
                    Some(x) => x,
                    None => {
                        return Err(ExecError::Invalid("the module has no memory"));
                    },
                };
                let chunk = match data_init_source(store, dslot, src, n) {
                    Ok(c) => c,
                    Err(e) => {
                        return Err(e);
                    },
                };
                let n = n as usize;
                let mlen = store.mems[mslot].byte_len();
                if n > mlen || (dst as u64) > (mlen - n) as u64 {
                    return Err(ExecError::Trap(Trap::OutOfBoundsMemoryAccess));
                }
                let ghost pre_mems = store.mems@;
                let mref = &mut store.mems[mslot];
                let res = mref.store_bytes(dst as usize, chunk.as_slice());
                proof {
                    assert(store.mems@ =~= pre_mems.update(
                        mslot as int,
                        store.mems@[mslot as int],
                    ));
                }
                match res {
                    Ok(()) => {
                        self.set_pc(pc + 1);
                        Ok(Signal::Next)
                    },
                    Err(()) => Err(ExecError::Trap(Trap::OutOfBoundsMemoryAccess)),
                }
            },
            InstructionKind::DataDrop { segment } => {
                let seg = *segment as usize;
                let dslot = match store.resolve_data(mi, seg) {
                    Some(x) => x,
                    None => {
                        return Err(ExecError::Invalid("data segment index out of range"));
                    },
                };
                let ghost pre_datas = store.datas@;
                let dref = &mut store.datas[dslot];
                dref.dropped = true;
                proof {
                    assert(store.datas@ =~= pre_datas.update(
                        dslot as int,
                        store.datas@[dslot as int],
                    ));
                }
                self.set_pc(pc + 1);
                Ok(Signal::Next)
            },
            InstructionKind::ElemDrop { segment } => {
                let seg = *segment as usize;
                let eslot = match store.resolve_elem(mi, seg) {
                    Some(x) => x,
                    None => {
                        return Err(ExecError::Invalid("element segment index out of range"));
                    },
                };
                let ghost pre_elems = store.elems@;
                let eref = &mut store.elems[eslot];
                eref.dropped = true;
                proof {
                    assert(store.elems@ =~= pre_elems.update(
                        eslot as int,
                        store.elems@[eslot as int],
                    ));
                }
                self.set_pc(pc + 1);
                Ok(Signal::Next)
            },
            InstructionKind::MemoryCopy { .. } => {
                let n = match pop_i32(&mut self.stack) {
                    Ok(x) => crate::numeric::i32_bits(x),
                    Err(e) => {
                        return Err(e);
                    },
                };
                let src = match pop_i32(&mut self.stack) {
                    Ok(x) => crate::numeric::i32_bits(x),
                    Err(e) => {
                        return Err(e);
                    },
                };
                let dst = match pop_i32(&mut self.stack) {
                    Ok(x) => crate::numeric::i32_bits(x),
                    Err(e) => {
                        return Err(e);
                    },
                };
                let slot = match store.resolve_mem(mi, 0) {
                    Some(x) => x,
                    None => {
                        return Err(ExecError::Invalid("the module has no memory"));
                    },
                };
                let mlen = store.mems[slot].byte_len();
                if (src as u64) + (n as u64) > (mlen as u64) || (dst as u64) + (n as u64) > (
                mlen as u64) {
                    return Err(ExecError::Trap(Trap::OutOfBoundsMemoryAccess));
                }
                let chunk = match store.mems[slot].load_bytes(src as usize, n as usize) {
                    Some(b) => b,
                    None => {
                        return Err(ExecError::Trap(Trap::OutOfBoundsMemoryAccess));
                    },
                };
                let ghost pre_mems = store.mems@;
                let mref = &mut store.mems[slot];
                let res = mref.store_bytes(dst as usize, chunk.as_slice());
                proof {
                    assert(store.mems@ =~= pre_mems.update(
                        slot as int,
                        store.mems@[slot as int],
                    ));
                }
                match res {
                    Ok(()) => {
                        self.set_pc(pc + 1);
                        Ok(Signal::Next)
                    },
                    Err(()) => Err(ExecError::Trap(Trap::OutOfBoundsMemoryAccess)),
                }
            },
            InstructionKind::MemoryFill { .. } => {
                let n = match pop_i32(&mut self.stack) {
                    Ok(x) => crate::numeric::i32_bits(x),
                    Err(e) => {
                        return Err(e);
                    },
                };
                let val = match pop_i32(&mut self.stack) {
                    Ok(x) => crate::numeric::i32_bits(x),
                    Err(e) => {
                        return Err(e);
                    },
                };
                let dst = match pop_i32(&mut self.stack) {
                    Ok(x) => crate::numeric::i32_bits(x),
                    Err(e) => {
                        return Err(e);
                    },
                };
                let slot = match store.resolve_mem(mi, 0) {
                    Some(x) => x,
                    None => {
                        return Err(ExecError::Invalid("the module has no memory"));
                    },
                };
                let mlen = store.mems[slot].byte_len();
                if (dst as u64) + (n as u64) > (mlen as u64) {
                    return Err(ExecError::Trap(Trap::OutOfBoundsMemoryAccess));
                }
                let b = (val % 256) as u8;
                let chunk: Vec<u8> = vec![b; n as usize];
                let ghost pre_mems = store.mems@;
                let mref = &mut store.mems[slot];
                let res = mref.store_bytes(dst as usize, chunk.as_slice());
                proof {
                    assert(store.mems@ =~= pre_mems.update(
                        slot as int,
                        store.mems@[slot as int],
                    ));
                }
                match res {
                    Ok(()) => {
                        self.set_pc(pc + 1);
                        Ok(Signal::Next)
                    },
                    Err(()) => Err(ExecError::Trap(Trap::OutOfBoundsMemoryAccess)),
                }
            },
            InstructionKind::TableGet { table } => {
                let tbl = *table as usize;
                let i = match pop_i32(&mut self.stack) {
                    Ok(x) => crate::numeric::i32_bits(x),
                    Err(e) => {
                        return Err(e);
                    },
                };
                let slot = match store.resolve_table(mi, tbl) {
                    Some(x) => x,
                    None => {
                        return Err(ExecError::Invalid("table index out of range"));
                    },
                };
                if (i as u64) > (usize::MAX as u64) {
                    return Err(ExecError::Trap(Trap::OutOfBoundsTableAccess));
                }
                match store.tables[slot].get(i as usize) {
                    Some(entry) => {
                        self.stack.push(WasmValue::FuncRef(entry));
                        self.set_pc(pc + 1);
                        Ok(Signal::Next)
                    },
                    None => Err(ExecError::Trap(Trap::OutOfBoundsTableAccess)),
                }
            },
            InstructionKind::TableSet { table } => {
                let tbl = *table as usize;
                let v = match pop_any(&mut self.stack) {
                    Ok(x) => x,
                    Err(e) => {
                        return Err(e);
                    },
                };
                let entry = match v {
                    WasmValue::FuncRef(f) => f,
                    _ => {
                        return Err(ExecError::Invalid("operand is not a function reference"));
                    },
                };
                let i = match pop_i32(&mut self.stack) {
                    Ok(x) => crate::numeric::i32_bits(x),
                    Err(e) => {
                        return Err(e);
                    },
                };
                let slot = match store.resolve_table(mi, tbl) {
                    Some(x) => x,
                    None => {
                        return Err(ExecError::Invalid("table index out of range"));
                    },
                };
                if (i as u64) > (usize::MAX as u64) {
                    return Err(ExecError::Trap(Trap::OutOfBoundsTableAccess));
                }
                let ghost pre_tables = store.tables@;
                let tref = &mut store.tables[slot];
                let res = tref.set(i as usize, entry);
                proof {
                    assert(store.tables@ =~= pre_tables.update(
                        slot as int,
                        store.tables@[slot as int],
                    ));
                }
                match res {
                    Ok(()) => {
                        self.set_pc(pc + 1);
                        Ok(Signal::Next)
                    },
                    Err(()) => Err(ExecError::Trap(Trap::OutOfBoundsTableAccess)),
                }
            },
            InstructionKind::TableSize { table } => {
                let tbl = *table as usize;
                let slot = match store.resolve_table(mi, tbl) {
                    Some(x) => x,
                    None => {
                        return Err(ExecError::Invalid("table index out of range"));
                    },
                };
                let len = store.tables[slot].len();
                if (len as u64) > 0xFFFF_FFFFu64 {
                    return Err(ExecError::Invalid("table is too large to measure"));
                }
                self.stack.push(WasmValue::I32(crate::numeric::u32_signed(len as u32)));
                self.set_pc(pc + 1);
                Ok(Signal::Next)
            },
            InstructionKind::RefFunc { function_index } => {
                let fi = *function_index as usize;
                self.stack.push(WasmValue::FuncRef(Some(FuncAddr(mi, fi))));
                self.set_pc(pc + 1);
                Ok(Signal::Next)
            },
            _ => {
                match exec_pure_i32(kind, &mut self.stack) {
                    Some(Ok(())) => {
                        self.set_pc(pc + 1);
                        return Ok(Signal::Next);
                    },
                    Some(Err(e)) => {
                        return Err(e);
                    },
                    None => {},
                }
                match exec_pure_i64(kind, &mut self.stack) {
                    Some(Ok(())) => {
                        self.set_pc(pc + 1);
                        return Ok(Signal::Next);
                    },
                    Some(Err(e)) => {
                        return Err(e);
                    },
                    None => {},
                }
                match exec_pure_misc(kind, &mut self.stack) {
                    Some(Ok(())) => {
                        self.set_pc(pc + 1);
                        return Ok(Signal::Next);
                    },
                    Some(Err(e)) => {
                        return Err(e);
                    },
                    None => {},
                }
                Err(ExecError::Invalid("the operator is not supported by this executor"))
            },
        }
    }
}

} // verus!
