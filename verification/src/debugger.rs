//! The debugger controller: a run/step state machine over the executor,
//! with function-level breakpoints and call-frame inspection.
//!
//! Every run is driven through `step`, one instruction at a time; before
//! the first instruction of any new frame the controller checks whether
//! that frame's function carries a breakpoint. A trap pauses the machine
//! with the trap as the reason and leaves the stacks for inspection.

use vstd::prelude::*;
use crate::address::{ExecutableFuncAddr, FuncAddr, ModuleIndex};
use crate::executor::{ExecError, Executor, Signal};
use crate::host::HostValue;
use crate::inst::Instruction;
use crate::module::ModuleInstance;
use crate::module_binary::parse_module;
use crate::module::spec_find_export;
use crate::store::{
    spec_func_ty, spec_resolve_func, spec_resolve_mem, FunctionInstance, Store,
};
use crate::trap::Trap;
use crate::types::{ExternalValue, FuncType};
use crate::value::WasmValue;

verus! {

/// Options of the controller.
#[derive(Clone)]
pub struct DebuggerOpts {
    pub watch_memory: bool,
}

impl Default for DebuggerOpts {
    /// The default options: memory watching off.
    fn default() -> (r: Self)
        ensures
            r.watch_memory == false,
    {
        DebuggerOpts { watch_memory: false }
    }
}

/// A breakpoint: the controller suspends execution before the first
/// instruction of the named function.
pub enum Breakpoint {
    Function { name: String },
}

/// What a run ended with: the returned values, or a suspension at a
/// breakpoint.
pub enum RunResult {
    Finish(Vec<WasmValue>),
    Breakpoint,
}

/// How one debugger step moves: by exactly one instruction, across calls,
/// or out of the current frame.
#[derive(Clone, Copy)]
pub enum StepStyle {
    StepInstIn,
    StepInstOver,
    StepOut,
}

/// The innermost frame, summarized for the user interface.
pub struct FunctionFrame {
    pub module_index: ModuleIndex,
    pub argument_count: usize,
}

/// Why the machine paused.
#[derive(Debug)]
pub enum PausedReason {
    HitBreakpoint,
    Stepped,
    Trapped(Trap),
    HostSuspended,
}

/// The controller's state machine.
pub enum DebuggerState {
    Idle,
    Running,
    Paused(PausedReason),
}

/// Why a run stopped abnormally.
#[derive(Debug)]
pub enum RunError {
    Trap(Trap),
    Fault(&'static str),
}

/// The per-run ceiling on executed instructions; exceeding it is a fault,
/// never an endless run.
pub const RUN_FUEL: u64 = 0x1000_0000_0000_0000;

/// The debugger: store, executor, options, breakpoints and state.
pub struct MainDebugger {
    pub store: Store,
    pub executor: Executor,
    pub opts: DebuggerOpts,
    pub breakpoints: Vec<String>,
    pub state: DebuggerState,
    pub main_module: Option<ModuleIndex>,
}

/// The function handle the main module exports under `name`: the main
/// module must be defined and the first export under the name a function.
pub open spec fn spec_lookup_func(d: &MainDebugger, name: Seq<char>) -> Option<FuncAddr> {
    match d.main_module {
        Some(mi) => match d.store.modules@[mi.0 as int] {
            ModuleInstance::Defined(dm) => match spec_find_export(dm.exports@, name) {
                Some(e) => match e.spec_value() {
                    ExternalValue::Func(a) => Some(a),
                    _ => None,
                },
                None => None,
            },
            ModuleInstance::Host(_) => None,
        },
        None => None,
    }
}

/// The name of the first export that is a function resolving to the flat
/// slot `exec_idx`, if any.
pub open spec fn spec_export_func_name(
    s: &Store,
    exports: Seq<crate::types::ExportInstance>,
    exec_idx: usize,
) -> Option<Seq<char>>
    decreases exports.len(),
{
    if exports.len() == 0 {
        None
    } else {
        let found = match exports[0].spec_value() {
            ExternalValue::Func(a) => match crate::store::spec_resolve_func(s, a) {
                Some(ea) => ea.0 == exec_idx,
                None => false,
            },
            _ => false,
        };
        if found {
            Some(exports[0].spec_name())
        } else {
            spec_export_func_name(s, exports.drop_first(), exec_idx)
        }
    }
}

/// The human-readable name of the function in flat slot `exec_idx`: the
/// main module's export name where one exists, a placeholder otherwise.
pub open spec fn spec_frame_name(d: &MainDebugger, exec_idx: usize) -> Seq<char> {
    match d.main_module {
        Some(mi) => match d.store.modules@[mi.0 as int] {
            ModuleInstance::Defined(dm) => match spec_export_func_name(
                &d.store,
                dm.exports@,
                exec_idx,
            ) {
                Some(n) => n,
                None => "<unnamed function>"@,
            },
            ModuleInstance::Host(_) => "<host module>"@,
        },
        None => "<unnamed function>"@,
    }
}

/// The bytes of the main module's first memory, when one resolves.
pub open spec fn spec_main_memory(d: &MainDebugger) -> Option<Seq<u8>> {
    match d.main_module {
        Some(mi) => match spec_resolve_mem(&d.store, mi, 0) {
            Some(slot) => Some(d.store.mems@[slot as int].view()),
            None => None,
        },
        None => None,
    }
}

impl MainDebugger {
    /// The store and executor are well-formed, and the main module, once
    /// loaded, names a module of the store.
    pub open spec fn wf(&self) -> bool {
        &&& self.store.wf()
        &&& self.executor.wf()
        &&& match self.main_module {
            Some(mi) => mi.0 < self.store.modules@.len(),
            None => true,
        }
    }

    /// Creates an idle debugger over an empty store.
    pub fn new() -> (d: Self)
        ensures
            d.wf(),
            d.store.modules@.len() == 0,
            d.main_module is None,
    {
        MainDebugger {
            store: Store::new(),
            executor: Executor::new(),
            opts: DebuggerOpts { watch_memory: false },
            breakpoints: Vec::new(),
            state: DebuggerState::Idle,
            main_module: None,
        }
    }

    /// The options.
    pub fn get_opts(&self) -> (r: DebuggerOpts)
        ensures
            r.watch_memory == self.opts.watch_memory,
    {
        DebuggerOpts { watch_memory: self.opts.watch_memory }
    }

    /// Replaces the options.
    pub fn set_opts(&mut self, opts: DebuggerOpts)
        requires
            old(self).wf(),
        ensures
            final(self).wf(),
            final(self).opts.watch_memory == opts.watch_memory,
    {
        self.opts = opts;
    }

    /// Releases every loaded module and all execution state.
    pub fn reset_store(&mut self)
        ensures
            final(self).wf(),
            final(self).store.modules@.len() == 0,
    {
        self.store.reset_store();
        self.executor = Executor::new();
        self.main_module = None;
        self.state = DebuggerState::Idle;
    }

    /// Registers an embedder-provided module under `name`.
    pub fn load_host_module(&mut self, name: String, values: Vec<(String, HostValue)>) -> (r:
        Result<ModuleIndex, &'static str>)
        requires
            old(self).wf(),
        ensures
            final(self).wf(),
            final(self).main_module == old(self).main_module,
            r matches Ok(mi) ==> mi.0 as nat == old(self).store.modules@.len() && final(self).store.modules@.len() == old(self).store.modules@.len() + 1 && final(self).store.modules@[mi.0 as int] is Host,
    {
        if self.store.module_count() >= (u32::MAX as usize) {
            return Err("too many modules");
        }
        let mi = self.store.load_host_module(name, values);
        Ok(mi)
    }

    /// Parses and instantiates a module from its bytes; the new module
    /// becomes the main module. A malformed module or an unsatisfiable
    /// import fails the whole load.
    pub fn load_module(&mut self, bytes: &[u8]) -> (r: Result<ModuleIndex, String>)
        requires
            old(self).wf(),
        ensures
            final(self).wf(),
            // a successful load installs the module and makes it the main one
            r matches Ok(mi) ==> mi.0 as nat == old(self).store.modules@.len() && final(self).store.modules@.len() == old(self).store.modules@.len() + 1 && final(self).store.modules@[mi.0 as int] is Defined && final(self).main_module == Some(mi),
    {
        if self.store.module_count() >= (u32::MAX as usize) {
            return Err(String::from_str("too many modules"));
        }
        let pm = match parse_module(bytes) {
            Ok(m) => m,
            Err(_) => {
                return Err(String::from_str("the module bytes are malformed"));
            },
        };
        let start = pm.start;
        let mi = match self.store.load_parsed_module(pm) {
            Ok(mi) => mi,
            Err(e) => {
                return Err(
                    match e {
                        crate::store::LinkError::TypeMismatch(_, m) => m,
                        crate::store::LinkError::UnknownImport(_, _) => String::from_str(
                            "an import cannot be satisfied",
                        ),
                        crate::store::LinkError::MultipleMemories => String::from_str(
                            "more than one memory is not supported",
                        ),
                        crate::store::LinkError::BadModule => String::from_str(
                            "the module refers outside its own index spaces",
                        ),
                        crate::store::LinkError::OutOfBoundsInstantiation => String::from_str(
                            "an active segment falls outside its target",
                        ),
                    },
                );
            },
        };
        self.main_module = Some(mi);
        // a declared start function runs now, with no arguments
        match start {
            Some(idx) => {
                match self.execute_func(FuncAddr(mi, idx as usize), Vec::new()) {
                    Ok(_) => Ok(mi),
                    Err(_) => Err(String::from_str("the start function trapped")),
                }
            },
            None => Ok(mi),
        }
    }

    /// The handle of the function exported under `name` by the main
    /// module.
    pub fn lookup_func(&self, name: &String) -> (r: Result<FuncAddr, &'static str>)
        requires
            self.wf(),
        ensures
            match r {
                Ok(a) => spec_lookup_func(self, name@) == Some(a),
                Err(_) => spec_lookup_func(self, name@) is None,
            },
    {
        let mi = match self.main_module {
            Some(mi) => mi,
            None => {
                return Err("no module is loaded");
            },
        };
        match &self.store.modules[mi.0 as usize] {
            ModuleInstance::Defined(dm) => {
                match dm.exported_func(name.clone()) {
                    Ok(Some(addr)) => Ok(addr),
                    Ok(None) => Err("nothing is exported under the name"),
                    Err(_) => Err("the export under the name is not a function"),
                }
            },
            ModuleInstance::Host(_) => Err("the main module is a host module"),
        }
    }

    /// The signature of the function behind `addr`.
    pub fn func_type(&self, addr: FuncAddr) -> (r: Result<FuncType, &'static str>)
        requires
            self.wf(),
        ensures
            match r {
                Ok(t) => spec_resolve_func(&self.store, addr) matches Some(ea) && t.params@
                    == spec_func_ty(&self.store, ea).params@ && t.returns@ == spec_func_ty(
                    &self.store,
                    ea,
                ).returns@,
                Err(_) => spec_resolve_func(&self.store, addr) is None,
            },
    {
        match self.store.resolve_func(addr) {
            Some(ea) => Ok(self.store.funcs[ea.0].get_ty().duplicate()),
            None => Err("the handle names no function"),
        }
    }

    /// Whether the function in flat slot `ea` carries a breakpoint.
    fn is_breakpoint(&self, ea: ExecutableFuncAddr) -> (r: bool)
        requires
            self.wf(),
    {
        let mut i: usize = 0;
        while i < self.breakpoints.len()
            invariant
                self.wf(),
                i <= self.breakpoints@.len(),
            decreases self.breakpoints@.len() - i,
        {
            let name = &self.breakpoints[i];
            match self.lookup_func(name) {
                Ok(addr) => {
                    match self.store.resolve_func(addr) {
                        Some(bea) => {
                            if bea.0 == ea.0 {
                                return true;
                            }
                        },
                        None => {},
                    }
                },
                Err(_) => {},
            }
            i = i + 1;
        }
        false
    }

    /// Installs a breakpoint.
    pub fn set_breakpoint(&mut self, breakpoint: Breakpoint)
        requires
            old(self).wf(),
        ensures
            final(self).wf(),
            breakpoint matches Breakpoint::Function { name } ==> final(self).breakpoints@ == old(self).breakpoints@.push(name),
    {
        match breakpoint {
            Breakpoint::Function { name } => {
                self.breakpoints.push(name);
            },
        }
    }

    /// Pushes the arguments and an initial frame for `addr` and runs until
    /// the computation finishes, a breakpoint suspends it, or a trap
    /// unwinds it. A finished run leaves as many values as the function's
    /// declared results.
    pub fn execute_func(&mut self, addr: FuncAddr, args: Vec<WasmValue>) -> (r: Result<
        RunResult,
        RunError,
    >)
        requires
            old(self).wf(),
        ensures
            final(self).wf(),
            final(self).main_module == old(self).main_module,
            final(self).store.modules@ == old(self).store.modules@,
            // a handle naming no function is the library's own fault
            spec_resolve_func(&old(self).store, addr) is None ==> r matches Err(
                RunError::Fault(_),
            ),
            // a finish drains the value stack, and from an idle machine it
            // leaves no frame behind
            r matches Ok(RunResult::Finish(values)) ==> final(self).executor.stack@.len() == 0 && (
            old(self).executor.frames@.len() == 0 ==> final(self).executor.frames@.len() == 0),
            // a suspension at a breakpoint pauses the machine so
            r matches Ok(RunResult::Breakpoint) ==> final(self).state matches
                DebuggerState::Paused(PausedReason::HitBreakpoint),
            // a trap pauses the machine with the trap as the reason
            r matches Err(RunError::Trap(t)) ==> (final(self).state matches DebuggerState::Paused(
                PausedReason::Trapped(t2),
            ) && t2 == t),
            // from an idle machine, a run given one argument per declared
            // parameter finishes with exactly the declared result arity
            (old(self).executor.frames@.len() == 0 && old(self).executor.stack@.len() == 0)
                ==> match spec_resolve_func(&old(self).store, addr) {
                Some(ea) => args@.len() == spec_func_ty(&old(self).store, ea).params@.len() ==> (
                r matches Ok(RunResult::Finish(values)) ==> values@.len() == spec_func_ty(
                    &old(self).store,
                    ea,
                ).returns@.len()),
                None => true,
            },
    {
        let ea = match self.store.resolve_func(addr) {
            Some(x) => x,
            None => {
                return Err(RunError::Fault("the handle names no function"));
            },
        };
        // arguments go onto the value stack in order
        let ghost n_args = args@.len();
        let mut args = args;
        loop
            invariant
                self.wf(),
                ea.0 < self.store.funcs@.len(),
                self.main_module == old(self).main_module,
                self.store == old(self).store,
                self.executor.frames@ == old(self).executor.frames@,
                self.executor.stack@.len() + args@.len() == old(self).executor.stack@.len()
                    + n_args,
            decreases args@.len(),
        {
            if args.len() == 0 {
                break ;
            }
            let v = args.remove(0);
            self.executor.stack.push(v);
        }
        self.state = DebuggerState::Running;
        match self.executor.invoke(&mut self.store, ea, 0) {
            Ok(Signal::Call(cea)) => {
                if self.is_breakpoint(cea) {
                    self.state = DebuggerState::Paused(PausedReason::HitBreakpoint);
                    return Ok(RunResult::Breakpoint);
                }
            },
            Ok(_) => {
                // a host function already ran to completion
                let vals = self.take_stack();
                self.state = DebuggerState::Idle;
                return Ok(RunResult::Finish(vals));
            },
            Err(e) => {
                return Err(self.fail(e));
            },
        }
        self.run_to_pause()
    }

    /// Turns an executor error into a run error, pausing on a trap.
    fn fail(&mut self, e: ExecError) -> (r: RunError)
        requires
            old(self).wf(),
        ensures
            final(self).wf(),
            final(self).store == old(self).store,
            final(self).executor == old(self).executor,
            final(self).main_module == old(self).main_module,
            e matches ExecError::Trap(t) ==> r == RunError::Trap(t) && (final(self).state matches
                DebuggerState::Paused(PausedReason::Trapped(t2)) && t2 == t),
            e matches ExecError::Invalid(m) ==> r == RunError::Fault(m),
    {
        match e {
            ExecError::Trap(t) => {
                let ghost t0 = t;
                let copy = match &t {
                    Trap::Unreachable => Trap::Unreachable,
                    Trap::DivisionByZero => Trap::DivisionByZero,
                    Trap::IntegerOverflow => Trap::IntegerOverflow,
                    Trap::InvalidConversionToInt => Trap::InvalidConversionToInt,
                    Trap::OutOfBoundsMemoryAccess => Trap::OutOfBoundsMemoryAccess,
                    Trap::OutOfBoundsTableAccess => Trap::OutOfBoundsTableAccess,
                    Trap::UninitializedElement => Trap::UninitializedElement,
                    Trap::UndefinedElement => Trap::UndefinedElement,
                    Trap::IndirectCallTypeMismatch => Trap::IndirectCallTypeMismatch,
                    Trap::StackOverflow => Trap::StackOverflow,
                    Trap::HostFunctionError(m) => Trap::HostFunctionError(m.clone()),
                };
                self.state = DebuggerState::Paused(PausedReason::Trapped(copy));
                RunError::Trap(t)
            },
            ExecError::Invalid(m) => {
                self.state = DebuggerState::Idle;
                RunError::Fault(m)
            },
        }
    }

    /// Takes the whole value stack as the run's results.
    fn take_stack(&mut self) -> (r: Vec<WasmValue>)
        requires
            old(self).wf(),
        ensures
            final(self).wf(),
            r@ == old(self).executor.stack@,
            final(self).executor.stack@.len() == 0,
            final(self).executor.frames@ == old(self).executor.frames@,
            final(self).store == old(self).store,
            final(self).main_module == old(self).main_module,
    {
        let mut out: Vec<WasmValue> = Vec::new();
        core::mem::swap(&mut self.executor.stack, &mut out);
        out
    }

    /// Steps until the computation finishes, hits a breakpoint, or traps.
    fn run_to_pause(&mut self) -> (r: Result<RunResult, RunError>)
        requires
            old(self).wf(),
        ensures
            final(self).wf(),
            final(self).main_module == old(self).main_module,
            final(self).store.modules@ == old(self).store.modules@,
            // a finish empties the machine, and from an outermost frame of
            // height zero it leaves exactly that frame's declared arity
            r matches Ok(RunResult::Finish(values)) ==> final(self).executor.frames@.len() == 0
                && final(self).executor.stack@.len() == 0 && ((old(self).executor.frames@.len() > 0
                && old(self).executor.frames@[0].height == 0) ==> values@.len() == old(self).executor.frames@[0].arity),
            // a suspension at a breakpoint pauses the machine so
            r matches Ok(RunResult::Breakpoint) ==> final(self).state matches
                DebuggerState::Paused(PausedReason::HitBreakpoint),
            // a trap pauses the machine with the trap as the reason
            r matches Err(RunError::Trap(t)) ==> final(self).state matches DebuggerState::Paused(
                PausedReason::Trapped(t2),
            ) && t2 == t,
    {
        let mut fuel: u64 = RUN_FUEL;
        loop
            invariant
                self.wf(),
                self.main_module == old(self).main_module,
                self.store.modules@ == old(self).store.modules@,
                old(self).executor.frames@.len() > 0 ==> self.executor.frames@.len() > 0
                    && self.executor.frames@[0].height == old(self).executor.frames@[0].height
                    && self.executor.frames@[0].arity == old(self).executor.frames@[0].arity,
            decreases fuel,
        {
            if fuel == 0 {
                return Err(RunError::Fault("the step budget is exhausted"));
            }
            fuel = fuel - 1;
            if self.executor.depth() == 0 {
                let vals = self.take_stack();
                self.state = DebuggerState::Idle;
                return Ok(RunResult::Finish(vals));
            }
            match self.executor.step(&mut self.store) {
                Ok(Signal::Call(cea)) => {
                    if self.is_breakpoint(cea) {
                        self.state = DebuggerState::Paused(PausedReason::HitBreakpoint);
                        return Ok(RunResult::Breakpoint);
                    }
                },
                Ok(Signal::Return) => {
                    if self.executor.depth() == 0 {
                        let vals = self.take_stack();
                        self.state = DebuggerState::Idle;
                        return Ok(RunResult::Finish(vals));
                    }
                },
                Ok(_) => {},
                Err(e) => {
                    return Err(self.fail(e));
                },
            }
        }
    }

    /// Resolves and runs the function exported under `name`, or the start
    /// function when no name is given, with no arguments.
    pub fn run(&mut self, name: Option<String>) -> (r: Result<RunResult, RunError>)
        requires
            old(self).wf(),
        ensures
            final(self).wf(),
            final(self).main_module == old(self).main_module,
            final(self).store.modules@ == old(self).store.modules@,
            // a name the main module does not export as a function is the
            // library's own fault
            name matches Some(n) && spec_lookup_func(old(self), n@) is None ==> r matches Err(
                RunError::Fault(_),
            ),
            // a finish drains the value stack
            r matches Ok(RunResult::Finish(values)) ==> final(self).executor.stack@.len() == 0,
            // a trap pauses the machine with the trap as the reason
            r matches Err(RunError::Trap(t)) ==> (final(self).state matches DebuggerState::Paused(
                PausedReason::Trapped(t2),
            ) && t2 == t),
    {
        let addr = match name {
            Some(n) => {
                match self.lookup_func(&n) {
                    Ok(a) => a,
                    Err(m) => {
                        return Err(RunError::Fault(m));
                    },
                }
            },
            None => {
                let mi = match self.main_module {
                    Some(mi) => mi,
                    None => {
                        return Err(RunError::Fault("no module is loaded"));
                    },
                };
                match &self.store.modules[mi.0 as usize] {
                    ModuleInstance::Defined(dm) => {
                        match dm.start_func_addr() {
                            Some(a) => *a,
                            None => {
                                return Err(RunError::Fault("the module has no start function"));
                            },
                        }
                    },
                    ModuleInstance::Host(_) => {
                        return Err(RunError::Fault("the main module is a host module"));
                    },
                }
            },
        };
        self.execute_func(addr, Vec::new())
    }

    /// Whether a computation is in flight.
    pub fn is_running(&self) -> (r: bool)
        ensures
            r == (self.executor.frames@.len() > 0),
    {
        self.executor.depth() > 0
    }

    /// Executes one debugger step: exactly one instruction, one instruction
    /// skipping calls, or until the current frame returns. The machine
    /// pauses as stepped, or at a breakpoint hit along the way.
    pub fn step(&mut self, style: StepStyle) -> (r: Result<Signal, RunError>)
        requires
            old(self).wf(),
        ensures
            final(self).wf(),
            final(self).main_module == old(self).main_module,
            final(self).store.modules@ == old(self).store.modules@,
            // every completed step leaves the machine paused: as stepped, or
            // at a breakpoint hit along the way
            r is Ok ==> final(self).state is Paused,
            // a trap pauses the machine with the trap as the reason
            r matches Err(RunError::Trap(t)) ==> (final(self).state matches DebuggerState::Paused(
                PausedReason::Trapped(t2),
            ) && t2 == t),
    {
        if self.executor.depth() == 0 {
            return Err(RunError::Fault("nothing is running"));
        }
        let floor = self.executor.depth();
        let first = match self.executor.step(&mut self.store) {
            Ok(s) => s,
            Err(e) => {
                return Err(self.fail(e));
            },
        };
        // a call stepped into a function carrying a breakpoint pauses there,
        // whatever the step style
        match &first {
            Signal::Call(cea) => {
                if self.is_breakpoint(*cea) {
                    self.state = DebuggerState::Paused(PausedReason::HitBreakpoint);
                    return Ok(first);
                }
            },
            _ => {},
        }
        match style {
            StepStyle::StepInstIn => {
                self.state = DebuggerState::Paused(PausedReason::Stepped);
                Ok(first)
            },
            StepStyle::StepInstOver => {
                match self.step_until_depth(floor) {
                    Ok(hit) => {
                        if !hit {
                            self.state = DebuggerState::Paused(PausedReason::Stepped);
                        }
                        Ok(first)
                    },
                    Err(e) => Err(e),
                }
            },
            StepStyle::StepOut => {
                match self.step_until_depth(floor - 1) {
                    Ok(hit) => {
                        if !hit {
                            self.state = DebuggerState::Paused(PausedReason::Stepped);
                        }
                        Ok(first)
                    },
                    Err(e) => Err(e),
                }
            },
        }
    }

    /// Steps until the call depth is back at `floor` or lower: the
    /// temporary depth watchpoint behind step-over and step-out. A hit
    /// breakpoint pauses early, and the pause is reported back.
    fn step_until_depth(&mut self, floor: usize) -> (r: Result<bool, RunError>)
        requires
            old(self).wf(),
        ensures
            final(self).wf(),
            final(self).main_module == old(self).main_module,
            final(self).store.modules@ == old(self).store.modules@,
            r == Ok::<bool, RunError>(true) ==> final(self).state matches DebuggerState::Paused(
                PausedReason::HitBreakpoint,
            ),
            r matches Err(RunError::Trap(t)) ==> (final(self).state matches DebuggerState::Paused(
                PausedReason::Trapped(t2),
            ) && t2 == t),
    {
        let mut fuel: u64 = RUN_FUEL;
        loop
            invariant
                self.wf(),
                self.main_module == old(self).main_module,
                self.store.modules@ == old(self).store.modules@,
            decreases fuel,
        {
            if fuel == 0 {
                return Err(RunError::Fault("the step budget is exhausted"));
            }
            fuel = fuel - 1;
            if self.executor.depth() <= floor {
                return Ok(false);
            }
            match self.executor.step(&mut self.store) {
                Ok(Signal::Call(cea)) => {
                    if self.is_breakpoint(cea) {
                        self.state = DebuggerState::Paused(PausedReason::HitBreakpoint);
                        return Ok(true);
                    }
                },
                Ok(_) => {},
                Err(e) => {
                    return Err(self.fail(e));
                },
            }
        }
    }

    /// Continues a paused computation until the next pause or the finish.
    pub fn process(&mut self) -> (r: Result<RunResult, RunError>)
        requires
            old(self).wf(),
        ensures
            final(self).wf(),
            final(self).main_module == old(self).main_module,
            final(self).store.modules@ == old(self).store.modules@,
            // a finish empties the machine
            r matches Ok(RunResult::Finish(values)) ==> final(self).executor.frames@.len() == 0
                && final(self).executor.stack@.len() == 0,
            // a trap pauses the machine with the trap as the reason
            r matches Err(RunError::Trap(t)) ==> (final(self).state matches DebuggerState::Paused(
                PausedReason::Trapped(t2),
            ) && t2 == t),
    {
        self.run_to_pause()
    }

    /// The innermost frame, as its module and declared parameter count.
    pub fn current_frame(&self) -> (r: Option<FunctionFrame>)
        ensures
            match r {
                Some(f) => self.executor.frames@.len() > 0 && f.module_index
                    == self.executor.frames@.last().module_index && f.argument_count
                    == self.executor.frames@.last().n_params,
                None => self.executor.frames@.len() == 0,
            },
    {
        let fl = self.executor.frames.len();
        if fl == 0 {
            return None;
        }
        let fr = &self.executor.frames[fl - 1];
        Some(FunctionFrame { module_index: fr.module_index, argument_count: fr.n_params })
    }

    /// The current call chain, outermost first, as human-readable names:
    /// the export name of each frame's function where one exists.
    pub fn frame(&self) -> (r: Vec<String>)
        requires
            self.wf(),
        ensures
            r@.len() == self.executor.frames@.len(),
            forall|i: int|
                0 <= i < r@.len() ==> (#[trigger] r@[i])@ == spec_frame_name(
                    self,
                    self.executor.frames@[i].exec_idx,
                ),
    {
        let mut out: Vec<String> = Vec::new();
        let mut i: usize = 0;
        while i < self.executor.frames.len()
            invariant
                self.wf(),
                i <= self.executor.frames@.len(),
                out@.len() == i,
                forall|j: int|
                    0 <= j < i ==> (#[trigger] out@[j])@ == spec_frame_name(
                        self,
                        self.executor.frames@[j].exec_idx,
                    ),
            decreases self.executor.frames@.len() - i,
        {
            let name = self.frame_name(self.executor.frames[i].exec_idx);
            out.push(name);
            i = i + 1;
        }
        out
    }

    /// The export name of the function in flat slot `exec_idx`, if the main
    /// module exports it; otherwise a placeholder.
    fn frame_name(&self, exec_idx: usize) -> (r: String)
        requires
            self.wf(),
        ensures
            r@ == spec_frame_name(self, exec_idx),
    {
        match self.main_module {
            Some(mi) => {
                match &self.store.modules[mi.0 as usize] {
                    ModuleInstance::Defined(dm) => {
                        proof {
                            assert(dm.exports@.skip(0) =~= dm.exports@);
                        }
                        let mut k: usize = 0;
                        while k < dm.exports.len()
                            invariant
                                self.wf(),
                                self.main_module == Some(mi),
                                mi.0 < self.store.modules@.len(),
                                self.store.modules@[mi.0 as int]
                                    matches ModuleInstance::Defined(dm2) && dm2 == *dm,
                                k <= dm.exports@.len(),
                                spec_export_func_name(&self.store, dm.exports@, exec_idx)
                                    == spec_export_func_name(
                                    &self.store,
                                    dm.exports@.skip(k as int),
                                    exec_idx,
                                ),
                            decreases dm.exports@.len() - k,
                        {
                            proof {
                                assert(dm.exports@.skip(k as int)[0] == dm.exports@[k as int]);
                                assert(dm.exports@.skip(k as int).drop_first() =~= dm.exports@.skip(
                                    k as int + 1,
                                ));
                            }
                            match dm.exports[k].value() {
                                ExternalValue::Func(addr) => {
                                    match self.store.resolve_func(addr) {
                                        Some(ea) => {
                                            if ea.0 == exec_idx {
                                                proof {
                                                    assert(spec_export_func_name(
                                                        &self.store,
                                                        dm.exports@.skip(k as int),
                                                        exec_idx,
                                                    ) == Some(dm.exports@[k as int].spec_name()));
                                                }
                                                return dm.exports[k].name().clone();
                                            }
                                        },
                                        None => {},
                                    }
                                },
                                _ => {},
                            }
                            k = k + 1;
                        }
                        proof {
                            assert(dm.exports@.skip(dm.exports@.len() as int) =~= Seq::<
                                crate::types::ExportInstance,
                            >::empty());
                        }
                        String::from_str("<unnamed function>")
                    },
                    ModuleInstance::Host(_) => String::from_str("<host module>"),
                }
            },
            None => String::from_str("<unnamed function>"),
        }
    }

    /// A copy of the innermost frame's locals.
    pub fn locals(&self) -> (r: Vec<WasmValue>)
        ensures
            self.executor.frames@.len() > 0 ==> r@ == self.executor.frames@.last().locals@,
            self.executor.frames@.len() == 0 ==> r@.len() == 0,
    {
        let fl = self.executor.frames.len();
        let mut out: Vec<WasmValue> = Vec::new();
        if fl == 0 {
            return out;
        }
        let fr = &self.executor.frames[fl - 1];
        let mut i: usize = 0;
        while i < fr.locals.len()
            invariant
                fl - 1 < self.executor.frames@.len(),
                fr == &self.executor.frames@[fl - 1],
                i <= fr.locals@.len(),
                out@ == fr.locals@.subrange(0, i as int),
            decreases fr.locals@.len() - i,
        {
            out.push(fr.locals[i]);
            proof {
                assert(out@ =~= fr.locals@.subrange(0, i + 1));
            }
            i = i + 1;
        }
        proof {
            assert(out@ =~= fr.locals@);
        }
        out
    }

    /// A snapshot of the value stack.
    pub fn stack_values(&self) -> (r: Vec<WasmValue>)
        ensures
            r@ == self.executor.stack@,
    {
        let mut out: Vec<WasmValue> = Vec::new();
        let mut i: usize = 0;
        while i < self.executor.stack.len()
            invariant
                i <= self.executor.stack@.len(),
                out@ == self.executor.stack@.subrange(0, i as int),
            decreases self.executor.stack@.len() - i,
        {
            out.push(self.executor.stack[i]);
            proof {
                assert(out@ =~= self.executor.stack@.subrange(0, i + 1));
            }
            i = i + 1;
        }
        proof {
            assert(out@ =~= self.executor.stack@);
        }
        out
    }

    /// A snapshot of the main module's first memory.
    pub fn memory(&self) -> (r: Result<Vec<u8>, &'static str>)
        requires
            self.wf(),
        ensures
            match r {
                Ok(bytes) => spec_main_memory(self) == Some(bytes@),
                Err(_) => spec_main_memory(self) is None,
            },
    {
        let mi = match self.main_module {
            Some(mi) => mi,
            None => {
                return Err("no module is loaded");
            },
        };
        match self.store.resolve_mem(mi, 0) {
            Some(slot) => Ok(self.store.mems[slot].snapshot()),
            None => Err("the module has no memory"),
        }
    }

    /// Writes `bytes` into the main module's first memory at `offset`.
    pub fn write_memory(&mut self, offset: usize, bytes: &[u8]) -> (r: Result<(), &'static str>)
        requires
            old(self).wf(),
        ensures
            final(self).wf(),
            final(self).main_module == old(self).main_module,
            final(self).executor == old(self).executor,
            match r {
                Ok(()) => spec_main_memory(old(self)) matches Some(mem) && offset + bytes@.len()
                    <= mem.len() && spec_main_memory(final(self)) == Some(
                    mem.subrange(0, offset as int) + bytes@ + mem.subrange(
                        offset + bytes@.len(),
                        mem.len() as int,
                    ),
                ),
                Err(_) => spec_main_memory(final(self)) == spec_main_memory(old(self)) && match
                    spec_main_memory(old(self)) {
                    Some(mem) => offset + bytes@.len() > mem.len(),
                    None => true,
                },
            },
    {
        let mi = match self.main_module {
            Some(mi) => mi,
            None => {
                return Err("no module is loaded");
            },
        };
        match self.store.resolve_mem(mi, 0) {
            Some(slot) => {
                let ghost pre_mems = self.store.mems@;
                let mref = &mut self.store.mems[slot];
                let res = mref.store_bytes(offset, bytes);
                proof {
                    assert(self.store.mems@ =~= pre_mems.update(
                        slot as int,
                        self.store.mems@[slot as int],
                    ));
                }
                match res {
                    Ok(()) => Ok(()),
                    Err(()) => Err("the write falls outside the memory"),
                }
            },
            None => Err("the module has no memory"),
        }
    }

    /// The innermost frame's function body and the current instruction
    /// index within it.
    pub fn instructions(&self) -> (r: Result<(&Vec<Instruction>, usize), &'static str>)
        requires
            self.wf(),
    {
        let fl = self.executor.frames.len();
        if fl == 0 {
            return Err("nothing is running");
        }
        let fr = &self.executor.frames[fl - 1];
        if fr.exec_idx >= self.store.funcs.len() {
            return Err("stale function slot");
        }
        match &self.store.funcs[fr.exec_idx] {
            FunctionInstance::Defined(d) => Ok((&d.body, fr.pc)),
            FunctionInstance::Host(_) => Err("a host function has no body"),
        }
    }
}

} // verus!
