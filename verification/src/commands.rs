//! The command surface: what an interactive shell or a proxy needs to drive
//! the debugger, and the abstract source-level services it consumes.

use vstd::prelude::*;
use crate::debugger::{DebuggerOpts, MainDebugger, RunError, RunResult, StepStyle};
use crate::value::WasmValue;

verus! {

/// A source location recovered from debug information.
pub struct LineInfo {
    pub filepath: String,
    pub line: u32,
    pub column: u32,
}

/// One entry of a subroutine chain.
pub struct SubroutineInfo {
    pub name: String,
    pub inlined: bool,
}

/// The source-map service: byte offsets to source locations.
pub trait SourceMap {
    /// The source location of the instruction at `offset` of the current
    /// function's body, if the debug information names one.
    fn find_line_info(&self, offset: usize) -> Option<LineInfo>;
}

/// The subroutine service: program counters to subroutine names.
pub trait SubroutineMap {
    /// The subroutine chain at the given body offsets, innermost last.
    fn subroutine_chain(&self, offsets: &Vec<usize>) -> Vec<SubroutineInfo>;
}

/// The output sink of the command layer.
pub trait OutputPrinter {
    /// Prints one line of ordinary output.
    fn output(&self, msg: &str);

    /// Prints one line of error output.
    fn error(&self, msg: &str);
}

/// What a command layer needs besides the debugger: the two
/// debug-information services and the output sink.
pub struct CommandContext {
    pub sourcemap: Box<dyn SourceMap>,
    pub subroutine: Box<dyn SubroutineMap>,
    pub printer: Box<dyn OutputPrinter>,
}

/// What dispatching one command left behind.
pub enum CommandResult {
    ProcessFinish(Vec<WasmValue>),
    Exit,
}

/// The debugger as the command layer sees it.
pub trait Debugger {
    /// The consistency every command relies on and leaves behind.
    spec fn inv(&self) -> bool;

    /// The options.
    fn get_opts(&self) -> DebuggerOpts;

    /// Replaces the options.
    fn set_opts(&mut self, opts: DebuggerOpts)
        requires
            old(self).inv(),
        ensures
            final(self).inv(),
    ;

    /// Runs the function exported under `name`, or the start function.
    fn run(&mut self, name: Option<String>) -> (r: Result<RunResult, RunError>)
        requires
            old(self).inv(),
        ensures
            final(self).inv(),
    ;

    /// Whether a computation is in flight.
    fn is_running(&self) -> bool;

    /// Executes one debugger step of the given style.
    fn step(&mut self, style: StepStyle) -> (r: Result<crate::executor::Signal, RunError>)
        requires
            old(self).inv(),
        ensures
            final(self).inv(),
    ;

    /// Continues a paused computation to the next pause or the finish.
    fn process(&mut self) -> (r: Result<RunResult, RunError>)
        requires
            old(self).inv(),
        ensures
            final(self).inv(),
    ;

    /// A copy of the innermost frame's locals.
    fn locals(&self) -> Vec<WasmValue>;

    /// A snapshot of the value stack.
    fn stack_values(&self) -> Vec<WasmValue>;
}

impl Debugger for MainDebugger {
    open spec fn inv(&self) -> bool {
        self.wf()
    }

    fn get_opts(&self) -> DebuggerOpts {
        MainDebugger::get_opts(self)
    }

    fn set_opts(&mut self, opts: DebuggerOpts) {
        MainDebugger::set_opts(self, opts)
    }

    fn run(&mut self, name: Option<String>) -> Result<RunResult, RunError> {
        MainDebugger::run(self, name)
    }

    fn is_running(&self) -> bool {
        MainDebugger::is_running(self)
    }

    fn step(&mut self, style: StepStyle) -> Result<crate::executor::Signal, RunError> {
        MainDebugger::step(self, style)
    }

    fn process(&mut self) -> Result<RunResult, RunError> {
        MainDebugger::process(self)
    }

    fn locals(&self) -> Vec<WasmValue> {
        MainDebugger::locals(self)
    }

    fn stack_values(&self) -> Vec<WasmValue> {
        MainDebugger::stack_values(self)
    }
}

/// One command of the interactive shell.
pub trait Command<D: Debugger> {
    /// The name the command is invoked by.
    fn name(&self) -> &'static str;

    /// One line describing the command.
    fn description(&self) -> &'static str {
        "No description yet"
    }

    /// Runs the command on the debugger with the given arguments.
    fn run(&self, debugger: &mut D, context: &CommandContext, args: Vec<String>) -> Result<
        (),
        String,
    >;
}

/// A command that rewrites itself into another command line.
pub trait AliasCommand {
    /// The name the alias is invoked by.
    fn name(&self) -> &'static str;

    /// One line describing the alias.
    fn description(&self) -> &'static str {
        "No description yet"
    }

    /// Rewrites the arguments into the command line to dispatch.
    fn run(&self, args: Vec<String>) -> Result<String, String>;
}

} // verus!
