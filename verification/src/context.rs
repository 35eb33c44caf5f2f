//! The session dispatcher: owns the timing flag, the most recent
//! compilation-failure record, the startup script and the engine handle, and
//! turns segment sequences into merged outputs, exactly as the model in
//! `model` says.

use vstd::prelude::*;
use vstd::string::StringExecFns;
use crate::clock;
use crate::deps::parse_dep_argument;
use crate::engine::{EngineV, EvalContext, EvalResponse, initial_engine};
use crate::errors::{clone_failures, CompilationFailureRecord, Error};
use crate::model::{
    all_explained, command_step, completion_deps, dep_step, encoded_of, explanations_of, replay,
    replay_lines, run_line, scan, OutV, ReplayOut, ScanOut, ScriptV, StateV, StepV,
};
use crate::outputs::{text_output, AccV, OutputAccumulator};
use crate::segment::{code_fragments, CommandFragment, Segment, SegV};
use crate::vars::{render_vars_html, render_vars_text, vars_html, vars_text};

verus! {

/// The startup files' contents, already read and segmented by the host: the
/// line-oriented startup commands, then an optional prelude source.
pub struct StartupScript {
    pub lines: Vec<Vec<Segment>>,
    pub prelude: Option<Vec<Segment>>,
}

impl View for StartupScript {
    type V = ScriptV;

    open spec fn view(&self) -> ScriptV {
        ScriptV {
            lines: self.lines.deep_view(),
            prelude: match self.prelude {
                Some(ref p) => Some(p.deep_view()),
                None => None,
            },
        }
    }
}

/// The sink for engine-reported incremental events.  The engine model
/// reports verdicts only as whole responses, so the sink carries nothing; it
/// keeps the shape of the entry point that takes one.
pub struct EvalCallbacks {}

impl Default for EvalCallbacks {
    fn default() -> (r: EvalCallbacks)
        ensures
            r == (EvalCallbacks {  }),
    {
        EvalCallbacks {  }
    }
}

/// How one dispatch call ended when it did not fail.
pub enum Outcome {
    /// The merged output of the call.
    Output(OutputAccumulator),
    /// A command asked the host to terminate the session.
    Terminated,
}

/// What one command asks the dispatch loop to do.
enum CommandStep {
    Out(OutputAccumulator),
    Quit,
    Replay,
}

/// What one startup replay handed back.
enum ReplayStep {
    Done(OutputAccumulator),
    Quit,
}

/// The image of an optional argument string.
pub open spec fn opt_chars(o: Option<String>) -> Option<Seq<char>> {
    match o {
        Some(s) => Some(s@),
        None => None,
    }
}

/// An executable accumulator agrees with a model accumulator when the
/// contents are equal and a timing value is attached on both sides or on
/// neither: the model cannot know what the clock read.
pub open spec fn acc_rel(a: AccV, m: AccV) -> bool {
    a.content == m.content && (a.timing is Some <==> m.timing is Some)
}

spec fn step_rel(r: Result<CommandStep, Error>, v: Result<StepV, crate::errors::ErrV>) -> bool {
    match (r, v) {
        (Ok(CommandStep::Out(o)), Ok(StepV::Out(ov))) => o@ == ov && o.wf(),
        (Ok(CommandStep::Quit), Ok(StepV::Quit)) => true,
        (Ok(CommandStep::Replay), Ok(StepV::Replay)) => true,
        (Err(e), Err(ev)) => e@ == ev,
        _ => false,
    }
}

spec fn replay_rel(r: Result<ReplayStep, Error>, v: Result<ReplayOut, crate::errors::ErrV>) -> bool {
    match (r, v) {
        (Ok(ReplayStep::Done(a)), Ok(ReplayOut::Done(av))) => acc_rel(a@, av) && a.wf(),
        (Ok(ReplayStep::Quit), Ok(ReplayOut::Quit)) => true,
        (Err(e), Err(ev)) => e@ == ev,
        _ => false,
    }
}

/// How an executable dispatch result agrees with the model's.
pub open spec fn outcome_rel(r: Result<Outcome, Error>, v: Result<OutV, crate::errors::ErrV>) -> bool {
    match (r, v) {
        (Ok(Outcome::Output(a)), Ok(OutV::Output(av))) => acc_rel(a@, av) && a.wf(),
        (Ok(Outcome::Terminated), Ok(OutV::Terminated)) => true,
        (Err(e), Err(ev)) => e@ == ev,
        _ => false,
    }
}

fn bool_str(b: bool) -> (r: &'static str)
    ensures
        r@ == crate::model::bool_chars(b),
{
    if b {
        "true"
    } else {
        "false"
    }
}

fn status(prefix: &str, value: &str) -> (r: OutputAccumulator)
    ensures
        r@ == AccV::text(prefix@ + value@ + "\n"@),
        r.wf(),
{
    let mut t = String::from_str(prefix);
    t.append(value);
    match text_output(t.as_str()) {
        Ok(o) => o,
        Err(_) => {
            proof {
                assert(false);
            }
            OutputAccumulator::new()
        },
    }
}

/// A higher-level interface to the engine handle, a bit closer to a full
/// read-eval-print loop: commands alter session state or print information,
/// code goes to the engine.
pub struct CommandContext {
    print_timings: bool,
    eval_context: EvalContext,
    last_errors: Vec<CompilationFailureRecord>,
    startup: Option<StartupScript>,
}

impl View for CommandContext {
    type V = StateV;

    closed spec fn view(&self) -> StateV {
        StateV {
            print_timings: self.print_timings,
            last_errors: self.last_errors.deep_view(),
            startup: match self.startup {
                Some(ref s) => Some(s@),
                None => None,
            },
            engine: self.eval_context@,
        }
    }
}

/// The session state every fresh context starts in.
pub open spec fn initial_state(engine: EngineV) -> StateV {
    StateV { print_timings: false, last_errors: Seq::empty(), startup: None, engine }
}

impl CommandContext {
    /// A context around an existing engine handle.
    pub fn with_eval_context(eval_context: EvalContext) -> (r: CommandContext)
        ensures
            r@ == initial_state(eval_context@),
    {
        let r = CommandContext {
            print_timings: false,
            eval_context,
            last_errors: Vec::new(),
            startup: None,
        };
        proof {
            assert(r.last_errors.deep_view() =~= Seq::<crate::errors::FailureV>::empty());
        }
        r
    }

    /// A context around a fresh engine handle.
    pub fn new() -> (r: CommandContext)
        ensures
            r@ == initial_state(initial_engine()),
    {
        let eval_context = EvalContext::new();
        CommandContext::with_eval_context(eval_context)
    }

    /// A context for tests: a fresh engine handle whose verdicts the test
    /// loads itself.
    pub fn new_for_testing() -> (r: CommandContext)
        ensures
            r@ == initial_state(initial_engine()),
    {
        CommandContext::new()
    }

    /// Installs the startup files' contents for later replay.
    pub fn set_startup_script(&mut self, script: StartupScript)
        ensures
            final(self)@ == (StateV { startup: Some(script@), ..old(self)@ }),
    {
        self.startup = Some(script);
    }

    /// Whether elapsed time is attached to results.
    pub fn timing_enabled(&self) -> (r: bool)
        ensures
            r == self@.print_timings,
    {
        self.print_timings
    }

    /// The most recent compilation failure, empty if none was recorded.
    pub fn last_errors(&self) -> (r: &Vec<CompilationFailureRecord>)
        ensures
            r.deep_view() == self@.last_errors,
    {
        &self.last_errors
    }

    /// The engine handle, for inspection.
    pub fn engine(&self) -> (r: &EvalContext)
        ensures
            r@ == self@.engine,
    {
        &self.eval_context
    }

    /// Loads the verdict the engine will report for the next evaluation.
    pub fn push_eval_result(&mut self, response: EvalResponse)
        ensures
            final(self)@ == (StateV {
                engine: EngineV {
                    pending: old(self)@.engine.pending.push(response@),
                    ..old(self)@.engine
                },
                ..old(self)@
            }),
    {
        self.eval_context.push_eval_result(response);
    }

    /// Records what variable bindings the engine holds.
    pub fn set_variables(&mut self, variables: Vec<(String, String)>)
        ensures
            final(self)@ == (StateV {
                engine: EngineV { variables: variables.deep_view(), ..old(self)@.engine },
                ..old(self)@
            }),
    {
        self.eval_context.set_variables(variables);
    }

    /// Sets the optimization level on the engine.
    pub fn set_opt_level(&mut self, level: &str) -> (r: Result<(), Error>)
        ensures
            if level@.len() == 0 {
                r matches Err(e) && e@ == crate::errors::ErrV::InvalidOptimizationLevel
                    && final(self)@ == old(self)@
            } else {
                r is Ok && final(self)@ == (StateV {
                    engine: EngineV { opt_level: level@, ..old(self)@.engine },
                    ..old(self)@
                })
            },
    {
        self.eval_context.set_opt_level(level)
    }

    /// The current variable bindings rendered as plain text.
    pub fn vars_as_text(&self) -> (r: String)
        ensures
            r@ == vars_text(self@.engine.variables),
    {
        render_vars_text(self.eval_context.variables_and_types())
    }

    /// The current variable bindings rendered as a markup table.
    pub fn vars_as_html(&self) -> (r: String)
        ensures
            r@ == vars_html(self@.engine.variables),
    {
        render_vars_html(self.eval_context.variables_and_types())
    }

    /// Registers a dependency from the raw command argument.
    pub fn process_dep_command(&mut self, args: &Option<String>) -> (r: Result<
        OutputAccumulator,
        Error,
    >)
        ensures
            ({
                let (s2, dr) = dep_step(old(self)@, opt_chars(*args));
                final(self)@ == s2 && match (r, dr) {
                    (Ok(o), Ok(())) => o@ == AccV::empty() && o.wf(),
                    (Err(e), Err(ev)) => e@ == ev,
                    _ => false,
                }
            }),
    {
        let a = match args {
            Some(v) => v,
            None => {
                return Err(Error::MissingDependencyArgument);
            },
        };
        match parse_dep_argument(a.as_str()) {
            Err(e) => Err(e),
            Ok((dep_name, dep_version)) => {
                match self.eval_context.add_dep(dep_name, dep_version) {
                    Ok(()) => {
                        proof {
                            assert(self@ =~= dep_step(old(self)@, opt_chars(*args)).0);
                        }
                        Ok(OutputAccumulator::new())
                    },
                    Err(e) => {
                        proof {
                            assert(false);
                        }
                        Err(e)
                    },
                }
            },
        }
    }

    /// Dispatches one command: alters session or engine state eagerly and
    /// hands back its output or effect, exactly as the model's
    /// `command_step` says.
    #[verifier::loop_isolation(false)]
    #[verifier::rlimit(100)]
    fn process_command(&mut self, name: &String, args: &Option<String>) -> (r: Result<
        CommandStep,
        Error,
    >)
        ensures
            ({
                let (s2, cr) = command_step(old(self)@, name@, opt_chars(*args));
                final(self)@ == s2 && step_rel(r, cr)
            }),
    {
        if *name == String::from_str(":toggle-internal-debug") {
            let debug_mode = !self.eval_context.debug_mode();
            self.eval_context.set_debug_mode(debug_mode);
            Ok(CommandStep::Out(status("Internal debug: ", bool_str(debug_mode))))
        } else if *name == String::from_str(":load-config") {
            Ok(CommandStep::Replay)
        } else if *name == String::from_str(":version") {
            match text_output("0.1.0") {
                Ok(o) => Ok(CommandStep::Out(o)),
                Err(e) => {
                    proof {
                        assert(false);
                    }
                    Err(e)
                },
            }
        } else if *name == String::from_str(":list-vars") {
            let text = render_vars_text(self.eval_context.variables_and_types());
            let html = render_vars_html(self.eval_context.variables_and_types());
            let mut outputs = OutputAccumulator::new();
            outputs.insert(String::from_str("text/plain"), text);
            outputs.insert(String::from_str("text/html"), html);
            Ok(CommandStep::Out(outputs))
        } else if *name == String::from_str(":preserve-on-panic") {
            let v = match args {
                Some(a) => *a == String::from_str("1"),
                None => false,
            };
            self.eval_context.set_preserve_vars_on_panic(v);
            Ok(CommandStep::Out(status("Preserve variables on panic: ", bool_str(v))))
        } else if *name == String::from_str(":clear") {
            match self.eval_context.clear() {
                Ok(()) => Ok(CommandStep::Out(OutputAccumulator::new())),
                Err(e) => {
                    proof {
                        assert(false);
                    }
                    Err(e)
                },
            }
        } else if *name == String::from_str(":add-dependency") {
            match self.process_dep_command(args) {
                Ok(o) => Ok(CommandStep::Out(o)),
                Err(e) => Err(e),
            }
        } else if *name == String::from_str(":last-compile-dir") {
            let dir = self.eval_context.last_compile_dir().clone();
            Ok(CommandStep::Out(status("Last compile dir: ", dir.as_str())))
        } else if *name == String::from_str(":set-opt-level") {
            let new_level: String = match args {
                Some(l) => l.clone(),
                None => {
                    if *self.eval_context.opt_level() == String::from_str("2") {
                        String::from_str("0")
                    } else {
                        String::from_str("2")
                    }
                },
            };
            match self.eval_context.set_opt_level(new_level.as_str()) {
                Err(e) => Err(e),
                Ok(()) => Ok(CommandStep::Out(status("Optimization: ", new_level.as_str()))),
            }
        } else if *name == String::from_str(":set-output-format") {
            let f: String = match args {
                Some(g) => g.clone(),
                None => String::from_str("{:?}"),
            };
            self.eval_context.set_output_format(f.clone());
            Ok(CommandStep::Out(status("Output format: ", f.as_str())))
        } else if *name == String::from_str(":set-error-format") {
            match args {
                Some(f) => match self.eval_context.set_error_format(f.as_str()) {
                    Err(e) => {
                        return Err(e);
                    },
                    Ok(()) => {},
                },
                None => {},
            }
            let mut t = String::from_str("Error format: ");
            t.append(self.eval_context.error_format().as_str());
            t.append(" (errors must implement ");
            t.append(self.eval_context.error_format_trait().as_str());
            t.append(")");
            match text_output(t.as_str()) {
                Ok(o) => Ok(CommandStep::Out(o)),
                Err(e) => {
                    proof {
                        assert(false);
                    }
                    Err(e)
                },
            }
        } else if *name == String::from_str(":quit") {
            Ok(CommandStep::Quit)
        } else if *name == String::from_str(":toggle-timing") {
            self.print_timings = !self.print_timings;
            Ok(CommandStep::Out(status("Timing: ", bool_str(self.print_timings))))
        } else if *name == String::from_str(":toggle-pass-timing") {
            let v = !self.eval_context.time_passes();
            self.eval_context.set_time_passes(v);
            Ok(CommandStep::Out(status("Time passes: ", bool_str(v))))
        } else if *name == String::from_str(":set-cache-backend") {
            let v = match args {
                Some(a) => !(*a == String::from_str("0")),
                None => true,
            };
            match self.eval_context.set_sccache(v) {
                Ok(()) => Ok(CommandStep::Out(status("Compilation cache: ", bool_str(v)))),
                Err(e) => {
                    proof {
                        assert(false);
                    }
                    Err(e)
                },
            }
        } else if *name == String::from_str(":set-linker") {
            match args {
                Some(l) => self.eval_context.set_linker(l.clone()),
                None => {},
            }
            let l = self.eval_context.linker().clone();
            Ok(CommandStep::Out(status("Linker: ", l.as_str())))
        } else if *name == String::from_str(":explain-last-error") {
            if self.last_errors.len() == 0 {
                return Err(Error::NoFailureToExplain);
            }
            let ghost dv = self.last_errors.deep_view();
            let mut all = String::new();
            let mut i: usize = 0;
            while i < self.last_errors.len()
                invariant
                    i <= self.last_errors.len(),
                    all@ == explanations_of(dv.take(i as int)),
                    forall|j: int| 0 <= j < i ==> (#[trigger] dv[j]).explanation is Some,
                decreases self.last_errors.len() - i,
            {
                match &self.last_errors[i].explanation {
                    Some(explanation) => {
                        all.append(explanation.as_str());
                        proof {
                            assert(dv.take(i + 1).drop_last() =~= dv.take(i as int));
                            assert(dv.take(i + 1).last() == dv[i as int]);
                        }
                    },
                    None => {
                        proof {
                            assert(dv[i as int] == self.last_errors@[i as int]@);
                            assert((dv[i as int]).explanation is None);
                            assert(!all_explained(dv));
                        }
                        return Err(Error::FailureWithoutExplanation);
                    },
                }
                i = i + 1;
            }
            proof {
                assert(dv.take(self.last_errors.len() as int) =~= dv);
            }
            match text_output(all.as_str()) {
                Ok(o) => Ok(CommandStep::Out(o)),
                Err(e) => {
                    proof {
                        assert(false);
                    }
                    Err(e)
                },
            }
        } else if *name == String::from_str(":last-error-encoded") {
            let ghost dv = self.last_errors.deep_view();
            let mut out = String::new();
            let mut i: usize = 0;
            while i < self.last_errors.len()
                invariant
                    i <= self.last_errors.len(),
                    out@ == encoded_of(dv.take(i as int)),
                decreases self.last_errors.len() - i,
            {
                out.append(self.last_errors[i].encoded.as_str());
                out.append("\n");
                proof {
                    assert(dv.take(i + 1).drop_last() =~= dv.take(i as int));
                    assert(dv.take(i + 1).last() == dv[i as int]);
                    assert(out@ =~= encoded_of(dv.take(i + 1)));
                }
                i = i + 1;
            }
            proof {
                assert(dv.take(self.last_errors.len() as int) =~= dv);
            }
            Err(Error::EncodedReport(out))
        } else if *name == String::from_str(":help") {
            match text_output(
                ":list-vars              List bound variables and their types\n:set-opt-level [level]  Toggle/set optimization level\n:set-output-format [f]  Set the formatter for evaluated results\n:set-error-format [f]   Set the formatter for propagated errors\n:explain-last-error     Print explanation of last error\n:clear                  Clear all state, keeping compilation cache\n:add-dependency n [= v] Add a dependency\n:set-cache-backend [0|1] Set whether to use the compilation cache\n:set-linker [linker]    Set/print linker\n:version                Print the version\n:quit                   Quit evaluation and exit\n:preserve-on-panic [0|1] Try to keep vars on panic\n:load-config            Replay the startup files\n:last-compile-dir       Print the directory of the last compilation\n:toggle-timing          Toggle timing of evaluations\n:last-error-encoded     Print the last compilation error, encoded\n:toggle-pass-timing     Toggle timing of compiler passes\n:toggle-internal-debug  Toggle internal debugging",
            ) {
                Ok(o) => Ok(CommandStep::Out(o)),
                Err(e) => {
                    proof {
                        assert(false);
                    }
                    Err(e)
                },
            }
        } else {
            Err(Error::UnrecognisedCommand(name.clone()))
        }
    }
}

fn clone_segment(s: &Segment) -> (r: Segment)
    ensures
        r@ == s@,
{
    match s {
        Segment::Code(c) => Segment::Code(c.clone()),
        Segment::Command(f) => Segment::Command(
            CommandFragment {
                name: f.name.clone(),
                argument: match &f.argument {
                    Some(a) => Some(a.clone()),
                    None => None,
                },
            },
        ),
    }
}

fn clone_segments(v: &Vec<Segment>) -> (r: Vec<Segment>)
    ensures
        r.deep_view() == v.deep_view(),
{
    let mut out: Vec<Segment> = Vec::new();
    let mut i: usize = 0;
    while i < v.len()
        invariant
            i <= v.len(),
            out.len() == i,
            forall|j: int| 0 <= j < i ==> out@[j]@ == v@[j]@,
        decreases v.len() - i,
    {
        out.push(clone_segment(&v[i]));
        i = i + 1;
    }
    proof {
        assert(out.deep_view() =~= v.deep_view());
    }
    out
}

/// What a completion query hands the engine: the deferred code and the byte
/// position the candidates are wanted at.  The completion analysis itself is
/// the engine's, outside this layer.
pub struct CompletionQuery {
    pub code: Vec<String>,
    pub position: usize,
}

impl CommandContext {
    /// One dispatch call at a given replay depth.
    #[verifier::loop_isolation(false)]
    #[verifier::rlimit(100)]
    fn execute_rec(&mut self, segments: &Vec<Segment>, fuel: u64) -> (r: Result<Outcome, Error>)
        ensures
            ({
                let (s2, rv) = run_line(old(self)@, segments.deep_view(), fuel as nat);
                final(self)@ == s2 && outcome_rel(r, rv)
            }),
        decreases fuel, 1int,
    {
        let start = clock::now();
        let ghost segv = segments.deep_view();
        let ghost fueln = fuel as nat;
        let mut acc = OutputAccumulator::new();
        let ghost mut macc: AccV = AccV::empty();
        let mut code: Vec<String> = Vec::new();
        proof {
            assert(code.deep_view() =~= Seq::<Seq<char>>::empty());
        }
        let mut i: usize = 0;
        while i < segments.len()
            invariant
                i <= segments.len(),
                acc.wf(),
                acc_rel(acc@, macc),
                scan(old(self)@, segv, 0, AccV::empty(), Seq::empty(), fueln) == scan(
                    self@,
                    segv,
                    i as int,
                    macc,
                    code.deep_view(),
                    fueln,
                ),
            decreases segments.len() - i,
        {
            let ghost s_pre = self@;
            let ghost code_pre = code.deep_view();
            match &segments[i] {
                Segment::Code(c) => {
                    code.push(c.clone());
                    proof {
                        assert(segv[i as int] == SegV::Code(c@));
                        assert(code.deep_view() =~= code_pre.push(c@));
                    }
                },
                Segment::Command(frag) => {
                    let ghost namev = frag.name@;
                    let ghost argv = opt_chars(frag.argument);
                    proof {
                        assert(segv[i as int] == SegV::Command(namev, argv));
                    }
                    let step = self.process_command(&frag.name, &frag.argument);
                    match step {
                        Err(e) => {
                            proof {
                                assert(scan(s_pre, segv, i as int, macc, code_pre, fueln) == (
                                    self@,
                                    Err::<ScanOut, crate::errors::ErrV>(e@),
                                ));
                            }
                            return Err(e);
                        },
                        Ok(CommandStep::Quit) => {
                            proof {
                                assert(scan(s_pre, segv, i as int, macc, code_pre, fueln) == (
                                    self@,
                                    Ok::<ScanOut, crate::errors::ErrV>(ScanOut::Quit),
                                ));
                            }
                            return Ok(Outcome::Terminated);
                        },
                        Ok(CommandStep::Out(o)) => {
                            let ghost ov = command_step(s_pre, namev, argv).1->Ok_0->Out_0;
                            proof {
                                macc = macc.merge(ov);
                            }
                            acc.merge(o);
                        },
                        Ok(CommandStep::Replay) => {
                            if fuel == 0 {
                                proof {
                                    assert(scan(s_pre, segv, i as int, macc, code_pre, fueln) == (
                                        self@,
                                        Err::<ScanOut, crate::errors::ErrV>(
                                            crate::errors::ErrV::NestedReplay,
                                        ),
                                    ));
                                }
                                return Err(Error::NestedReplay);
                            }
                            let ghost s_mid = self@;
                            let rr = self.load_config_rec(fuel - 1);
                            match rr {
                                Err(e) => {
                                    proof {
                                        assert(scan(s_pre, segv, i as int, macc, code_pre, fueln)
                                            == (self@, Err::<ScanOut, crate::errors::ErrV>(e@)));
                                    }
                                    return Err(e);
                                },
                                Ok(ReplayStep::Quit) => {
                                    proof {
                                        assert(scan(s_pre, segv, i as int, macc, code_pre, fueln)
                                            == (
                                            self@,
                                            Ok::<ScanOut, crate::errors::ErrV>(ScanOut::Quit),
                                        ));
                                    }
                                    return Ok(Outcome::Terminated);
                                },
                                Ok(ReplayStep::Done(racc)) => {
                                    let ghost rav = replay(s_mid, (fueln - 1) as nat).1->Ok_0
                                        ->Done_0;
                                    proof {
                                        macc = macc.merge(rav);
                                    }
                                    acc.merge(racc);
                                },
                            }
                        },
                    }
                },
            }
            i = i + 1;
        }
        let ghost s1 = self@;
        proof {
            assert(scan(old(self)@, segv, 0, AccV::empty(), Seq::empty(), fueln) == (
                s1,
                Ok::<ScanOut, crate::errors::ErrV>(ScanOut::Scanned(macc, code.deep_view())),
            ));
        }
        let eval_result = self.eval_context.eval(&code);
        let ms = clock::millis_since(&start);
        match eval_result {
            Ok(evacc) => {
                let ghost evv = crate::engine::eval_spec(s1.engine.pending, code.deep_view()).1
                    ->Ok_0;
                proof {
                    macc = macc.merge(evv);
                }
                acc.merge(evacc);
                if self.timing_enabled() {
                    acc.set_timing(ms);
                    proof {
                        macc = AccV { timing: Some(0u64), ..macc };
                    }
                }
                proof {
                    assert(self@ =~= run_line(old(self)@, segv, fueln).0);
                }
                Ok(Outcome::Output(acc))
            },
            Err(e) => {
                match e {
                    Error::CompilationFailures(recs) => {
                        self.last_errors = clone_failures(&recs);
                        proof {
                            assert(self@ =~= run_line(old(self)@, segv, fueln).0);
                        }
                        Err(Error::CompilationFailures(recs))
                    },
                    other => {
                        proof {
                            assert(self@ =~= run_line(old(self)@, segv, fueln).0);
                        }
                        Err(other)
                    },
                }
            },
        }
    }

    /// Replays the installed startup script at a given replay depth: every
    /// startup line first, in file order, then the prelude as one dispatch
    /// call.
    #[verifier::loop_isolation(false)]
    #[verifier::rlimit(100)]
    fn load_config_rec(&mut self, fuel: u64) -> (r: Result<ReplayStep, Error>)
        ensures
            ({
                let (s2, rv) = replay(old(self)@, fuel as nat);
                final(self)@ == s2 && replay_rel(r, rv)
            }),
        decreases fuel, 3int,
    {
        let ghost fueln = fuel as nat;
        let (lines, prelude) = match &self.startup {
            None => {
                return Ok(ReplayStep::Done(OutputAccumulator::new()));
            },
            Some(script) => {
                let mut lines: Vec<Vec<Segment>> = Vec::new();
                let mut k: usize = 0;
                while k < script.lines.len()
                    invariant
                        k <= script.lines.len(),
                        lines.len() == k,
                        forall|j: int| 0 <= j < k ==> lines@[j].deep_view() == script.lines@[j].deep_view(),
                    decreases script.lines.len() - k,
                {
                    lines.push(clone_segments(&script.lines[k]));
                    k = k + 1;
                }
                proof {
                    assert(lines.deep_view() =~= script.lines.deep_view());
                }
                let prelude = match &script.prelude {
                    Some(p) => Some(clone_segments(p)),
                    None => None,
                };
                (lines, prelude)
            },
        };
        let ghost scriptv = old(self)@.startup->Some_0;
        let ghost linesv = scriptv.lines;
        let mut acc = OutputAccumulator::new();
        let ghost mut macc: AccV = AccV::empty();
        let mut j: usize = 0;
        while j < lines.len()
            invariant
                j <= lines.len(),
                acc.wf(),
                acc_rel(acc@, macc),
                lines.deep_view() == linesv,
                replay_lines(old(self)@, linesv, 0, AccV::empty(), fueln) == replay_lines(
                    self@,
                    linesv,
                    j as int,
                    macc,
                    fueln,
                ),
            decreases lines.len() - j,
        {
            let ghost s_pre = self@;
            let line_result = self.execute_rec(&lines[j], fuel);
            proof {
                assert(linesv[j as int] == lines@[j as int].deep_view());
            }
            match line_result {
                Err(e) => {
                    proof {
                        assert(replay_lines(s_pre, linesv, j as int, macc, fueln) == (
                            self@,
                            Err::<ReplayOut, crate::errors::ErrV>(e@),
                        ));
                    }
                    return Err(e);
                },
                Ok(Outcome::Terminated) => {
                    proof {
                        assert(replay_lines(s_pre, linesv, j as int, macc, fueln) == (
                            self@,
                            Ok::<ReplayOut, crate::errors::ErrV>(ReplayOut::Quit),
                        ));
                    }
                    return Ok(ReplayStep::Quit);
                },
                Ok(Outcome::Output(a)) => {
                    let ghost av = run_line(s_pre, linesv[j as int], fueln).1->Ok_0->Output_0;
                    proof {
                        macc = macc.merge(av);
                    }
                    acc.merge(a);
                },
            }
            j = j + 1;
        }
        proof {
            assert(replay_lines(old(self)@, linesv, 0, AccV::empty(), fueln) == (
                self@,
                Ok::<ReplayOut, crate::errors::ErrV>(ReplayOut::Done(macc)),
            ));
        }
        match prelude {
            None => Ok(ReplayStep::Done(acc)),
            Some(p) => {
                let ghost s_mid = self@;
                let prelude_result = self.execute_rec(&p, fuel);
                match prelude_result {
                    Err(e) => Err(e),
                    Ok(Outcome::Terminated) => Ok(ReplayStep::Quit),
                    Ok(Outcome::Output(pacc)) => {
                        let ghost pav = run_line(s_mid, p.deep_view(), fueln).1->Ok_0->Output_0;
                        proof {
                            macc = macc.merge(pav);
                        }
                        acc.merge(pacc);
                        Ok(ReplayStep::Done(acc))
                    },
                }
            },
        }
    }

    /// Executes segmented input: commands eagerly in textual order, then one
    /// engine evaluation for all deferred code, outputs merged in exactly
    /// that order; elapsed time attached when enabled.  Fails atomically: on
    /// any error nothing is returned, though state already changed by earlier
    /// commands stays changed.
    pub fn execute(&mut self, segments: &Vec<Segment>) -> (r: Result<Outcome, Error>)
        ensures
            ({
                let (s2, rv) = run_line(old(self)@, segments.deep_view(), 1nat);
                final(self)@ == s2 && outcome_rel(r, rv)
            }),
    {
        let mut callbacks = EvalCallbacks::default();
        self.execute_with_callbacks(segments, &mut callbacks)
    }

    /// Like `execute`, with a sink for engine-reported incremental events.
    pub fn execute_with_callbacks(
        &mut self,
        segments: &Vec<Segment>,
        callbacks: &mut EvalCallbacks,
    ) -> (r: Result<Outcome, Error>)
        ensures
            ({
                let (s2, rv) = run_line(old(self)@, segments.deep_view(), 1nat);
                final(self)@ == s2 && outcome_rel(r, rv)
            }),
    {
        self.execute_rec(segments, 1)
    }

    /// Prepares a completion query at `position`: dependency commands are
    /// applied to the session speculatively and best-effort — a failure is
    /// swallowed and any state change stays — and the deferred code is
    /// collected for the engine's completion analysis.
    #[verifier::loop_isolation(false)]
    pub fn completions(&mut self, segments: &Vec<Segment>, position: usize) -> (r: CompletionQuery)
        ensures
            final(self)@ == (StateV {
                engine: completion_deps(old(self)@.engine, segments.deep_view(), 0),
                ..old(self)@
            }),
            r.code.deep_view() == code_fragments(segments.deep_view()),
            r.position == position,
    {
        let ghost segv = segments.deep_view();
        let mut code: Vec<String> = Vec::new();
        let mut i: usize = 0;
        while i < segments.len()
            invariant
                i <= segments.len(),
                completion_deps(old(self)@.engine, segv, 0) == completion_deps(
                    self@.engine,
                    segv,
                    i as int,
                ),
                self@.print_timings == old(self)@.print_timings,
                self@.last_errors == old(self)@.last_errors,
                self@.startup == old(self)@.startup,
                code.deep_view() == code_fragments(segv.take(i as int)),
            decreases segments.len() - i,
        {
            let ghost code_pre = code.deep_view();
            match &segments[i] {
                Segment::Code(c) => {
                    code.push(c.clone());
                    proof {
                        assert(segv[i as int] == SegV::Code(c@));
                        assert(segv.take(i + 1).drop_last() =~= segv.take(i as int));
                        assert(segv.take(i + 1).last() == segv[i as int]);
                        assert(code.deep_view() =~= code_pre.push(c@));
                    }
                },
                Segment::Command(frag) => {
                    proof {
                        assert(segv[i as int] == SegV::Command(frag.name@, opt_chars(frag.argument)));
                        assert(segv.take(i + 1).drop_last() =~= segv.take(i as int));
                        assert(segv.take(i + 1).last() == segv[i as int]);
                    }
                    if frag.name == String::from_str(":add-dependency") {
                        let _best_effort = self.process_dep_command(&frag.argument);
                    }
                },
            }
            i = i + 1;
        }
        proof {
            assert(segv.take(segments.len() as int) =~= segv);
        }
        CompletionQuery { code, position }
    }
}

} // verus!
