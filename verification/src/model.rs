//! The mathematical model of a dispatch call.
//!
//! These specification functions say, value by value, what one dispatch call
//! does: which command changes which part of the session, what each command
//! answers, how deferred code reaches the engine, and in which order startup
//! replay proceeds.  The executable entry points in `context` are proved to
//! follow this model exactly — up to the one value the model cannot know, the
//! wall-clock reading attached when timing is enabled, for which the model
//! writes a placeholder and the proofs track only whether a reading is
//! attached.

use vstd::prelude::*;
use crate::engine::{eval_spec, EngineV};
use crate::errors::{ErrV, FailureV};
use crate::outputs::{kind_text_html, kind_text_plain, AccV};
use crate::segment::SegV;
use crate::deps::parse_dep;
use crate::vars::{vars_html, vars_text};

verus! {

/// Mathematical image of a startup script: the line-oriented startup
/// commands, then an optional prelude source.
#[verifier::ext_equal]
pub struct ScriptV {
    pub lines: Seq<Seq<SegV>>,
    pub prelude: Option<Seq<SegV>>,
}

/// Mathematical image of a whole session.
#[verifier::ext_equal]
pub struct StateV {
    pub print_timings: bool,
    pub last_errors: Seq<FailureV>,
    pub startup: Option<ScriptV>,
    pub engine: EngineV,
}

/// What dispatching one command asks the caller to do next.
pub enum StepV {
    /// Merge this output and go on.
    Out(AccV),
    /// Terminate the session.
    Quit,
    /// Replay the startup script.
    Replay,
}

/// What scanning a segment sequence left behind.
pub enum ScanOut {
    /// The merged command outputs and the collected code fragments.
    Scanned(AccV, Seq<Seq<char>>),
    /// A command asked for termination; the rest was not scanned.
    Quit,
}

/// The result of one whole dispatch call.
pub enum OutV {
    Output(AccV),
    Terminated,
}

/// The result of a startup replay.
pub enum ReplayOut {
    Done(AccV),
    Quit,
}

/// The character image of a boolean, as status lines print it.
pub open spec fn bool_chars(b: bool) -> Seq<char> {
    if b {
        "true"@
    } else {
        "false"@
    }
}

/// The version string the `:version` command reports.
pub open spec fn version_chars() -> Seq<char> {
    "0.1.0"@
}

/// The fixed command reference the `:help` command emits.
pub open spec fn help_chars() -> Seq<char> {
    ":list-vars              List bound variables and their types\n:set-opt-level [level]  Toggle/set optimization level\n:set-output-format [f]  Set the formatter for evaluated results\n:set-error-format [f]   Set the formatter for propagated errors\n:explain-last-error     Print explanation of last error\n:clear                  Clear all state, keeping compilation cache\n:add-dependency n [= v] Add a dependency\n:set-cache-backend [0|1] Set whether to use the compilation cache\n:set-linker [linker]    Set/print linker\n:version                Print the version\n:quit                   Quit evaluation and exit\n:preserve-on-panic [0|1] Try to keep vars on panic\n:load-config            Replay the startup files\n:last-compile-dir       Print the directory of the last compilation\n:toggle-timing          Toggle timing of evaluations\n:last-error-encoded     Print the last compilation error, encoded\n:toggle-pass-timing     Toggle timing of compiler passes\n:toggle-internal-debug  Toggle internal debugging"@
}

/// Whether every recorded diagnostic carries an explanation.
pub open spec fn all_explained(recs: Seq<FailureV>) -> bool {
    forall|i: int| 0 <= i < recs.len() ==> (#[trigger] recs[i]).explanation is Some
}

/// The concatenation of all recorded explanations, in order.
pub open spec fn explanations_of(recs: Seq<FailureV>) -> Seq<char>
    decreases recs.len(),
{
    if recs.len() == 0 {
        Seq::empty()
    } else {
        explanations_of(recs.drop_last()) + match recs.last().explanation {
            Some(e) => e,
            None => Seq::empty(),
        }
    }
}

/// The concatenation of all recorded encoded forms, one line each.
pub open spec fn encoded_of(recs: Seq<FailureV>) -> Seq<char>
    decreases recs.len(),
{
    if recs.len() == 0 {
        Seq::empty()
    } else {
        encoded_of(recs.drop_last()) + recs.last().encoded + "\n"@
    }
}

/// What registering a dependency from the raw argument does to the session.
pub open spec fn dep_step(s: StateV, arg: Option<Seq<char>>) -> (StateV, Result<(), ErrV>) {
    match arg {
        None => (s, Err(ErrV::MissingDependencyArgument)),
        Some(a) => match parse_dep(a) {
            None => (s, Err(ErrV::MalformedDependencyArgument)),
            Some(nv) => (
                StateV {
                    engine: EngineV { deps: s.engine.deps.push(nv), ..s.engine },
                    ..s
                },
                Ok(()),
            ),
        },
    }
}

/// What dispatching one command does: the session afterwards, and the output
/// or effect or error.  Commands run eagerly; none of them touches the
/// deferred code.
pub open spec fn command_step(s: StateV, name: Seq<char>, arg: Option<Seq<char>>) -> (
    StateV,
    Result<StepV, ErrV>,
) {
    let e = s.engine;
    if name == ":toggle-internal-debug"@ {
        (
            StateV { engine: EngineV { debug_mode: !e.debug_mode, ..e }, ..s },
            Ok(StepV::Out(AccV::text("Internal debug: "@ + bool_chars(!e.debug_mode) + "\n"@))),
        )
    } else if name == ":load-config"@ {
        (s, Ok(StepV::Replay))
    } else if name == ":version"@ {
        (s, Ok(StepV::Out(AccV::text(version_chars() + "\n"@))))
    } else if name == ":list-vars"@ {
        (
            s,
            Ok(
                StepV::Out(
                    AccV {
                        content: Map::empty().insert(
                            kind_text_plain(),
                            vars_text(e.variables),
                        ).insert(kind_text_html(), vars_html(e.variables)),
                        timing: None,
                    },
                ),
            ),
        )
    } else if name == ":preserve-on-panic"@ {
        let v = arg == Some("1"@);
        (
            StateV { engine: EngineV { preserve_vars_on_panic: v, ..e }, ..s },
            Ok(StepV::Out(AccV::text("Preserve variables on panic: "@ + bool_chars(v) + "\n"@))),
        )
    } else if name == ":clear"@ {
        (
            StateV {
                engine: EngineV { variables: Seq::empty(), deps: Seq::empty(), ..e },
                ..s
            },
            Ok(StepV::Out(AccV::empty())),
        )
    } else if name == ":add-dependency"@ {
        let (s2, r) = dep_step(s, arg);
        (
            s2,
            match r {
                Ok(()) => Ok(StepV::Out(AccV::empty())),
                Err(er) => Err(er),
            },
        )
    } else if name == ":last-compile-dir"@ {
        (s, Ok(StepV::Out(AccV::text("Last compile dir: "@ + e.last_compile_dir + "\n"@))))
    } else if name == ":set-opt-level"@ {
        let lvl = match arg {
            Some(l) => l,
            None => if e.opt_level == "2"@ {
                "0"@
            } else {
                "2"@
            },
        };
        if lvl.len() == 0 {
            (s, Err(ErrV::InvalidOptimizationLevel))
        } else {
            (
                StateV { engine: EngineV { opt_level: lvl, ..e }, ..s },
                Ok(StepV::Out(AccV::text("Optimization: "@ + lvl + "\n"@))),
            )
        }
    } else if name == ":set-output-format"@ {
        let f = match arg {
            Some(g) => g,
            None => "{:?}"@,
        };
        (
            StateV { engine: EngineV { output_format: f, ..e }, ..s },
            Ok(StepV::Out(AccV::text("Output format: "@ + f + "\n"@))),
        )
    } else if name == ":set-error-format"@ {
        let set = match arg {
            Some(f) => if f == "{}"@ {
                Ok(EngineV { error_format: f, error_format_trait: "std::fmt::Display"@, ..e })
            } else if f == "{:?}"@ || f == "{:#?}"@ {
                Ok(EngineV { error_format: f, error_format_trait: "std::fmt::Debug"@, ..e })
            } else {
                Err(ErrV::InvalidErrorFormat)
            },
            None => Ok(e),
        };
        match set {
            Ok(e2) => (
                StateV { engine: e2, ..s },
                Ok(
                    StepV::Out(
                        AccV::text(
                            "Error format: "@ + e2.error_format + " (errors must implement "@
                                + e2.error_format_trait + ")"@ + "\n"@,
                        ),
                    ),
                ),
            ),
            Err(er) => (s, Err(er)),
        }
    } else if name == ":quit"@ {
        (s, Ok(StepV::Quit))
    } else if name == ":toggle-timing"@ {
        (
            StateV { print_timings: !s.print_timings, ..s },
            Ok(StepV::Out(AccV::text("Timing: "@ + bool_chars(!s.print_timings) + "\n"@))),
        )
    } else if name == ":toggle-pass-timing"@ {
        (
            StateV { engine: EngineV { time_passes: !e.time_passes, ..e }, ..s },
            Ok(StepV::Out(AccV::text("Time passes: "@ + bool_chars(!e.time_passes) + "\n"@))),
        )
    } else if name == ":set-cache-backend"@ {
        let v = arg != Some("0"@);
        (
            StateV { engine: EngineV { sccache: v, ..e }, ..s },
            Ok(StepV::Out(AccV::text("Compilation cache: "@ + bool_chars(v) + "\n"@))),
        )
    } else if name == ":set-linker"@ {
        let l = match arg {
            Some(g) => g,
            None => e.linker,
        };
        (
            StateV { engine: EngineV { linker: l, ..e }, ..s },
            Ok(StepV::Out(AccV::text("Linker: "@ + l + "\n"@))),
        )
    } else if name == ":explain-last-error"@ {
        if s.last_errors.len() == 0 {
            (s, Err(ErrV::NoFailureToExplain))
        } else if !all_explained(s.last_errors) {
            (s, Err(ErrV::FailureWithoutExplanation))
        } else {
            (s, Ok(StepV::Out(AccV::text(explanations_of(s.last_errors) + "\n"@))))
        }
    } else if name == ":last-error-encoded"@ {
        (s, Err(ErrV::EncodedReport(encoded_of(s.last_errors))))
    } else if name == ":help"@ {
        (s, Ok(StepV::Out(AccV::text(help_chars() + "\n"@))))
    } else {
        (s, Err(ErrV::UnrecognisedCommand(name)))
    }
}

/// Scans the segments from `i` on: commands run eagerly and their outputs
/// merge into `acc` in textual order; code fragments are deferred into
/// `code`.  Nothing here consumes an engine verdict except a replayed
/// startup script.
pub open spec fn scan(
    s: StateV,
    segs: Seq<SegV>,
    i: int,
    acc: AccV,
    code: Seq<Seq<char>>,
    fuel: nat,
) -> (StateV, Result<ScanOut, ErrV>)
    decreases fuel, 0nat, segs.len() - i,
{
    if i < 0 || i >= segs.len() {
        (s, Ok(ScanOut::Scanned(acc, code)))
    } else {
        match segs[i] {
            SegV::Code(c) => scan(s, segs, i + 1, acc, code.push(c), fuel),
            SegV::Command(name, arg) => {
                let (s2, cr) = command_step(s, name, arg);
                match cr {
                    Err(e) => (s2, Err(e)),
                    Ok(StepV::Quit) => (s2, Ok(ScanOut::Quit)),
                    Ok(StepV::Out(o)) => scan(s2, segs, i + 1, acc.merge(o), code, fuel),
                    Ok(StepV::Replay) => if fuel == 0 {
                        (s2, Err(ErrV::NestedReplay))
                    } else {
                        let (s3, rr) = replay(s2, (fuel - 1) as nat);
                        match rr {
                            Err(e) => (s3, Err(e)),
                            Ok(ReplayOut::Quit) => (s3, Ok(ScanOut::Quit)),
                            Ok(ReplayOut::Done(racc)) => scan(
                                s3,
                                segs,
                                i + 1,
                                acc.merge(racc),
                                code,
                                fuel,
                            ),
                        }
                    },
                }
            },
        }
    }
}

/// One whole dispatch call on a segment sequence: scan, then one engine
/// evaluation for the collected code, its output merged last; a compilation
/// failure replaces the recorded diagnostics before it propagates; when
/// timing is enabled a wall-clock reading — here a placeholder — is attached.
pub open spec fn run_line(s: StateV, segs: Seq<SegV>, fuel: nat) -> (StateV, Result<OutV, ErrV>)
    decreases fuel, 1nat, 0nat,
{
    let (s1, sr) = scan(s, segs, 0, AccV::empty(), Seq::empty(), fuel);
    match sr {
        Err(e) => (s1, Err(e)),
        Ok(ScanOut::Quit) => (s1, Ok(OutV::Terminated)),
        Ok(ScanOut::Scanned(acc, code)) => {
            let (pending2, ev) = eval_spec(s1.engine.pending, code);
            let s2 = StateV { engine: EngineV { pending: pending2, ..s1.engine }, ..s1 };
            match ev {
                Ok(evacc) => {
                    let merged = acc.merge(evacc);
                    let done = if s2.print_timings {
                        AccV { timing: Some(0u64), ..merged }
                    } else {
                        merged
                    };
                    (s2, Ok(OutV::Output(done)))
                },
                Err(er) => match er {
                    ErrV::CompilationFailures(recs) => (
                        StateV { last_errors: recs, ..s2 },
                        Err(ErrV::CompilationFailures(recs)),
                    ),
                    _ => (s2, Err(er)),
                },
            }
        },
    }
}

/// Replays the startup lines from `j` on, each line one whole dispatch call,
/// outputs merged in file order.
pub open spec fn replay_lines(
    s: StateV,
    lines: Seq<Seq<SegV>>,
    j: int,
    acc: AccV,
    fuel: nat,
) -> (StateV, Result<ReplayOut, ErrV>)
    decreases fuel, 2nat, lines.len() - j,
{
    if j < 0 || j >= lines.len() {
        (s, Ok(ReplayOut::Done(acc)))
    } else {
        let (s1, r) = run_line(s, lines[j], fuel);
        match r {
            Err(e) => (s1, Err(e)),
            Ok(OutV::Terminated) => (s1, Ok(ReplayOut::Quit)),
            Ok(OutV::Output(a)) => replay_lines(s1, lines, j + 1, acc.merge(a), fuel),
        }
    }
}

/// Replays the startup script: every startup line first, in file order, and
/// only then — so that dependency declarations and other session
/// configuration in the lines are already in force — the prelude source as
/// one dispatch call.  Any failure aborts the rest.
pub open spec fn replay(s: StateV, fuel: nat) -> (StateV, Result<ReplayOut, ErrV>)
    decreases fuel, 3nat, 0nat,
{
    match s.startup {
        None => (s, Ok(ReplayOut::Done(AccV::empty()))),
        Some(script) => {
            let (s1, lr) = replay_lines(s, script.lines, 0, AccV::empty(), fuel);
            match lr {
                Err(e) => (s1, Err(e)),
                Ok(ReplayOut::Quit) => (s1, Ok(ReplayOut::Quit)),
                Ok(ReplayOut::Done(acc)) => match script.prelude {
                    None => (s1, Ok(ReplayOut::Done(acc))),
                    Some(p) => {
                        let (s2, pr) = run_line(s1, p, fuel);
                        match pr {
                            Err(e) => (s2, Err(e)),
                            Ok(OutV::Terminated) => (s2, Ok(ReplayOut::Quit)),
                            Ok(OutV::Output(pacc)) => (s2, Ok(ReplayOut::Done(acc.merge(pacc)))),
                        }
                    },
                },
            }
        },
    }
}

/// The advisory state change of a completion query: every dependency command
/// whose argument parses registers its dependency; everything else — and
/// every failure — is ignored.
pub open spec fn completion_deps(e: EngineV, segs: Seq<SegV>, i: int) -> EngineV
    decreases segs.len() - i,
{
    if i < 0 || i >= segs.len() {
        e
    } else {
        match segs[i] {
            SegV::Command(name, arg) => if name == ":add-dependency"@ {
                match arg {
                    Some(a) => match parse_dep(a) {
                        Some(nv) => completion_deps(
                            EngineV { deps: e.deps.push(nv), ..e },
                            segs,
                            i + 1,
                        ),
                        None => completion_deps(e, segs, i + 1),
                    },
                    None => completion_deps(e, segs, i + 1),
                }
            } else {
                completion_deps(e, segs, i + 1)
            },
            SegV::Code(_) => completion_deps(e, segs, i + 1),
        }
    }
}

} // verus!
