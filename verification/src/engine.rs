//! Model of the evaluation engine a session owns.
//!
//! The real engine — the component that compiles, links and executes the
//! deferred code — lives outside this layer.  What the session-command layer
//! reads and writes of it is configuration and bookkeeping state, modelled
//! here as plain values, plus the verdicts the engine reports for submitted
//! code, modelled as a queue of pending responses that the host (or a test)
//! loads in advance.  Every call of `eval` on non-empty code consumes the
//! front of that queue; this layer is thereby verified for every verdict the
//! engine could report.

use vstd::prelude::*;
use vstd::string::StringExecFns;
use crate::errors::{CompilationFailureRecord, Error, FailureV};
use crate::outputs::{AccV, OutputAccumulator};

verus! {

/// One engine verdict for one evaluation of combined code.
pub enum EvalResponse {
    /// The code compiled and ran; the engine's own output.
    Success(OutputAccumulator),
    /// The code failed to compile, with the engine's diagnostics.
    CompilationFailure(Vec<CompilationFailureRecord>),
    /// Any other engine failure (for example an input/output fault),
    /// described for the user.
    OtherFailure(String),
}

/// Mathematical image of an `EvalResponse`.
pub enum RespV {
    Success(AccV),
    CompilationFailure(Seq<FailureV>),
    OtherFailure(Seq<char>),
}

impl View for EvalResponse {
    type V = RespV;

    open spec fn view(&self) -> RespV {
        match self {
            EvalResponse::Success(a) => RespV::Success(a@),
            EvalResponse::CompilationFailure(v) => RespV::CompilationFailure(v.deep_view()),
            EvalResponse::OtherFailure(s) => RespV::OtherFailure(s@),
        }
    }
}

impl DeepView for EvalResponse {
    type V = RespV;

    open spec fn deep_view(&self) -> RespV {
        self.view()
    }
}

/// Mathematical image of an `EvalContext`.
#[verifier::ext_equal]
pub struct EngineV {
    pub debug_mode: bool,
    pub preserve_vars_on_panic: bool,
    pub opt_level: Seq<char>,
    pub output_format: Seq<char>,
    pub error_format: Seq<char>,
    pub error_format_trait: Seq<char>,
    pub time_passes: bool,
    pub sccache: bool,
    pub linker: Seq<char>,
    pub deps: Seq<(Seq<char>, Seq<char>)>,
    pub variables: Seq<(Seq<char>, Seq<char>)>,
    pub last_compile_dir: Seq<char>,
    pub pending: Seq<RespV>,
}

/// The engine handle a session exclusively owns: its configuration, its
/// bookkeeping state, and the queue of verdicts it will report.
pub struct EvalContext {
    debug_mode: bool,
    preserve_vars_on_panic: bool,
    opt_level: String,
    output_format: String,
    error_format: String,
    error_format_trait: String,
    time_passes: bool,
    sccache: bool,
    linker: String,
    deps: Vec<(String, String)>,
    variables: Vec<(String, String)>,
    last_compile_dir: String,
    pending: Vec<EvalResponse>,
}

impl View for EvalContext {
    type V = EngineV;

    closed spec fn view(&self) -> EngineV {
        EngineV {
            debug_mode: self.debug_mode,
            preserve_vars_on_panic: self.preserve_vars_on_panic,
            opt_level: self.opt_level@,
            output_format: self.output_format@,
            error_format: self.error_format@,
            error_format_trait: self.error_format_trait@,
            time_passes: self.time_passes,
            sccache: self.sccache,
            linker: self.linker@,
            deps: self.deps.deep_view(),
            variables: self.variables.deep_view(),
            last_compile_dir: self.last_compile_dir@,
            pending: self.pending.deep_view(),
        }
    }
}

/// The state a fresh engine starts in.
pub open spec fn initial_engine() -> EngineV {
    EngineV {
        debug_mode: false,
        preserve_vars_on_panic: false,
        opt_level: "2"@,
        output_format: "{:?}"@,
        error_format: "{:?}"@,
        error_format_trait: "std::fmt::Debug"@,
        time_passes: false,
        sccache: false,
        linker: "system"@,
        deps: Seq::empty(),
        variables: Seq::empty(),
        last_compile_dir: ""@,
        pending: Seq::empty(),
    }
}

/// What `eval` does: nothing for empty code; otherwise the front pending
/// verdict is consumed and decides the result.  The first component is the
/// pending queue after the call.
pub open spec fn eval_spec(pending: Seq<RespV>, code: Seq<Seq<char>>) -> (
    Seq<RespV>,
    Result<AccV, crate::errors::ErrV>,
) {
    if code.len() == 0 {
        (pending, Ok(AccV::empty()))
    } else if pending.len() == 0 {
        (pending, Err(crate::errors::ErrV::EngineUnavailable))
    } else {
        (
            pending.drop_first(),
            match pending.first() {
                RespV::Success(a) => Ok(a),
                RespV::CompilationFailure(recs) => Err(
                    crate::errors::ErrV::CompilationFailures(recs),
                ),
                RespV::OtherFailure(m) => Err(crate::errors::ErrV::EngineFailure(m)),
            },
        )
    }
}

impl EvalContext {
    /// A fresh engine handle.
    pub fn new() -> (r: EvalContext)
        ensures
            r@ == initial_engine(),
    {
        let r = EvalContext {
            debug_mode: false,
            preserve_vars_on_panic: false,
            opt_level: String::from_str("2"),
            output_format: String::from_str("{:?}"),
            error_format: String::from_str("{:?}"),
            error_format_trait: String::from_str("std::fmt::Debug"),
            time_passes: false,
            sccache: false,
            linker: String::from_str("system"),
            deps: Vec::new(),
            variables: Vec::new(),
            last_compile_dir: String::from_str(""),
            pending: Vec::new(),
        };
        proof {
            assert(r.deps.deep_view() =~= Seq::<(Seq<char>, Seq<char>)>::empty());
            assert(r.variables.deep_view() =~= Seq::<(Seq<char>, Seq<char>)>::empty());
            assert(r.pending.deep_view() =~= Seq::<RespV>::empty());
        }
        r
    }

    /// Loads the verdict the engine will report for the next evaluation of
    /// non-empty code.  Verdicts are consumed in the order they were loaded.
    pub fn push_eval_result(&mut self, response: EvalResponse)
        ensures
            final(self)@ == (EngineV { pending: old(self)@.pending.push(response@), ..old(self)@ }),
    {
        self.pending.push(response);
        proof {
            assert(self@ =~= EngineV {
                pending: old(self)@.pending.push(response@),
                ..old(self)@
            });
        }
    }

    /// Evaluates combined code: a no-op success for empty code, otherwise the
    /// front pending verdict decides the result.
    pub fn eval(&mut self, code: &Vec<String>) -> (r: Result<OutputAccumulator, Error>)
        ensures
            final(self)@ == (EngineV {
                pending: eval_spec(old(self)@.pending, code.deep_view()).0,
                ..old(self)@
            }),
            ({
                let expected = eval_spec(old(self)@.pending, code.deep_view()).1;
                match r {
                    Ok(a) => expected is Ok && a@ == expected->Ok_0,
                    Err(e) => expected is Err && e@ == expected->Err_0,
                }
            }),
    {
        if code.len() == 0 {
            let acc = OutputAccumulator::new();
            proof {
                assert(self@ =~= EngineV {
                    pending: eval_spec(old(self)@.pending, code.deep_view()).0,
                    ..old(self)@
                });
            }
            return Ok(acc);
        }
        if self.pending.len() == 0 {
            proof {
                assert(self@ =~= EngineV {
                    pending: eval_spec(old(self)@.pending, code.deep_view()).0,
                    ..old(self)@
                });
            }
            return Err(Error::EngineUnavailable);
        }
        let response = self.pending.remove(0);
        proof {
            assert(self.pending.deep_view() =~= old(self)@.pending.drop_first());
            assert(self@ =~= EngineV {
                pending: eval_spec(old(self)@.pending, code.deep_view()).0,
                ..old(self)@
            });
        }
        match response {
            EvalResponse::Success(a) => Ok(a),
            EvalResponse::CompilationFailure(recs) => Err(Error::CompilationFailures(recs)),
            EvalResponse::OtherFailure(m) => Err(Error::EngineFailure(m)),
        }
    }

    /// Whether internal diagnostics are switched on.
    pub fn debug_mode(&self) -> (r: bool)
        ensures
            r == self@.debug_mode,
    {
        self.debug_mode
    }

    /// Whether variable state survives a runtime panic.
    pub fn preserve_vars_on_panic(&self) -> (r: bool)
        ensures
            r == self@.preserve_vars_on_panic,
    {
        self.preserve_vars_on_panic
    }

    /// Sets whether variable state survives a runtime panic.
    pub fn set_preserve_vars_on_panic(&mut self, preserve_vars_on_panic: bool)
        ensures
            final(self)@ == (EngineV { preserve_vars_on_panic, ..old(self)@ }),
    {
        self.preserve_vars_on_panic = preserve_vars_on_panic;
    }

    /// Switches internal diagnostics.
    pub fn set_debug_mode(&mut self, debug_mode: bool)
        ensures
            final(self)@ == (EngineV { debug_mode, ..old(self)@ }),
    {
        self.debug_mode = debug_mode;
    }

    /// The current optimization level.
    pub fn opt_level(&self) -> (r: &String)
        ensures
            r@ == self@.opt_level,
    {
        &self.opt_level
    }

    /// Sets the optimization level; the engine rejects an empty level.
    pub fn set_opt_level(&mut self, level: &str) -> (r: Result<(), Error>)
        ensures
            if level@.len() == 0 {
                r matches Err(e) && e@ == crate::errors::ErrV::InvalidOptimizationLevel
                    && final(self)@ == old(self)@
            } else {
                r is Ok && final(self)@ == (EngineV { opt_level: level@, ..old(self)@ })
            },
    {
        if level.unicode_len() == 0 {
            return Err(Error::InvalidOptimizationLevel);
        }
        self.opt_level = level.to_owned();
        Ok(())
    }

    /// The formatter applied to evaluated expression results.
    pub fn output_format(&self) -> (r: &String)
        ensures
            r@ == self@.output_format,
    {
        &self.output_format
    }

    /// Sets the formatter applied to evaluated expression results.
    pub fn set_output_format(&mut self, format: String)
        ensures
            final(self)@ == (EngineV { output_format: format@, ..old(self)@ }),
    {
        self.output_format = format;
    }

    /// The formatter applied to propagated errors.
    pub fn error_format(&self) -> (r: &String)
        ensures
            r@ == self@.error_format,
    {
        &self.error_format
    }

    /// The capability name errors must satisfy for the current error
    /// formatter.
    pub fn error_format_trait(&self) -> (r: &String)
        ensures
            r@ == self@.error_format_trait,
    {
        &self.error_format_trait
    }

    /// Sets the error formatter.  The engine knows a closed set of formats,
    /// each tied to the capability errors must offer; anything else is
    /// rejected.
    pub fn set_error_format(&mut self, format: &str) -> (r: Result<(), Error>)
        ensures
            if format@ == "{}"@ {
                r is Ok && final(self)@ == (EngineV {
                    error_format: format@,
                    error_format_trait: "std::fmt::Display"@,
                    ..old(self)@
                })
            } else if format@ == "{:?}"@ || format@ == "{:#?}"@ {
                r is Ok && final(self)@ == (EngineV {
                    error_format: format@,
                    error_format_trait: "std::fmt::Debug"@,
                    ..old(self)@
                })
            } else {
                r matches Err(e) && e@ == crate::errors::ErrV::InvalidErrorFormat && final(self)@
                    == old(self)@
            },
    {
        let f = format.to_owned();
        if f == String::from_str("{}") {
            self.error_format = f;
            self.error_format_trait = String::from_str("std::fmt::Display");
            Ok(())
        } else if f == String::from_str("{:?}") || f == String::from_str("{:#?}") {
            self.error_format = f;
            self.error_format_trait = String::from_str("std::fmt::Debug");
            Ok(())
        } else {
            Err(Error::InvalidErrorFormat)
        }
    }

    /// Whether the engine reports compiler-pass timings.
    pub fn time_passes(&self) -> (r: bool)
        ensures
            r == self@.time_passes,
    {
        self.time_passes
    }

    /// Switches compiler-pass timing.
    pub fn set_time_passes(&mut self, time_passes: bool)
        ensures
            final(self)@ == (EngineV { time_passes, ..old(self)@ }),
    {
        self.time_passes = time_passes;
    }

    /// Whether the compilation-caching backend is enabled.
    pub fn sccache(&self) -> (r: bool)
        ensures
            r == self@.sccache,
    {
        self.sccache
    }

    /// Enables or disables the compilation-caching backend.
    pub fn set_sccache(&mut self, enabled: bool) -> (r: Result<(), Error>)
        ensures
            r is Ok,
            final(self)@ == (EngineV { sccache: enabled, ..old(self)@ }),
    {
        self.sccache = enabled;
        Ok(())
    }

    /// The linker the engine uses.
    pub fn linker(&self) -> (r: &String)
        ensures
            r@ == self@.linker,
    {
        &self.linker
    }

    /// Selects the linker.
    pub fn set_linker(&mut self, linker: String)
        ensures
            final(self)@ == (EngineV { linker: linker@, ..old(self)@ }),
    {
        self.linker = linker;
    }

    /// Resets evaluation state — variable bindings and registered
    /// dependencies — while configuration and any compiled-artifact cache
    /// stay.
    pub fn clear(&mut self) -> (r: Result<(), Error>)
        ensures
            r is Ok,
            final(self)@ == (EngineV {
                variables: Seq::empty(),
                deps: Seq::empty(),
                ..old(self)@
            }),
    {
        self.variables = Vec::new();
        self.deps = Vec::new();
        proof {
            assert(self.variables.deep_view() =~= Seq::<(Seq<char>, Seq<char>)>::empty());
            assert(self.deps.deep_view() =~= Seq::<(Seq<char>, Seq<char>)>::empty());
        }
        Ok(())
    }

    /// Registers a dependency under `name` with the version text `version`.
    pub fn add_dep(&mut self, name: String, version: String) -> (r: Result<(), Error>)
        ensures
            r is Ok,
            final(self)@ == (EngineV {
                deps: old(self)@.deps.push((name@, version@)),
                ..old(self)@
            }),
    {
        self.deps.push((name, version));
        proof {
            assert(self.deps.deep_view() =~= old(self)@.deps.push((name@, version@)));
        }
        Ok(())
    }

    /// The dependencies registered so far, in registration order.
    pub fn deps(&self) -> (r: &Vec<(String, String)>)
        ensures
            r.deep_view() == self@.deps,
    {
        &self.deps
    }

    /// The current variable bindings: each name with the description of its
    /// type, in the engine's order.
    pub fn variables_and_types(&self) -> (r: &Vec<(String, String)>)
        ensures
            r.deep_view() == self@.variables,
    {
        &self.variables
    }

    /// Replaces the variable bindings; the host records here what the engine
    /// holds after an evaluation.
    pub fn set_variables(&mut self, variables: Vec<(String, String)>)
        ensures
            final(self)@ == (EngineV { variables: variables.deep_view(), ..old(self)@ }),
    {
        self.variables = variables;
    }

    /// The directory the engine last compiled in; empty before the first
    /// compilation.
    pub fn last_compile_dir(&self) -> (r: &String)
        ensures
            r@ == self@.last_compile_dir,
    {
        &self.last_compile_dir
    }

    /// Records the directory the engine last compiled in.
    pub fn set_last_compile_dir(&mut self, dir: String)
        ensures
            final(self)@ == (EngineV { last_compile_dir: dir@, ..old(self)@ }),
    {
        self.last_compile_dir = dir;
    }
}

} // verus!
