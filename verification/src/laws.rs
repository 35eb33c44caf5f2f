//! The laws of the layer: properties that relate several operations, proved
//! once and for all inputs.

use vstd::prelude::*;
use crate::engine::eval_spec;
use crate::errors::{error_message, ErrV};
use crate::model::{
    all_explained, command_step, replay, replay_lines, run_line, scan, OutV, ReplayOut, ScanOut,
    ScriptV, StateV, StepV,
};
use crate::outputs::AccV;
use crate::segment::{code_fragments, SegV};
use crate::deps::parse_dep;
use crate::vars::{html_row, text_line, vars_html, vars_rows, vars_text};

verus! {

broadcast use vstd::string::group_string_axioms;

/// `code_fragments` taken from the front: the first segment's contribution
/// comes first.
proof fn lemma_code_fragments_front(segs: Seq<SegV>)
    requires
        segs.len() > 0,
    ensures
        code_fragments(segs) == (match segs[0] {
            SegV::Code(c) => seq![c] + code_fragments(segs.drop_first()),
            SegV::Command(_, _) => code_fragments(segs.drop_first()),
        }),
    decreases segs.len(),
{
    if segs.len() == 1 {
        assert(segs.drop_last() =~= Seq::<SegV>::empty());
        assert(segs.drop_first() =~= Seq::<SegV>::empty());
        match segs[0] {
            SegV::Code(c) => {
                assert(code_fragments(segs) =~= seq![c] + code_fragments(segs.drop_first()));
            },
            SegV::Command(_, _) => {},
        }
    } else {
        lemma_code_fragments_front(segs.drop_last());
        assert(segs.drop_last()[0] == segs[0]);
        assert(segs.drop_last().drop_first() =~= segs.drop_first().drop_last());
        assert(segs.drop_first().last() == segs.last());
        match segs[0] {
            SegV::Code(c) => {
                match segs.last() {
                    SegV::Code(d) => {
                        assert(code_fragments(segs) =~= seq![c] + code_fragments(
                            segs.drop_first(),
                        ));
                    },
                    SegV::Command(_, _) => {
                        assert(code_fragments(segs) =~= seq![c] + code_fragments(
                            segs.drop_first(),
                        ));
                    },
                }
            },
            SegV::Command(_, _) => {
                match segs.last() {
                    SegV::Code(d) => {
                        assert(code_fragments(segs) =~= code_fragments(segs.drop_first()));
                    },
                    SegV::Command(_, _) => {
                        assert(code_fragments(segs) =~= code_fragments(segs.drop_first()));
                    },
                }
            },
        }
    }
}

/// Scanning code-only input changes nothing and merges nothing: the session
/// is untouched and the collected code is exactly the code fragments in
/// order.
proof fn lemma_scan_code_only(
    s: StateV,
    segs: Seq<SegV>,
    i: int,
    acc: AccV,
    code: Seq<Seq<char>>,
    fuel: nat,
)
    requires
        0 <= i <= segs.len(),
        forall|k: int| 0 <= k < segs.len() ==> (#[trigger] segs[k]) is Code,
    ensures
        scan(s, segs, i, acc, code, fuel) == (
            s,
            Ok::<ScanOut, ErrV>(ScanOut::Scanned(acc, code + code_fragments(segs.skip(i)))),
        ),
    decreases segs.len() - i,
{
    if i == segs.len() {
        assert(segs.skip(i) =~= Seq::<SegV>::empty());
        assert(code + code_fragments(segs.skip(i)) =~= code);
    } else {
        let c = segs[i]->Code_0;
        lemma_scan_code_only(s, segs, i + 1, acc, code.push(c), fuel);
        assert(segs.skip(i).len() > 0);
        assert(segs.skip(i)[0] == segs[i]);
        lemma_code_fragments_front(segs.skip(i));
        assert(segs.skip(i).drop_first() =~= segs.skip(i + 1));
        assert(code.push(c) + code_fragments(segs.skip(i + 1)) =~= code + code_fragments(
            segs.skip(i),
        ));
    }
}

/// For code-only input — no command fragments at all — the merged output is
/// the evaluation engine's own output, with timing attached exactly when it
/// is enabled; the session changes only by the consumed verdict and, on a
/// compilation failure, the recorded diagnostics.
pub proof fn lemma_code_only_output(s: StateV, segs: Seq<SegV>, fuel: nat)
    requires
        forall|k: int| 0 <= k < segs.len() ==> (#[trigger] segs[k]) is Code,
    ensures
        ({
            let (s1, r) = run_line(s, segs, fuel);
            let (pending2, ev) = eval_spec(s.engine.pending, code_fragments(segs));
            match ev {
                Ok(evacc) => r matches Ok(OutV::Output(a)) && a.content == evacc.content
                    && a.timing == (if s.print_timings {
                    Some(0u64)
                } else {
                    evacc.timing
                }),
                Err(e) => r == Err::<OutV, ErrV>(e),
            }
        }),
{
    lemma_scan_code_only(s, segs, 0, AccV::empty(), Seq::empty(), fuel);
    assert(Seq::<Seq<char>>::empty() + code_fragments(segs.skip(0)) =~= code_fragments(
        segs.skip(0),
    ));
    assert(segs.skip(0) =~= segs);
    let (pending2, ev) = eval_spec(s.engine.pending, code_fragments(segs));
    match ev {
        Ok(evacc) => {
            assert(AccV::empty().merge(evacc).content =~= evacc.content);
        },
        Err(e) => {},
    }
}

/// Scanning input without a startup-replay command consumes no engine
/// verdict, and the code it collects for the one evaluation merge is exactly
/// the code fragments in order: with N command fragments and M code
/// fragments interleaved, the output is built by the N command merges in
/// textual order and then the single evaluation merge, which alone can
/// contribute an engine payload.
pub proof fn lemma_command_phase(
    s: StateV,
    segs: Seq<SegV>,
    i: int,
    acc: AccV,
    code: Seq<Seq<char>>,
    fuel: nat,
)
    requires
        0 <= i <= segs.len(),
        forall|k: int|
            0 <= k < segs.len() ==> !((#[trigger] segs[k]) matches SegV::Command(n, _)
                && n == ":load-config"@),
    ensures
        ({
            let (s1, r) = scan(s, segs, i, acc, code, fuel);
            s1.engine.pending == s.engine.pending && match r {
                Ok(ScanOut::Scanned(acc2, code2)) => code2 == code + code_fragments(segs.skip(i)),
                _ => true,
            }
        }),
    decreases segs.len() - i,
{
    if i == segs.len() {
        assert(segs.skip(i) =~= Seq::<SegV>::empty());
        assert(code + code_fragments(segs.skip(i)) =~= code);
    } else {
        assert(segs.skip(i).len() > 0);
        assert(segs.skip(i)[0] == segs[i]);
        lemma_code_fragments_front(segs.skip(i));
        assert(segs.skip(i).drop_first() =~= segs.skip(i + 1));
        match segs[i] {
            SegV::Code(c) => {
                lemma_command_phase(s, segs, i + 1, acc, code.push(c), fuel);
                assert(code.push(c) + code_fragments(segs.skip(i + 1)) =~= code + code_fragments(
                    segs.skip(i),
                ));
            },
            SegV::Command(name, arg) => {
                let (s2, cr) = command_step(s, name, arg);
                assert(name != ":load-config"@);
                assert(s2.engine.pending == s.engine.pending);
                match cr {
                    Ok(StepV::Out(o)) => {
                        lemma_command_phase(s2, segs, i + 1, acc.merge(o), code, fuel);
                    },
                    _ => {},
                }
            },
        }
    }
}

/// The command names are pairwise distinguishable: each one's length, and an
/// index fact for the pairs of equal length.
proof fn lemma_command_names()
    ensures
        ":toggle-internal-debug"@.len() == 22,
        ":load-config"@.len() == 12,
        ":version"@.len() == 8,
        ":list-vars"@.len() == 10,
        ":preserve-on-panic"@.len() == 18,
        ":clear"@.len() == 6,
        ":add-dependency"@.len() == 15,
        ":last-compile-dir"@.len() == 17,
        ":set-opt-level"@.len() == 14,
        ":set-output-format"@.len() == 18,
        ":set-error-format"@.len() == 17,
        ":quit"@.len() == 5,
        ":toggle-timing"@.len() == 14,
        ":toggle-pass-timing"@.len() == 19,
        ":set-cache-backend"@.len() == 18,
        ":set-linker"@.len() == 11,
        ":explain-last-error"@.len() == 19,
        ":last-error-encoded"@.len() == 19,
        ":help"@.len() == 5,
        ":explain-last-error"@ != ":toggle-pass-timing"@,
        ":last-error-encoded"@ != ":toggle-pass-timing"@,
        ":last-error-encoded"@ != ":explain-last-error"@,
        ":help"@ != ":quit"@,
        ":set-opt-level"@ != ":toggle-timing"@,
        "0"@.len() == 1,
        "2"@.len() == 1,
        "0"@ != "2"@,
{
    reveal_strlit(":toggle-internal-debug");
    reveal_strlit(":load-config");
    reveal_strlit(":version");
    reveal_strlit(":list-vars");
    reveal_strlit(":preserve-on-panic");
    reveal_strlit(":clear");
    reveal_strlit(":add-dependency");
    reveal_strlit(":last-compile-dir");
    reveal_strlit(":set-opt-level");
    reveal_strlit(":set-output-format");
    reveal_strlit(":set-error-format");
    reveal_strlit(":quit");
    reveal_strlit(":toggle-timing");
    reveal_strlit(":toggle-pass-timing");
    reveal_strlit(":set-cache-backend");
    reveal_strlit(":set-linker");
    reveal_strlit(":explain-last-error");
    reveal_strlit(":last-error-encoded");
    reveal_strlit(":help");
    reveal_strlit("0");
    reveal_strlit("2");
    assert(":explain-last-error"@[1] == 'e');
    assert(":toggle-pass-timing"@[1] == 't');
    assert(":last-error-encoded"@[1] == 'l');
    assert(":help"@[1] == 'h');
    assert(":quit"@[1] == 'q');
    assert(":set-opt-level"@[1] == 's');
    assert(":toggle-timing"@[1] == 't');
    assert("0"@[0] == '0');
    assert("2"@[0] == '2');
}

/// The one evaluation merge comes last: when the command phase of input
/// without a startup-replay command succeeds, the call's output content is
/// the command-phase accumulator — N command merges in textual order — with
/// the engine's single output merged over it, so only that final merge can
/// contribute an engine payload.
pub proof fn lemma_single_evaluation_merge(s: StateV, segs: Seq<SegV>, fuel: nat)
    requires
        forall|k: int|
            0 <= k < segs.len() ==> !((#[trigger] segs[k]) matches SegV::Command(n, _)
                && n == ":load-config"@),
    ensures
        ({
            let (s1, sr) = scan(s, segs, 0, AccV::empty(), Seq::empty(), fuel);
            match sr {
                Ok(ScanOut::Scanned(acc2, code2)) => {
                    &&& code2 == code_fragments(segs)
                    &&& s1.engine.pending == s.engine.pending
                    &&& ({
                        let ev = eval_spec(s.engine.pending, code_fragments(segs)).1;
                        match ev {
                            Ok(evacc) => run_line(s, segs, fuel).1 matches Ok(OutV::Output(a))
                                && a.content == acc2.content.union_prefer_right(evacc.content),
                            Err(_) => run_line(s, segs, fuel).1 is Err,
                        }
                    })
                },
                _ => true,
            }
        }),
{
    lemma_command_phase(s, segs, 0, AccV::empty(), Seq::empty(), fuel);
    assert(Seq::<Seq<char>>::empty() + code_fragments(segs.skip(0)) =~= code_fragments(
        segs.skip(0),
    ));
    assert(segs.skip(0) =~= segs);
}

/// Dispatching the optimization command with no argument toggles between the
/// two fixed presets: from either preset, dispatching it twice returns the
/// engine to the original level.
pub proof fn lemma_opt_toggle_round_trip(s: StateV)
    requires
        s.engine.opt_level == "0"@ || s.engine.opt_level == "2"@,
    ensures
        ({
            let (s1, r1) = command_step(s, ":set-opt-level"@, None);
            let (s2, r2) = command_step(s1, ":set-opt-level"@, None);
            r1 is Ok && r2 is Ok && s2.engine.opt_level == s.engine.opt_level
        }),
{
    lemma_command_names();
}

/// Error introspection fails with the no-failure error exactly when nothing
/// is recorded, and with the distinct no-explanation error when a failure is
/// recorded whose diagnostics lack an explanation; the two errors carry
/// different messages.
pub proof fn lemma_explain_failure_modes(s: StateV)
    ensures
        s.last_errors.len() == 0 ==> command_step(s, ":explain-last-error"@, None) == (
            s,
            Err::<StepV, ErrV>(ErrV::NoFailureToExplain),
        ),
        s.last_errors.len() > 0 && !all_explained(s.last_errors) ==> command_step(
            s,
            ":explain-last-error"@,
            None,
        ) == (s, Err::<StepV, ErrV>(ErrV::FailureWithoutExplanation)),
        error_message(ErrV::NoFailureToExplain) != error_message(ErrV::FailureWithoutExplanation),
{
    lemma_command_names();
    reveal_strlit("No last error to explain");
    reveal_strlit("Sorry, last error has no explanation");
    assert("No last error to explain"@.len() == 24);
    assert("Sorry, last error has no explanation"@.len() == 36);
}

/// Startup replay orders its two files: a dependency declared by the single
/// startup line is already registered in the session state from which the
/// prelude is dispatched, and the startup line consumes no engine verdict,
/// so code in the prelude runs with the dependency in force.
pub proof fn lemma_replay_dep_before_prelude(
    s: StateV,
    arg: Seq<char>,
    prelude: Seq<SegV>,
    fuel: nat,
)
    requires
        parse_dep(arg) is Some,
        s.startup == Some(
            ScriptV {
                lines: seq![seq![SegV::Command(":add-dependency"@, Some(arg))]],
                prelude: Some(prelude),
            },
        ),
    ensures
        ({
            let lines = s.startup->Some_0.lines;
            let (s1, lr) = replay_lines(s, lines, 0, AccV::empty(), fuel);
            &&& lr matches Ok(ReplayOut::Done(_))
            &&& s1.engine.deps == s.engine.deps.push(parse_dep(arg)->Some_0)
            &&& s1.engine.pending == s.engine.pending
            &&& replay(s, fuel).0 == run_line(s1, prelude, fuel).0
        }),
{
    lemma_command_names();
    let lines = s.startup->Some_0.lines;
    let line = lines[0];
    assert(line.len() == 1);
    assert(line[0] == SegV::Command(":add-dependency"@, Some(arg)));
    let (s2c, cr) = command_step(s, ":add-dependency"@, Some(arg));
    assert(cr matches Ok(StepV::Out(o)) && o == AccV::empty());
    assert(s2c.engine.deps == s.engine.deps.push(parse_dep(arg)->Some_0));
    assert(scan(s, line, 0, AccV::empty(), Seq::empty(), fuel) == scan(
        s2c,
        line,
        1,
        AccV::empty().merge(AccV::empty()),
        Seq::empty(),
        fuel,
    ));
    assert(eval_spec(s2c.engine.pending, Seq::empty()) == (
        s2c.engine.pending,
        Ok::<AccV, ErrV>(AccV::empty()),
    ));
    let (s1, r1) = run_line(s, line, fuel);
    assert(r1 matches Ok(OutV::Output(_)));
    assert(s1.engine.deps == s.engine.deps.push(parse_dep(arg)->Some_0));
    assert(s1.engine.pending == s.engine.pending);
    assert(replay_lines(s, lines, 0, AccV::empty(), fuel) == replay_lines(
        s1,
        lines,
        1,
        AccV::empty().merge(r1->Ok_0->Output_0),
        fuel,
    ));
}

proof fn lemma_scan_failure_record(
    s: StateV,
    segs: Seq<SegV>,
    i: int,
    acc: AccV,
    code: Seq<Seq<char>>,
    fuel: nat,
)
    ensures
        ({
            let (s1, r) = scan(s, segs, i, acc, code, fuel);
            match r {
                Err(ErrV::CompilationFailures(recs)) => s1.last_errors == recs,
                _ => s1.last_errors == s.last_errors,
            }
        }),
    decreases fuel, 0nat, segs.len() - i,
{
    if i < 0 || i >= segs.len() {
    } else {
        match segs[i] {
            SegV::Code(c) => {
                lemma_scan_failure_record(s, segs, i + 1, acc, code.push(c), fuel);
            },
            SegV::Command(name, arg) => {
                let (s2, cr) = command_step(s, name, arg);
                assert(s2.last_errors == s.last_errors);
                match cr {
                    Ok(StepV::Out(o)) => {
                        lemma_scan_failure_record(s2, segs, i + 1, acc.merge(o), code, fuel);
                    },
                    Ok(StepV::Replay) => {
                        if fuel > 0 {
                            lemma_replay_failure_record(s2, (fuel - 1) as nat);
                            let (s3, rr) = replay(s2, (fuel - 1) as nat);
                            match rr {
                                Ok(ReplayOut::Done(racc)) => {
                                    lemma_scan_failure_record(
                                        s3,
                                        segs,
                                        i + 1,
                                        acc.merge(racc),
                                        code,
                                        fuel,
                                    );
                                },
                                _ => {},
                            }
                        }
                    },
                    _ => {},
                }
            },
        }
    }
}

proof fn lemma_run_line_failure_record(s: StateV, segs: Seq<SegV>, fuel: nat)
    ensures
        ({
            let (s1, r) = run_line(s, segs, fuel);
            match r {
                Err(ErrV::CompilationFailures(recs)) => s1.last_errors == recs,
                _ => s1.last_errors == s.last_errors,
            }
        }),
    decreases fuel, 1nat, 0nat,
{
    lemma_scan_failure_record(s, segs, 0, AccV::empty(), Seq::empty(), fuel);
}

proof fn lemma_replay_lines_failure_record(
    s: StateV,
    lines: Seq<Seq<SegV>>,
    j: int,
    acc: AccV,
    fuel: nat,
)
    ensures
        ({
            let (s1, r) = replay_lines(s, lines, j, acc, fuel);
            match r {
                Err(ErrV::CompilationFailures(recs)) => s1.last_errors == recs,
                _ => s1.last_errors == s.last_errors,
            }
        }),
    decreases fuel, 2nat, lines.len() - j,
{
    if j < 0 || j >= lines.len() {
    } else {
        lemma_run_line_failure_record(s, lines[j], fuel);
        let (s1, r) = run_line(s, lines[j], fuel);
        match r {
            Ok(OutV::Output(a)) => {
                lemma_replay_lines_failure_record(s1, lines, j + 1, acc.merge(a), fuel);
            },
            _ => {},
        }
    }
}

proof fn lemma_replay_failure_record(s: StateV, fuel: nat)
    ensures
        ({
            let (s1, r) = replay(s, fuel);
            match r {
                Err(ErrV::CompilationFailures(recs)) => s1.last_errors == recs,
                _ => s1.last_errors == s.last_errors,
            }
        }),
    decreases fuel, 3nat, 0nat,
{
    match s.startup {
        None => {},
        Some(script) => {
            lemma_replay_lines_failure_record(s, script.lines, 0, AccV::empty(), fuel);
            let (s1, lr) = replay_lines(s, script.lines, 0, AccV::empty(), fuel);
            match lr {
                Ok(ReplayOut::Done(acc)) => match script.prelude {
                    None => {},
                    Some(p) => {
                        lemma_run_line_failure_record(s1, p, fuel);
                    },
                },
                _ => {},
            }
        },
    }
}

/// The recorded compilation failure is stale by design: a dispatch call that
/// does not itself report a compilation failure — in particular every
/// successful call — leaves the record exactly as it was; only a reported
/// compilation failure replaces it, with the diagnostics it reports.
pub proof fn lemma_failure_record_set_only_on_compilation_failure(
    s: StateV,
    segs: Seq<SegV>,
    fuel: nat,
)
    ensures
        ({
            let (s1, r) = run_line(s, segs, fuel);
            match r {
                Err(ErrV::CompilationFailures(recs)) => s1.last_errors == recs,
                _ => s1.last_errors == s.last_errors,
            }
        }),
{
    lemma_run_line_failure_record(s, segs, fuel);
}

/// The concatenation of a sequence of renderings, in order.
pub open spec fn concat_all(ss: Seq<Seq<char>>) -> Seq<char>
    decreases ss.len(),
{
    if ss.len() == 0 {
        Seq::empty()
    } else {
        concat_all(ss.drop_last()) + ss.last()
    }
}

/// The plain-text lines of a variable listing, one per pair, in order.
pub open spec fn lines_of(vars: Seq<(Seq<char>, Seq<char>)>) -> Seq<Seq<char>> {
    Seq::new(vars.len(), |i: int| text_line(vars[i].0, vars[i].1))
}

/// The markup rows of a variable listing, one per pair, in order.
pub open spec fn rows_of(vars: Seq<(Seq<char>, Seq<char>)>) -> Seq<Seq<char>> {
    Seq::new(vars.len(), |i: int| html_row(vars[i].0, vars[i].1))
}

proof fn lemma_vars_text_concat(vars: Seq<(Seq<char>, Seq<char>)>)
    ensures
        vars_text(vars) == concat_all(lines_of(vars)),
        vars_rows(vars) == concat_all(rows_of(vars)),
    decreases vars.len(),
{
    if vars.len() == 0 {
        assert(lines_of(vars) =~= Seq::<Seq<char>>::empty());
        assert(rows_of(vars) =~= Seq::<Seq<char>>::empty());
    } else {
        lemma_vars_text_concat(vars.drop_last());
        assert(lines_of(vars).drop_last() =~= lines_of(vars.drop_last()));
        assert(rows_of(vars).drop_last() =~= rows_of(vars.drop_last()));
        assert(lines_of(vars).last() == text_line(vars.last().0, vars.last().1));
        assert(rows_of(vars).last() == html_row(vars.last().0, vars.last().1));
    }
}

/// The two renderings of a variable listing enumerate the same pairs in the
/// same order: the plain-text rendering is the concatenation of one line per
/// pair, the markup rendering wraps the concatenation of one row per pair —
/// both indexed by the same pair sequence — and the rows differ from the
/// lines only by the markup frame and the `<`/`>` escaping of name and type.
pub proof fn lemma_listing_renders_same_pairs(vars: Seq<(Seq<char>, Seq<char>)>)
    ensures
        vars_text(vars) == concat_all(lines_of(vars)),
        vars_html(vars) == "<table><tr><th>Variable</th><th>Type</th></tr>"@ + concat_all(
            rows_of(vars),
        ) + "</table>"@,
        lines_of(vars).len() == vars.len(),
        rows_of(vars).len() == vars.len(),
        forall|i: int|
            0 <= i < vars.len() ==> lines_of(vars)[i] == text_line(
                (#[trigger] vars[i]).0,
                vars[i].1,
            ) && rows_of(vars)[i] == html_row(vars[i].0, vars[i].1),
{
    lemma_vars_text_concat(vars);
}

} // verus!
