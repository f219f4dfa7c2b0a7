//! What holds of every install.

use vstd::prelude::*;
use crate::artifacts::artifact_of;
use crate::config::{ContextView, OptionsView};
use crate::develop::{binary_destination, start_of, ActionView, DevelopView, EventView};
use crate::error::{ErrorView, ProblemView};
use crate::interpreter::{accepted, InterpreterView};
use crate::target::{
    file_name_of,
    join,
    lemma_file_name_has_no_separator,
    lemma_file_name_of_join,
    Target,
};

verus! {

/// An install that waits for `event` asks for `next(event)`'s action first
/// and goes on from the install after it.
pub proof fn lemma_run_step(d: DevelopView, event: EventView, rest: Seq<EventView>)
    requires
        d.awaits(event),
    ensures
        d.run(seq![event] + rest) == seq![d.next(event).1] + d.next(event).0.run(rest),
{
    let events = seq![event] + rest;
    assert(events[0] == event);
    assert(events.drop_first() =~= rest);
}

/// A finished install asks for nothing more, whatever it is handed.
pub proof fn lemma_done_runs_nothing(d: DevelopView, events: Seq<EventView>)
    requires
        d.stage is Done,
    ensures
        d.run(events) == Seq::<ActionView>::empty(),
{
}

/// An executable install that succeeds throughout copies the executable the
/// toolchain built into the environment's executable directory, under the
/// executable's own file name, and then finishes with success.
pub proof fn law_binary_installed_under_its_name(
    target: Target,
    venv_dir: Seq<char>,
    options: OptionsView,
    interpreter: InterpreterView,
    context: ContextView,
    artifacts: Seq<(Seq<char>, Seq<char>)>,
    binary: Seq<char>,
    name: Seq<char>,
)
    requires
        interpreter.executable == target.venv_python_of(venv_dir),
        context.bridge is Bin,
        artifact_of(artifacts, "bin"@) == Some(binary),
        file_name_of(target.os, binary) == Some(name),
    ensures
        start_of(target, venv_dir, options).0.run(
            seq![
                EventView::InterpreterChecked(Ok(Some(interpreter))),
                EventView::ContextDerived(Ok(context)),
                EventView::WriterOpened(Ok(())),
                EventView::BinaryCompiled(Ok(artifacts)),
                EventView::Installed(Ok(())),
            ],
        ) == seq![
            ActionView::DeriveContext { options },
            ActionView::OpenWriter { target, venv_dir },
            ActionView::CompileBinary,
            ActionView::CopyBinary {
                from: binary,
                to: join(target.os, target.venv_bin_dir_of(venv_dir), name),
            },
            ActionView::Finish { outcome: Ok(()) },
        ],
        file_name_of(target.os, join(target.os, target.venv_bin_dir_of(venv_dir), name)) == Some(
            name,
        ),
{
    let e1 = EventView::InterpreterChecked(Ok(Some(interpreter)));
    let e2 = EventView::ContextDerived(Ok(context));
    let e3 = EventView::WriterOpened(Ok(()));
    let e4 = EventView::BinaryCompiled(Ok(artifacts));
    let e5 = EventView::Installed(Ok(()));
    let d0 = start_of(target, venv_dir, options).0;
    let d1 = d0.next(e1).0;
    let d2 = d1.next(e2).0;
    let d3 = d2.next(e3).0;
    let d4 = d3.next(e4).0;
    lemma_run_step(d4, e5, seq![]);
    lemma_run_step(d3, e4, seq![e5]);
    lemma_run_step(d2, e3, seq![e4, e5]);
    lemma_run_step(d1, e2, seq![e3, e4, e5]);
    lemma_run_step(d0, e1, seq![e2, e3, e4, e5]);
    lemma_five_events(e1, e2, e3, e4, e5);
    assert(d0.run(seq![e1, e2, e3, e4, e5]) =~= seq![
        ActionView::DeriveContext { options },
        ActionView::OpenWriter { target, venv_dir },
        ActionView::CompileBinary,
        ActionView::CopyBinary {
            from: binary,
            to: join(target.os, target.venv_bin_dir_of(venv_dir), name),
        },
        ActionView::Finish { outcome: Ok(()) },
    ]);
    lemma_file_name_has_no_separator(target.os, binary);
    lemma_file_name_of_join(target.os, target.venv_bin_dir_of(venv_dir), name);
}

/// The ways of splitting five events that an install's run goes through.
pub proof fn lemma_five_events(
    e1: EventView,
    e2: EventView,
    e3: EventView,
    e4: EventView,
    e5: EventView,
)
    ensures
        seq![e5] + Seq::<EventView>::empty() == seq![e5],
        seq![e4] + seq![e5] == seq![e4, e5],
        seq![e3] + seq![e4, e5] == seq![e3, e4, e5],
        seq![e2] + seq![e3, e4, e5] == seq![e2, e3, e4, e5],
        seq![e1] + seq![e2, e3, e4, e5] == seq![e1, e2, e3, e4, e5],
{
    assert(seq![e5] + Seq::<EventView>::empty() =~= seq![e5]);
    assert(seq![e4] + seq![e5] =~= seq![e4, e5]);
    assert(seq![e3] + seq![e4, e5] =~= seq![e3, e4, e5]);
    assert(seq![e2] + seq![e3, e4, e5] =~= seq![e2, e3, e4, e5]);
    assert(seq![e1] + seq![e2, e3, e4, e5] =~= seq![e1, e2, e3, e4, e5]);
}

/// A wrapper-module install that succeeds throughout compiles the shared
/// library with no interpreter, writes the wrapper module under the project's
/// module name for this platform, and then finishes with success.
pub proof fn law_cffi_module_written(
    target: Target,
    venv_dir: Seq<char>,
    options: OptionsView,
    interpreter: InterpreterView,
    context: ContextView,
    library: Seq<char>,
)
    requires
        interpreter.executable == target.venv_python_of(venv_dir),
        context.bridge is Cffi,
    ensures
        start_of(target, venv_dir, options).0.run(
            seq![
                EventView::InterpreterChecked(Ok(Some(interpreter))),
                EventView::ContextDerived(Ok(context)),
                EventView::WriterOpened(Ok(())),
                EventView::LibraryCompiled(Ok(library)),
                EventView::Installed(Ok(())),
            ],
        ) == seq![
            ActionView::DeriveContext { options },
            ActionView::OpenWriter { target, venv_dir },
            ActionView::CompileLibrary { interpreter: None },
            ActionView::WriteCffiModule { module_name: context.module_name, artifact: library, target },
            ActionView::Finish { outcome: Ok(()) },
        ],
{
    let e1 = EventView::InterpreterChecked(Ok(Some(interpreter)));
    let e2 = EventView::ContextDerived(Ok(context));
    let e3 = EventView::WriterOpened(Ok(()));
    let e4 = EventView::LibraryCompiled(Ok(library));
    let e5 = EventView::Installed(Ok(()));
    let d0 = start_of(target, venv_dir, options).0;
    let d1 = d0.next(e1).0;
    let d2 = d1.next(e2).0;
    let d3 = d2.next(e3).0;
    let d4 = d3.next(e4).0;
    lemma_run_step(d4, e5, seq![]);
    lemma_run_step(d3, e4, seq![e5]);
    lemma_run_step(d2, e3, seq![e4, e5]);
    lemma_run_step(d1, e2, seq![e3, e4, e5]);
    lemma_run_step(d0, e1, seq![e2, e3, e4, e5]);
    lemma_five_events(e1, e2, e3, e4, e5);
    assert(d0.run(seq![e1, e2, e3, e4, e5]) =~= seq![
        ActionView::DeriveContext { options },
        ActionView::OpenWriter { target, venv_dir },
        ActionView::CompileLibrary { interpreter: None },
        ActionView::WriteCffiModule { module_name: context.module_name, artifact: library, target },
        ActionView::Finish { outcome: Ok(()) },
    ]);
}

/// An extension-module install that succeeds throughout compiles the shared
/// library for the environment's own interpreter, installs it under the
/// project's module name for that interpreter, and then finishes with success.
pub proof fn law_bindings_module_installed(
    target: Target,
    venv_dir: Seq<char>,
    options: OptionsView,
    interpreter: InterpreterView,
    context: ContextView,
    library: Seq<char>,
)
    requires
        interpreter.executable == target.venv_python_of(venv_dir),
        context.bridge is Bindings,
    ensures
        start_of(target, venv_dir, options).0.run(
            seq![
                EventView::InterpreterChecked(Ok(Some(interpreter))),
                EventView::ContextDerived(Ok(context)),
                EventView::WriterOpened(Ok(())),
                EventView::LibraryCompiled(Ok(library)),
                EventView::Installed(Ok(())),
            ],
        ) == seq![
            ActionView::DeriveContext { options },
            ActionView::OpenWriter { target, venv_dir },
            ActionView::CompileLibrary { interpreter: Some(interpreter) },
            ActionView::WriteBindingsModule {
                module_name: context.module_name,
                artifact: library,
                interpreter,
            },
            ActionView::Finish { outcome: Ok(()) },
        ],
{
    let e1 = EventView::InterpreterChecked(Ok(Some(interpreter)));
    let e2 = EventView::ContextDerived(Ok(context));
    let e3 = EventView::WriterOpened(Ok(()));
    let e4 = EventView::LibraryCompiled(Ok(library));
    let e5 = EventView::Installed(Ok(()));
    let d0 = start_of(target, venv_dir, options).0;
    let d1 = d0.next(e1).0;
    let d2 = d1.next(e2).0;
    let d3 = d2.next(e3).0;
    let d4 = d3.next(e4).0;
    lemma_run_step(d4, e5, seq![]);
    lemma_run_step(d3, e4, seq![e5]);
    lemma_run_step(d2, e3, seq![e4, e5]);
    lemma_run_step(d1, e2, seq![e3, e4, e5]);
    lemma_run_step(d0, e1, seq![e2, e3, e4, e5]);
    lemma_five_events(e1, e2, e3, e4, e5);
    assert(d0.run(seq![e1, e2, e3, e4, e5]) =~= seq![
        ActionView::DeriveContext { options },
        ActionView::OpenWriter { target, venv_dir },
        ActionView::CompileLibrary { interpreter: Some(interpreter) },
        ActionView::WriteBindingsModule {
                module_name: context.module_name,
                artifact: library,
                interpreter,
            },
        ActionView::Finish { outcome: Ok(()) },
    ]);
}

/// An executable build that reports no artifact of kind "bin" ends the
/// install as incomplete: nothing is copied, and nothing else is asked for.
pub proof fn law_missing_binary_copies_nothing(
    d: DevelopView,
    artifacts: Seq<(Seq<char>, Seq<char>)>,
    later: Seq<EventView>,
)
    requires
        d.awaits(EventView::BinaryCompiled(Ok(artifacts))),
        artifact_of(artifacts, "bin"@) is None,
    ensures
        d.run(seq![EventView::BinaryCompiled(Ok(artifacts))] + later) == seq![
            ActionView::Finish { outcome: Err(ErrorView::BuildIncomplete { kind: "bin"@ }) },
        ],
{
    let e = EventView::BinaryCompiled(Ok(artifacts));
    lemma_run_step(d, e, later);
    lemma_done_runs_nothing(d.next(e).0, later);
    assert(seq![d.next(e).1] + Seq::<ActionView>::empty() =~= seq![d.next(e).1]);
}

/// When the environment's interpreter is not accepted, the install fails
/// with an invalid environment at once: the build context is never derived
/// and nothing is compiled, whatever comes after.
pub proof fn law_invalid_environment_compiles_nothing(
    target: Target,
    venv_dir: Seq<char>,
    options: OptionsView,
    checked: Result<Option<InterpreterView>, Seq<char>>,
    error: ErrorView,
    later: Seq<EventView>,
)
    requires
        accepted(target.venv_python_of(venv_dir), checked) == Err::<InterpreterView, ErrorView>(
            error,
        ),
    ensures
        error matches ErrorView::InvalidEnvironment { path, .. } && path
            == target.venv_python_of(venv_dir),
        start_of(target, venv_dir, options).0.run(
            seq![EventView::InterpreterChecked(checked)] + later,
        ) == seq![ActionView::Finish { outcome: Err(error) }],
{
    let d = start_of(target, venv_dir, options).0;
    let e = EventView::InterpreterChecked(checked);
    lemma_run_step(d, e, later);
    lemma_done_runs_nothing(d.next(e).0, later);
    assert(seq![d.next(e).1] + Seq::<ActionView>::empty() =~= seq![d.next(e).1]);
}

/// An extension module is compiled for the interpreter found in the
/// environment itself: an interpreter found at another path than the
/// environment's is rejected before anything is compiled.
pub proof fn law_bindings_use_the_environment_interpreter(
    target: Target,
    venv_dir: Seq<char>,
    options: OptionsView,
    interpreter: InterpreterView,
    context: ContextView,
    later: Seq<EventView>,
)
    requires
        context.bridge is Bindings,
    ensures
        interpreter.executable == target.venv_python_of(venv_dir) ==> start_of(
            target,
            venv_dir,
            options,
        ).0.run(
            seq![
                EventView::InterpreterChecked(Ok(Some(interpreter))),
                EventView::ContextDerived(Ok(context)),
                EventView::WriterOpened(Ok(())),
            ],
        ) == seq![
            ActionView::DeriveContext { options },
            ActionView::OpenWriter { target, venv_dir },
            ActionView::CompileLibrary { interpreter: Some(interpreter) },
        ],
        interpreter.executable != target.venv_python_of(venv_dir) ==> start_of(
            target,
            venv_dir,
            options,
        ).0.run(seq![EventView::InterpreterChecked(Ok(Some(interpreter)))] + later) == seq![
            ActionView::Finish {
                outcome: Err(
                    ErrorView::InvalidEnvironment {
                        path: target.venv_python_of(venv_dir),
                        problem: ProblemView::ForeignInterpreter {
                            executable: interpreter.executable,
                        },
                    },
                ),
            },
        ],
{
    let e1 = EventView::InterpreterChecked(Ok(Some(interpreter)));
    let e2 = EventView::ContextDerived(Ok(context));
    let e3 = EventView::WriterOpened(Ok(()));
    let d0 = start_of(target, venv_dir, options).0;
    if interpreter.executable == target.venv_python_of(venv_dir) {
        let d1 = d0.next(e1).0;
        let d2 = d1.next(e2).0;
        let d3 = d2.next(e3).0;
        lemma_run_step(d2, e3, seq![]);
        lemma_run_step(d1, e2, seq![e3]);
        lemma_run_step(d0, e1, seq![e2, e3]);
        assert(seq![e3] + Seq::<EventView>::empty() =~= seq![e3]);
        assert(seq![e2] + seq![e3] =~= seq![e2, e3]);
        assert(seq![e1] + seq![e2, e3] =~= seq![e1, e2, e3]);
        assert(d0.run(seq![e1, e2, e3]) =~= seq![
            ActionView::DeriveContext { options },
            ActionView::OpenWriter { target, venv_dir },
            ActionView::CompileLibrary { interpreter: Some(interpreter) },
        ]);
    } else {
        lemma_run_step(d0, e1, later);
        lemma_done_runs_nothing(d0.next(e1).0, later);
        assert(seq![d0.next(e1).1] + Seq::<ActionView>::empty() =~= seq![d0.next(e1).1]);
    }
}

/// Installing again puts an executable at the same place: where it goes
/// depends on the environment and on the executable's file name alone, and
/// the installed file keeps that name.
pub proof fn law_reinstall_lands_in_place(
    target: Target,
    venv_dir: Seq<char>,
    first: Seq<char>,
    second: Seq<char>,
)
    requires
        file_name_of(target.os, first) == file_name_of(target.os, second),
    ensures
        binary_destination(target, venv_dir, first) == binary_destination(
            target,
            venv_dir,
            second,
        ),
        binary_destination(target, venv_dir, first) matches Some(to) ==> file_name_of(
            target.os,
            to,
        ) == file_name_of(target.os, first),
{
    lemma_file_name_has_no_separator(target.os, first);
    if let Some(name) = file_name_of(target.os, first) {
        lemma_file_name_of_join(target.os, target.venv_bin_dir_of(venv_dir), name);
    }
}

} // verus!
