//! What holds of every build.
//!
//! The steps of a build are described by functions on the state of the
//! build.  The laws here are proved of these functions, for every
//! configuration and for every answer that a step may be resumed with.

use crate::backend::BuildView;
use crate::backend::MatchOptions;
use crate::builder::ext_added;
use crate::builder::ext_deleted;
use crate::builder::file_type::lemma_ext_added;
use crate::builder::file_type::lemma_ext_deleted;
use crate::builder::orchestrator::after_compilation;
use crate::builder::orchestrator::after_expansion;
use crate::builder::orchestrator::after_generation;
use crate::builder::orchestrator::after_probe;
use crate::builder::orchestrator::conclude;
use crate::builder::orchestrator::missing_lib_name_message;
use crate::builder::orchestrator::missing_out_dir_message;
use crate::builder::orchestrator::next_pattern;
use crate::builder::orchestrator::nothing_built_message;
use crate::builder::orchestrator::scan;
use crate::builder::orchestrator::scan_notices;
use crate::builder::orchestrator::CompilationView;
use crate::builder::orchestrator::GenerationFailure;
use crate::builder::orchestrator::GenerationView;
use crate::builder::orchestrator::RunView;
use crate::builder::orchestrator::StepView;
use crate::builder::results::BuildResultsView;
use crate::builder::ConfigView;
use crate::error::ErrorView;
use crate::path::binding_path;
use cc::Error as CcError;
use glob::PatternError;
use vstd::prelude::*;

verus! {

impl ConfigView {
    /// The header files among `paths`, in their order.
    pub open spec fn headers(self, paths: Seq<Seq<char>>) -> Seq<Seq<char>>
        decreases paths.len(),
    {
        if paths.len() == 0 {
            Seq::empty()
        } else if self.type_of(paths.last()) is Header {
            self.headers(paths.drop_last()).push(paths.last())
        } else {
            self.headers(paths.drop_last())
        }
    }
}

/// Each header file among the paths has one pair in the bindings, at its
/// place, with the binding file that belongs to it.
pub proof fn lemma_bindings_follow_headers(config: ConfigView, paths: Seq<Seq<char>>)
    ensures
        config.bindings(paths).len() == config.headers(paths).len(),
        forall|i: int|
            0 <= i < config.headers(paths).len() ==> #[trigger] config.bindings(paths)[i]
                == config.binding(config.headers(paths)[i]),
    decreases paths.len(),
{
    if paths.len() > 0 {
        lemma_bindings_follow_headers(config, paths.drop_last());
    }
}

/// The source files and the header files among the paths are paths of
/// theirs, of the type that they were picked for.
pub proof fn lemma_picked_from_paths(config: ConfigView, paths: Seq<Seq<char>>)
    ensures
        forall|i: int|
            0 <= i < config.sources(paths).len() ==> paths.contains(
                #[trigger] config.sources(paths)[i],
            ) && config.type_of(config.sources(paths)[i]) is Source,
        forall|i: int|
            0 <= i < config.headers(paths).len() ==> paths.contains(
                #[trigger] config.headers(paths)[i],
            ) && config.type_of(config.headers(paths)[i]) is Header,
    decreases paths.len(),
{
    if paths.len() > 0 {
        let before = paths.drop_last();
        lemma_picked_from_paths(config, before);
        assert forall|path: Seq<char>| before.contains(path) implies paths.contains(path) by {
            let i = choose|i: int| 0 <= i < before.len() && before[i] == path;
            assert(paths[i] == path);
        }
        assert(paths[paths.len() - 1] == paths.last());
        assert forall|i: int| 0 <= i < config.sources(paths).len() implies paths.contains(
            #[trigger] config.sources(paths)[i],
        ) && config.type_of(config.sources(paths)[i]) is Source by {
            if i < config.sources(before).len() {
                assert(before.contains(config.sources(before)[i]));
            }
        }
        assert forall|i: int| 0 <= i < config.headers(paths).len() implies paths.contains(
            #[trigger] config.headers(paths)[i],
        ) && config.type_of(config.headers(paths)[i]) is Header by {
            if i < config.headers(before).len() {
                assert(before.contains(config.headers(before)[i]));
            }
        }
    }
}

/// Paths that are all unsupported hold no source file and no header file.
pub proof fn lemma_nothing_picked(config: ConfigView, paths: Seq<Seq<char>>)
    requires
        forall|i: int| 0 <= i < paths.len() ==> config.type_of(#[trigger] paths[i]) is Unsupported,
    ensures
        config.sources(paths).len() == 0,
        config.headers(paths).len() == 0,
        config.bindings(paths).len() == 0,
    decreases paths.len(),
{
    if paths.len() > 0 {
        assert(config.type_of(paths[paths.len() - 1]) is Unsupported);
        lemma_nothing_picked(config, paths.drop_last());
    }
}

/// Adding an extension twice is adding it once, and the list holds it at
/// one place only.
pub proof fn law_add_ext_once(exts: Seq<Seq<char>>, extension: Seq<char>)
    requires
        exts.no_duplicates(),
    ensures
        ext_added(ext_added(exts, extension), extension) == ext_added(exts, extension),
        exists|i: int|
            {
                &&& 0 <= i < ext_added(exts, extension).len()
                &&& #[trigger] ext_added(exts, extension)[i] == extension
                &&& forall|j: int|
                    0 <= j < ext_added(exts, extension).len() && ext_added(exts, extension)[j]
                        == extension ==> j == i
            },
{
    lemma_ext_added(exts, extension);
    let added = ext_added(exts, extension);
    let i = choose|i: int| 0 <= i < added.len() && added[i] == extension;
    assert(added[i] == extension);
}

/// Deleting an extension that is not listed changes nothing, and deleting
/// one twice is deleting it once.
pub proof fn law_delete_ext_once(exts: Seq<Seq<char>>, extension: Seq<char>)
    requires
        exts.no_duplicates(),
    ensures
        !exts.contains(extension) ==> ext_deleted(exts, extension) == exts,
        ext_deleted(ext_deleted(exts, extension), extension) == ext_deleted(exts, extension),
        !ext_deleted(exts, extension).contains(extension),
{
    lemma_ext_deleted(exts, extension);
    exts.index_of_first_ensures(extension);
    ext_deleted(exts, extension).index_of_first_ensures(extension);
}

/// A build whose output directory is not a directory fails with a message
/// at its first step, whatever else is configured: no pattern is expanded,
/// no bindings are generated and nothing is compiled.
pub proof fn law_build_needs_out_dir(config: ConfigView, hooked: BuildView, options: MatchOptions)
    ensures
        after_probe(config, false, hooked, options) == StepView::Finish(
            Err(ErrorView::MessageError(missing_out_dir_message(config.out_dir))),
        ),
{
}

/// A build that found header files and no source file succeeds: it names no
/// library and reports one pair for each header file, in their order.
pub proof fn law_headers_only(run: RunView)
    requires
        run.config.sources(run.seen).len() == 0,
        run.config.headers(run.seen).len() > 0,
    ensures
        conclude(run) == StepView::Finish(Ok(run.results())),
        run.results().lib_name is None,
        run.results().source_files.len() == 0,
        run.results().header_bindings.len() == run.config.headers(run.seen).len(),
        forall|i: int|
            0 <= i < run.config.headers(run.seen).len() ==> (
            #[trigger] run.results().header_bindings[i]).input_header_file == run.config.headers(
                run.seen,
            )[i],
{
    lemma_bindings_follow_headers(run.config, run.seen);
}

/// A build that found source files and no header file, and has a library
/// name, compiles the source files into that library.  Once the compilation
/// succeeded it names the library and reports the source files and no
/// binding.
pub proof fn law_sources_only(run: RunView, lib_name: Seq<char>)
    requires
        run.config.sources(run.seen).len() > 0,
        run.config.headers(run.seen).len() == 0,
        run.config.lib_name == Some(lib_name),
    ensures
        conclude(run) == StepView::Compile(CompilationView { run, lib_name }),
        run.build().files == run.hooked.files + run.config.sources(run.seen),
        after_compilation(CompilationView { run, lib_name }, Ok(())) matches Ok(results) && {
            &&& results.lib_name == Some(lib_name)
            &&& results.source_files == run.config.sources(run.seen)
            &&& results.header_bindings.len() == 0
        },
{
    lemma_bindings_follow_headers(run.config, run.seen);
}

/// A build that found no file, or only files that are unsupported, fails
/// with the message that nothing was built.
pub proof fn law_nothing_built(run: RunView)
    requires
        forall|i: int|
            0 <= i < run.seen.len() ==> run.config.type_of(#[trigger] run.seen[i]) is Unsupported,
    ensures
        conclude(run) == StepView::Finish(Err(ErrorView::MessageError(nothing_built_message()))),
{
    lemma_nothing_picked(run.config, run.seen);
}

/// Paths without a header file are dealt with in one step: the build goes
/// on to the next pattern, or ends.
pub proof fn law_scan_without_header(run: RunView, paths: Seq<Seq<char>>)
    requires
        forall|i: int| 0 <= i < paths.len() ==> !(run.config.type_of(#[trigger] paths[i]) is Header),
    ensures
        scan(run, paths) == next_pattern(RunView { seen: run.seen + paths, ..run }),
        scan_notices(run.config, paths) == Seq::new(
            paths.len(),
            |i: int| run.config.notice(paths[i]),
        ),
    decreases paths.len(),
{
    if paths.len() == 0 {
        assert(run.seen + paths =~= run.seen);
        assert(scan_notices(run.config, paths) =~= Seq::new(
            paths.len(),
            |i: int| run.config.notice(paths[i]),
        ));
    } else {
        let rest = paths.drop_first();
        assert forall|i: int| 0 <= i < rest.len() implies !(run.config.type_of(
            #[trigger] rest[i],
        ) is Header) by {
            assert(rest[i] == paths[i + 1]);
        }
        assert(!(run.config.type_of(paths[0]) is Header));
        law_scan_without_header(run.saw(paths[0]), rest);
        assert(run.saw(paths[0]).seen + rest =~= run.seen + paths);
        assert(scan_notices(run.config, paths) =~= Seq::new(
            paths.len(),
            |i: int| run.config.notice(paths[i]),
        ));
    }
}

/// A build that found a source file and has no library name fails with a
/// message, whatever header files it found.
pub proof fn law_sources_need_lib_name(run: RunView)
    requires
        run.config.sources(run.seen).len() > 0,
        run.config.lib_name is None,
    ensures
        conclude(run) == StepView::Finish(
            Err(ErrorView::MessageError(missing_lib_name_message())),
        ),
{
}

/// A malformed pattern ends the build with the error of the pattern,
/// whatever was found before: nothing is compiled.
pub proof fn law_malformed_pattern_ends_build(run: RunView, err: PatternError)
    ensures
        after_expansion(run, Err(err)) == StepView::Finish(Err(ErrorView::PatternError(err))),
{
}

/// In a build that is in order, each binding file of the results is the
/// file name of its header file inside the output directory, with the
/// extension replaced by the extension of the binding files.
pub proof fn law_binding_round_trip(run: RunView)
    requires
        run.wf(),
    ensures
        run.results().bound_with(run.config.binding_ext),
{
    let config = run.config;
    lemma_bindings_follow_headers(config, run.seen);
    lemma_picked_from_paths(config, run.seen);
    let bindings = run.results().header_bindings;
    assert forall|i: int| 0 <= i < bindings.len() implies binding_path(
        run.results().out_dir,
        (#[trigger] bindings[i]).input_header_file,
        config.binding_ext,
    ) == Some(bindings[i].rust_binding_file) by {
        let header = config.headers(run.seen)[i];
        assert(run.seen.contains(header));
        let j = choose|j: int| 0 <= j < run.seen.len() && run.seen[j] == header;
        assert(config.type_of(run.seen[j]) is Header);
        assert(bindings[i] == config.binding(header));
    }
}

/// A build that is in order stays in order when it deals with one more
/// path, if the path is no header file or has a binding file.
proof fn lemma_saw_in_order(run: RunView, path: Seq<char>)
    requires
        run.wf(),
        run.config.type_of(path) is Header ==> binding_path(
            run.config.out_dir,
            path,
            run.config.binding_ext,
        ) is Some,
    ensures
        run.saw(path).wf(),
{
    let next = run.saw(path);
    assert forall|i: int|
        0 <= i < next.seen.len() && next.config.type_of(
            #[trigger] next.seen[i],
        ) is Header implies binding_path(
        next.config.out_dir,
        next.seen[i],
        next.config.binding_ext,
    ) is Some by {
        if i < run.seen.len() {
            assert(next.seen[i] == run.seen[i]);
        }
    }
}

/// A build that is in order stays in order when it starts, when it deals
/// with paths, and when it ends.
pub proof fn law_steps_in_order(run: RunView, paths: Seq<Seq<char>>)
    requires
        run.wf(),
    ensures
        conclude(run).wf(run.config),
        next_pattern(run).wf(run.config),
        scan(run, paths).wf(run.config),
    decreases paths.len(),
{
    law_binding_round_trip(run);
    if paths.len() > 0 && !(run.config.type_of(paths[0]) is Header) {
        lemma_saw_in_order(run, paths[0]);
        law_steps_in_order(run.saw(paths[0]), paths.drop_first());
    }
}

/// The steps that follow an answer are in order where the step that was
/// answered is.
pub proof fn law_answers_in_order(
    config: ConfigView,
    step: StepView,
    paths: Result<Seq<Seq<char>>, PatternError>,
    generated: Result<(), GenerationFailure>,
    compiled: Result<(), CcError>,
)
    requires
        step.wf(config),
    ensures
        step matches StepView::Expand(run) ==> after_expansion(run, paths).wf(config),
        step matches StepView::Generate(generation) ==> after_generation(generation, generated).wf(
            config,
        ),
        step matches StepView::Compile(compilation) ==> StepView::Finish(
            after_compilation(compilation, compiled),
        ).wf(config),
{
    match step {
        StepView::Expand(run) => {
            if let Ok(found) = paths {
                law_steps_in_order(run.expanded_one(), found);
            }
        },
        StepView::Generate(generation) => {
            lemma_saw_in_order(generation.run, generation.header);
            law_steps_in_order(generation.run.saw(generation.header), generation.remaining);
        },
        StepView::Compile(compilation) => {
            law_binding_round_trip(compilation.run);
        },
        StepView::Finish(_) => {},
    }
}

/// What a step of a build is resumed with.
pub enum Answer {
    /// The outcome of the expansion of a pattern.
    Expanded(Result<Seq<Seq<char>>, PatternError>),
    /// The outcome of the generation of the bindings of a header file.
    Generated(Result<(), GenerationFailure>),
    /// The outcome of the compilation.
    Compiled(Result<(), CcError>),
}

/// The step that follows when `step` is resumed with `answer`.  A step that
/// waits for another answer, or for none, stays as it is.
pub open spec fn resumed(step: StepView, answer: Answer) -> StepView {
    match (step, answer) {
        (StepView::Expand(run), Answer::Expanded(outcome)) => after_expansion(run, outcome),
        (StepView::Generate(generation), Answer::Generated(outcome)) => after_generation(
            generation,
            outcome,
        ),
        (StepView::Compile(compilation), Answer::Compiled(outcome)) => StepView::Finish(
            after_compilation(compilation, outcome),
        ),
        _ => step,
    }
}

/// The step that a build has come to when `step` and the steps after it
/// were resumed with `answers`, one after another.
pub open spec fn resumed_all(step: StepView, answers: Seq<Answer>) -> StepView
    decreases answers.len(),
{
    if answers.len() == 0 {
        step
    } else {
        resumed_all(resumed(step, answers[0]), answers.drop_first())
    }
}

/// The paths that `answer` brings to `step`: those of an expansion that the
/// step waited for.
pub open spec fn brought(step: StepView, answer: Answer) -> Seq<Seq<char>> {
    match (step, answer) {
        (StepView::Expand(_), Answer::Expanded(Ok(paths))) => paths,
        _ => Seq::empty(),
    }
}

/// The paths that `answers` bring to `step` and to the steps after it, in
/// their order.
pub open spec fn gathered(step: StepView, answers: Seq<Answer>) -> Seq<Seq<char>>
    decreases answers.len(),
{
    if answers.len() == 0 {
        Seq::empty()
    } else {
        brought(step, answers[0]) + gathered(resumed(step, answers[0]), answers.drop_first())
    }
}

impl StepView {
    /// The paths that this step knows of, in their order: those that the
    /// build dealt with, the header file that it deals with, and those of
    /// the expanded pattern that it has yet to deal with.
    pub open spec fn known(self) -> Seq<Seq<char>> {
        match self {
            StepView::Expand(run) => run.seen,
            StepView::Generate(generation) => generation.run.seen.push(generation.header)
                + generation.remaining,
            StepView::Compile(compilation) => compilation.run.seen,
            StepView::Finish(_) => Seq::empty(),
        }
    }
}

/// The results of a build that found `paths` and succeeded: the source
/// files among the paths, one pair for each header file among them, and
/// the library name where there is a source file.
pub open spec fn report_of(config: ConfigView, paths: Seq<Seq<char>>) -> BuildResultsView {
    BuildResultsView {
        out_dir: config.out_dir,
        lib_name: if config.sources(paths).len() > 0 {
            config.lib_name
        } else {
            None
        },
        source_files: config.sources(paths),
        header_bindings: config.bindings(paths),
    }
}

/// Whether `step` knows of the paths `paths` and, where it is the end of a
/// build that succeeded, reports what was found among them.
pub open spec fn accounts_for(step: StepView, config: ConfigView, paths: Seq<Seq<char>>) -> bool {
    match step {
        StepView::Finish(Ok(results)) => {
            &&& results == report_of(config, paths)
            &&& results.source_files.len() > 0 || results.header_bindings.len() > 0
            &&& results.source_files.len() > 0 ==> results.lib_name is Some
        },
        StepView::Finish(Err(_)) => true,
        _ => step.known() == paths,
    }
}

/// The end of a build accounts for the paths that the build dealt with.
proof fn lemma_end_accounts(run: RunView)
    requires
        run.wf(),
    ensures
        accounts_for(conclude(run), run.config, run.seen),
        accounts_for(next_pattern(run), run.config, run.seen),
{
}

/// The step after some paths accounts for them and for the paths before
/// them.
proof fn lemma_scan_accounts(run: RunView, paths: Seq<Seq<char>>)
    requires
        run.wf(),
    ensures
        accounts_for(scan(run, paths), run.config, run.seen + paths),
    decreases paths.len(),
{
    if paths.len() == 0 {
        assert(run.seen + paths =~= run.seen);
        lemma_end_accounts(run);
    } else if run.config.type_of(paths[0]) is Header {
        assert(run.seen.push(paths[0]) + paths.drop_first() =~= run.seen + paths);
    } else {
        let next = run.saw(paths[0]);
        lemma_saw_in_order(run, paths[0]);
        lemma_scan_accounts(next, paths.drop_first());
        assert(next.seen + paths.drop_first() =~= run.seen + paths);
    }
}

/// An answer takes a step that is in order to a step that accounts for the
/// paths that were known and for those that the answer brings.
proof fn lemma_answer_accounts(config: ConfigView, step: StepView, answer: Answer)
    requires
        step.wf(config),
        !(step is Finish),
    ensures
        resumed(step, answer).wf(config),
        accounts_for(resumed(step, answer), config, step.known() + brought(step, answer)),
{
    match (step, answer) {
        (StepView::Expand(run), Answer::Expanded(outcome)) => {
            law_answers_in_order(config, step, outcome, Ok(()), Ok(()));
            if let Ok(paths) = outcome {
                lemma_scan_accounts(run.expanded_one(), paths);
            }
        },
        (StepView::Generate(generation), Answer::Generated(outcome)) => {
            law_answers_in_order(config, step, Ok(Seq::empty()), outcome, Ok(()));
            if outcome is Ok {
                let next = generation.run.saw(generation.header);
                lemma_saw_in_order(generation.run, generation.header);
                lemma_scan_accounts(next, generation.remaining);
                assert(step.known() + brought(step, answer) =~= next.seen
                    + generation.remaining);
            }
        },
        (StepView::Compile(compilation), Answer::Compiled(outcome)) => {
            law_answers_in_order(config, step, Ok(Seq::empty()), Ok(()), outcome);
            assert(step.known() + brought(step, answer) =~= compilation.run.seen);
        },
        _ => {
            assert(step.known() + brought(step, answer) =~= step.known());
        },
    }
}

/// Once a build is over, no answer changes it or brings it a path.
proof fn lemma_over_is_over(step: StepView, answers: Seq<Answer>)
    requires
        step is Finish,
    ensures
        resumed_all(step, answers) == step,
        gathered(step, answers) == Seq::<Seq<char>>::empty(),
    decreases answers.len(),
{
    if answers.len() > 0 {
        lemma_over_is_over(step, answers.drop_first());
    }
}

/// A build that succeeds reports what it found, whatever it was answered on
/// its way: the source files among all paths of all expansions, in their
/// order, and one pair for each header file among them.  It built
/// something, and it names the library where it found a source file.  Each
/// binding file is named after its header file.
pub proof fn law_build_reports_what_it_found(
    config: ConfigView,
    step: StepView,
    answers: Seq<Answer>,
)
    requires
        step.wf(config),
        !(step is Finish),
    ensures
        resumed_all(step, answers).wf(config),
        accounts_for(resumed_all(step, answers), config, step.known() + gathered(step, answers)),
    decreases answers.len(),
{
    if answers.len() == 0 {
        assert(step.known() + gathered(step, answers) =~= step.known());
    } else {
        let next = resumed(step, answers[0]);
        let rest = answers.drop_first();
        lemma_answer_accounts(config, step, answers[0]);
        if next is Finish {
            lemma_over_is_over(next, rest);
            assert(step.known() + gathered(step, answers) =~= step.known() + brought(
                step,
                answers[0],
            ));
        } else {
            law_build_reports_what_it_found(config, next, rest);
            assert(step.known() + gathered(step, answers) =~= next.known() + gathered(
                next,
                rest,
            ));
        }
    }
}

/// A whole build, from its start to its end: where it succeeds, it reports
/// what it found among the paths of its expansions.  So a build succeeds
/// only if it found a source file or a header file, and a build that found
/// a source file succeeds only if it has a library name.
pub proof fn law_whole_build(
    config: ConfigView,
    hooked: BuildView,
    options: MatchOptions,
    answers: Seq<Answer>,
)
    ensures
        ({
            let first = after_probe(config, true, hooked, options);
            let last = resumed_all(first, answers);
            let paths = gathered(first, answers);
            last matches StepView::Finish(Ok(results)) ==> {
                &&& results == report_of(config, paths)
                &&& results.bound_with(config.binding_ext)
                &&& config.sources(paths).len() > 0 || config.headers(paths).len() > 0
                &&& config.sources(paths).len() > 0 ==> config.lib_name is Some
            }
        }),
{
    let start = RunView::start(config, hooked, options);
    let first = after_probe(config, true, hooked, options);
    law_steps_in_order(start, Seq::empty());
    if first is Finish {
        lemma_over_is_over(first, answers);
    } else {
        law_build_reports_what_it_found(config, first, answers);
        assert(first.known() + gathered(first, answers) =~= gathered(first, answers));
        lemma_bindings_follow_headers(config, gathered(first, answers));
    }
}

} // verus!
