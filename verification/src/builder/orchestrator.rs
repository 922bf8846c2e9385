//! The build, step by step.
//!
//! The library does not touch the file system and runs no backend.  A build
//! is a run of questions and answers instead: each step names what has to be
//! done outside (look at the output directory, expand a pattern, generate
//! the bindings of a header, compile the sources) and is resumed with the
//! outcome.  The steps decide the order of the work, which file goes to
//! which backend, when the build fails and what it reports.

use crate::backend::Build;
use crate::backend::BuildView;
use crate::backend::Builder;
use crate::backend::BuilderView;
use crate::backend::MatchOptions;
use crate::backend::ParseCallbacks;
use crate::backend::lemma_push_text;
use crate::builder::classify;
use crate::builder::laws::law_binding_round_trip;
use crate::builder::results::BuildResults;
use crate::builder::results::BuildResultsView;
use crate::builder::results::HeaderBinding;
use crate::builder::results::HeaderBindingView;
use crate::builder::Config;
use crate::builder::ConfigView;
use crate::builder::FileType;
use crate::error::Error;
use crate::error::ErrorView;
use crate::path::binding_file;
use crate::path::binding_path;
use crate::path::extension_of;
use bindgen::BindgenError;
use cc::Error as CcError;
use glob::PatternError;
use std::io::Error as StdIoError;
use vstd::prelude::*;

verus! {

/// A line for the host build pipeline or for the person who runs it.
#[derive(Clone, Debug, PartialEq, Eq)]
pub enum Notice {
    /// The file is an input of the build: a change of it asks for a new
    /// build.  The line goes to the standard output.
    Track(String),
    /// The file is not an input of the build and is passed over.  The line
    /// goes to the standard error.
    Ignore(String),
}

/// What a [`Notice`] is, with the path as a sequence of characters.
pub enum NoticeView {
    Track(Seq<char>),
    Ignore(Seq<char>),
}

impl DeepView for Notice {
    type V = NoticeView;

    open spec fn deep_view(&self) -> NoticeView {
        match self {
            Notice::Track(path) => NoticeView::Track(path@),
            Notice::Ignore(path) => NoticeView::Ignore(path@),
        }
    }
}

impl NoticeView {
    /// The line of this notice.
    pub open spec fn line(self) -> Seq<char> {
        match self {
            NoticeView::Track(path) => "cargo:rerun-if-changed="@ + path,
            NoticeView::Ignore(path) => "Ignoring non-source file "@ + path + "."@,
        }
    }
}

impl Notice {
    /// The line of this notice, without the end of the line.
    pub fn line(&self) -> (line: String)
        ensures
            line@ == self.deep_view().line(),
    {
        match self {
            Notice::Track(path) => String::from_str("cargo:rerun-if-changed=").concat(
                path.as_str(),
            ),
            Notice::Ignore(path) => String::from_str("Ignoring non-source file ").concat(
                path.as_str(),
            ).concat("."),
        }
    }
}

/// The message of the build that finds no output directory.
pub open spec fn missing_out_dir_message(out_dir: Seq<char>) -> Seq<char> {
    "output directory "@ + out_dir + " MUST be created before calling Config::build"@
}

/// The message of the build that finds source files and has no name for
/// their library.
pub open spec fn missing_lib_name_message() -> Seq<char> {
    "library name MUST be configured when at least one cc source is configured"@
}

/// The message of the build that built nothing.
pub open spec fn nothing_built_message() -> Seq<char> {
    "no source files configured"@
}

/// The message of the build that cannot name the binding file of a header
/// file: the extension of the binding files holds a path separator, or the
/// header file has no file name.
pub open spec fn unnamed_binding_message(header: Seq<char>, binding_ext: Seq<char>) -> Seq<char> {
    "binding file of "@ + header + " MUST have a file name and the extension "@ + binding_ext
        + " without a path separator"@
}

impl ConfigView {
    /// The source files among `paths`, in their order.
    pub open spec fn sources(self, paths: Seq<Seq<char>>) -> Seq<Seq<char>>
        decreases paths.len(),
    {
        if paths.len() == 0 {
            Seq::empty()
        } else if self.type_of(paths.last()) is Source {
            self.sources(paths.drop_last()).push(paths.last())
        } else {
            self.sources(paths.drop_last())
        }
    }

    /// The header file `header` with the binding file that belongs to it.
    pub open spec fn binding(self, header: Seq<char>) -> HeaderBindingView {
        HeaderBindingView {
            input_header_file: header,
            rust_binding_file: binding_path(self.out_dir, header, self.binding_ext).unwrap(),
        }
    }

    /// The header files among `paths`, in their order, each with its
    /// binding file.
    pub open spec fn bindings(self, paths: Seq<Seq<char>>) -> Seq<HeaderBindingView>
        decreases paths.len(),
    {
        if paths.len() == 0 {
            Seq::empty()
        } else if self.type_of(paths.last()) is Header {
            self.bindings(paths.drop_last()).push(self.binding(paths.last()))
        } else {
            self.bindings(paths.drop_last())
        }
    }

    /// The notice that the file at `path` is met with: it is tracked where
    /// it is a source or a header file, and ignored where it is not.
    pub open spec fn notice(self, path: Seq<char>) -> NoticeView {
        if self.type_of(path) is Unsupported {
            NoticeView::Ignore(path)
        } else {
            NoticeView::Track(path)
        }
    }
}

/// A build on its way.
pub struct RunView {
    /// The configuration that the build was started from.
    pub config: ConfigView,
    /// The handle of the compilation as its hook returned it.
    pub hooked: BuildView,
    /// The options of the glob matching as their hook returned them.
    pub options: MatchOptions,
    /// How many of the input file patterns were expanded.
    pub expanded: nat,
    /// The paths that were dealt with, in their order.
    pub seen: Seq<Seq<char>>,
}

impl RunView {
    /// The build as it starts, once the hooks have run.
    pub open spec fn start(config: ConfigView, hooked: BuildView, options: MatchOptions) -> RunView {
        RunView { config, hooked, options, expanded: 0, seen: Seq::empty() }
    }

    /// The results so far.  No library is named in them yet.
    pub open spec fn results(self) -> BuildResultsView {
        BuildResultsView {
            out_dir: self.config.out_dir,
            lib_name: None,
            source_files: self.config.sources(self.seen),
            header_bindings: self.config.bindings(self.seen),
        }
    }

    /// The handle of the compilation with the source files found so far.
    pub open spec fn build(self) -> BuildView {
        self.hooked.with_files(self.config.sources(self.seen))
    }

    /// This build after it dealt with `path`.
    pub open spec fn saw(self, path: Seq<char>) -> RunView {
        RunView { seen: self.seen.push(path), ..self }
    }

    /// This build after one more pattern was expanded.
    pub open spec fn expanded_one(self) -> RunView {
        RunView { expanded: self.expanded + 1, ..self }
    }

    /// Whether the build is in order: it expanded no more patterns than
    /// there are, and each header file that it dealt with has a binding
    /// file.
    pub open spec fn wf(self) -> bool {
        &&& self.expanded <= self.config.input_files.len()
        &&& forall|i: int|
            0 <= i < self.seen.len() && self.config.type_of(#[trigger] self.seen[i]) is Header
                ==> binding_path(self.config.out_dir, self.seen[i], self.config.binding_ext)
                is Some
    }
}

/// A build that waits for the bindings of a header file.
pub struct GenerationView {
    /// The build before it deals with the header file.
    pub run: RunView,
    /// The header file.
    pub header: Seq<char>,
    /// The binding file to write.
    pub binding_file: Seq<char>,
    /// The paths of the pattern that come after the header file.
    pub remaining: Seq<Seq<char>>,
}

/// A build that waits for the compilation of its source files.
pub struct CompilationView {
    /// The build after it dealt with every path of every pattern.
    pub run: RunView,
    /// The name of the library.
    pub lib_name: Seq<char>,
}

/// A step of a build.
pub enum StepView {
    /// The next pattern has to be expanded.
    Expand(RunView),
    /// The bindings of a header file have to be generated and written.
    Generate(GenerationView),
    /// The source files have to be compiled.
    Compile(CompilationView),
    /// The build is over.
    Finish(Result<BuildResultsView, ErrorView>),
}

impl BuildResultsView {
    /// Whether each binding file is named after its header file: it is the
    /// file name of the header file inside the output directory, with the
    /// extension replaced by `binding_ext`.
    pub open spec fn bound_with(self, binding_ext: Seq<char>) -> bool {
        forall|i: int|
            0 <= i < self.header_bindings.len() ==> binding_path(
                self.out_dir,
                (#[trigger] self.header_bindings[i]).input_header_file,
                binding_ext,
            ) == Some(self.header_bindings[i].rust_binding_file)
    }
}

impl StepView {
    /// Whether this step is in order for a build with the configuration
    /// `config`.
    pub open spec fn wf(self, config: ConfigView) -> bool {
        match self {
            StepView::Expand(run) => {
                &&& run.wf()
                &&& run.config == config
                &&& run.expanded < config.input_files.len()
            },
            StepView::Generate(generation) => {
                &&& generation.run.wf()
                &&& generation.run.config == config
                &&& config.type_of(generation.header) is Header
                &&& binding_path(config.out_dir, generation.header, config.binding_ext) == Some(
                    generation.binding_file,
                )
            },
            StepView::Compile(compilation) => {
                &&& compilation.run.wf()
                &&& compilation.run.config == config
                &&& config.lib_name == Some(compilation.lib_name)
                &&& compilation.run.results().source_files.len() > 0
            },
            StepView::Finish(Ok(results)) => {
                &&& results.out_dir == config.out_dir
                &&& results.bound_with(config.binding_ext)
            },
            StepView::Finish(Err(_)) => true,
        }
    }
}

/// The end of the build: what it does once every pattern was expanded and
/// every path dealt with.
pub open spec fn conclude(run: RunView) -> StepView {
    let results = run.results();
    if results.source_files.len() > 0 {
        match run.config.lib_name {
            Some(lib_name) => StepView::Compile(CompilationView { run, lib_name }),
            None => StepView::Finish(Err(ErrorView::MessageError(missing_lib_name_message()))),
        }
    } else if results.header_bindings.len() == 0 {
        StepView::Finish(Err(ErrorView::MessageError(nothing_built_message())))
    } else {
        StepView::Finish(Ok(results))
    }
}

/// What the build does once it has dealt with all paths of a pattern: it
/// expands the next pattern, or it ends.
pub open spec fn next_pattern(run: RunView) -> StepView {
    if run.expanded < run.config.input_files.len() {
        StepView::Expand(run)
    } else {
        conclude(run)
    }
}

/// What the build does with the paths of a pattern that are left.  It deals
/// with them in their order, and stops at the first header file to have its
/// bindings generated.
pub open spec fn scan(run: RunView, paths: Seq<Seq<char>>) -> StepView
    decreases paths.len(),
{
    if paths.len() == 0 {
        next_pattern(run)
    } else if run.config.type_of(paths[0]) is Header {
        match binding_path(run.config.out_dir, paths[0], run.config.binding_ext) {
            Some(binding_file) => StepView::Generate(
                GenerationView { run, header: paths[0], binding_file, remaining: paths.drop_first() },
            ),
            None => StepView::Finish(
                Err(
                    ErrorView::MessageError(
                        unnamed_binding_message(paths[0], run.config.binding_ext),
                    ),
                ),
            ),
        }
    } else {
        scan(run.saw(paths[0]), paths.drop_first())
    }
}

/// The notices of the paths that [`scan`] goes through: one for each path up
/// to the first header file, that one included.
pub open spec fn scan_notices(config: ConfigView, paths: Seq<Seq<char>>) -> Seq<NoticeView>
    decreases paths.len(),
{
    if paths.len() == 0 {
        Seq::empty()
    } else if config.type_of(paths[0]) is Header {
        seq![config.notice(paths[0])]
    } else {
        seq![config.notice(paths[0])] + scan_notices(config, paths.drop_first())
    }
}

/// What the build does when it starts: without an output directory it
/// fails, and no hook runs.
pub open spec fn after_probe(
    config: ConfigView,
    is_dir: bool,
    hooked: BuildView,
    options: MatchOptions,
) -> StepView {
    if is_dir {
        next_pattern(RunView::start(config, hooked, options))
    } else {
        StepView::Finish(Err(ErrorView::MessageError(missing_out_dir_message(config.out_dir))))
    }
}

/// What the build does with the outcome of an expansion: a malformed pattern
/// ends it, and the paths of a well-formed one are dealt with.
pub open spec fn after_expansion(
    run: RunView,
    outcome: Result<Seq<Seq<char>>, PatternError>,
) -> StepView {
    match outcome {
        Ok(paths) => scan(run.expanded_one(), paths),
        Err(err) => StepView::Finish(Err(ErrorView::PatternError(err))),
    }
}

/// The notices that follow an expansion.
pub open spec fn notices_after_expansion(
    run: RunView,
    outcome: Result<Seq<Seq<char>>, PatternError>,
) -> Seq<NoticeView> {
    match outcome {
        Ok(paths) => scan_notices(run.config, paths),
        Err(_) => Seq::empty(),
    }
}

/// Why the bindings of a header file did not come about.
#[derive(Debug)]
pub enum GenerationFailure {
    /// The binding generator failed.
    Generate(BindgenError),
    /// The binding file could not be written.
    Write(StdIoError),
}

/// What the build does with the outcome of a generation: a failure ends it,
/// and after a success the header file is dealt with and the build goes on
/// with the remaining paths.
pub open spec fn after_generation(
    generation: GenerationView,
    outcome: Result<(), GenerationFailure>,
) -> StepView {
    match outcome {
        Ok(_) => scan(generation.run.saw(generation.header), generation.remaining),
        Err(GenerationFailure::Generate(err)) => StepView::Finish(
            Err(ErrorView::BindgenError(err)),
        ),
        Err(GenerationFailure::Write(err)) => StepView::Finish(Err(ErrorView::StdIoError(err))),
    }
}

/// The notices that follow a generation.
pub open spec fn notices_after_generation(
    generation: GenerationView,
    outcome: Result<(), GenerationFailure>,
) -> Seq<NoticeView> {
    match outcome {
        Ok(_) => scan_notices(generation.run.config, generation.remaining),
        Err(_) => Seq::empty(),
    }
}

/// What the build reports after the compilation: the results with the name
/// of the library, or the failure of the compiler.
pub open spec fn after_compilation(
    compilation: CompilationView,
    outcome: Result<(), CcError>,
) -> Result<BuildResultsView, ErrorView> {
    match outcome {
        Ok(_) => Ok(
            BuildResultsView { lib_name: Some(compilation.lib_name), ..compilation.run.results() },
        ),
        Err(err) => Err(ErrorView::CcError(err)),
    }
}

/// Whether `made` may be the handle of the compilation after its hook ran:
/// the hook received the fresh handle with the output directory set.
pub open spec fn hooked_build<C: FnOnce(Build) -> Build>(
    hook: C,
    out_dir: Seq<char>,
    made: BuildView,
) -> bool {
    exists|seed: Build, build: Build|
        seed@ == BuildView::empty().at(out_dir) && call_ensures(hook, (seed,), build) && build@
            == made
}

/// Whether `made` may be the handle of the binding generation for `header`
/// after its hook ran: the hook received the fresh handle with the header
/// and the parse callbacks of the host build pipeline.
pub open spec fn hooked_builder<B: Fn(Builder) -> Builder>(
    hook: B,
    header: Seq<char>,
    made: Builder,
) -> bool {
    exists|seed: Builder| seed@ == BuilderView::seeded(header) && call_ensures(hook, (seed,), made)
}

/// Whether the hook of the binding generation accepts the fresh handle of
/// every header file.
pub open spec fn accepts_seeds<B: Fn(Builder) -> Builder>(hook: B) -> bool {
    forall|seed: Builder, header: Seq<char>|
        seed@ == #[trigger] BuilderView::seeded(header) ==> #[trigger] call_requires(
            hook,
            (seed,),
        )
}

impl<'a, C: FnOnce(Build) -> Build, B: Fn(Builder) -> Builder, G: FnOnce(
    MatchOptions,
) -> MatchOptions> Config<'a, C, B, G> {
    /// Whether the hooks accept the handles that the build hands to them.
    pub open spec fn hooks_accept(self) -> bool {
        &&& forall|seed: Build|
            seed@ == BuildView::empty().at(self@.out_dir) ==> #[trigger] call_requires(
                self.cc_hook(),
                (seed,),
            )
        &&& accepts_seeds(self.bindgen_hook())
        &&& call_requires(self.glob_hook(), (MatchOptions::initial(),))
    }

    /// Starts the build of the library and of the binding files.  The
    /// configuration is consumed.  Nothing was done yet when this returns:
    /// the first step asks whether the output directory is there.
    pub fn build(self) -> (probe: Probe<'a, C, B, G>)
        requires
            self.hooks_accept(),
        ensures
            probe@ == self@,
            probe.cc_hook() == self.cc_hook(),
            probe.bindgen_hook() == self.bindgen_hook(),
            probe.glob_hook() == self.glob_hook(),
    {
        Probe { config: self }
    }
}

/// The build before its first step: it waits to learn whether the output
/// directory is there.
pub struct Probe<
    'a,
    C: FnOnce(Build) -> Build,
    B: Fn(Builder) -> Builder,
    G: FnOnce(MatchOptions) -> MatchOptions,
> {
    config: Config<'a, C, B, G>,
}

impl<'a, C: FnOnce(Build) -> Build, B: Fn(Builder) -> Builder, G: FnOnce(
    MatchOptions,
) -> MatchOptions> Probe<'a, C, B, G> {
    #[verifier::type_invariant]
    spec fn valid(self) -> bool {
        self.config.hooks_accept()
    }

    /// The configuration of the build.
    pub closed spec fn view(self) -> ConfigView {
        self.config@
    }

    /// The hook for the configuration of the compilation.
    pub closed spec fn cc_hook(self) -> C {
        self.config.cc_hook()
    }

    /// The hook for the configuration of a binding generation.
    pub closed spec fn bindgen_hook(self) -> B {
        self.config.bindgen_hook()
    }

    /// The hook for the options of the glob matching.
    pub closed spec fn glob_hook(self) -> G {
        self.config.glob_hook()
    }

    /// The output directory, of which the build has to learn whether it is
    /// a directory.
    pub fn out_dir(&self) -> (out_dir: &str)
        ensures
            out_dir@ == self@.out_dir,
    {
        self.config.get_out_dir()
    }
}

/// The state that the steps of a build hand on.
struct Run<'a, B> {
    out_dir: String,
    input_files: Vec<&'a str>,
    lib_name: Option<&'a str>,
    cc_exts: Vec<String>,
    bindgen_exts: Vec<String>,
    binding_ext: &'a str,
    hook: B,
    build: Build,
    options: MatchOptions,
    expanded: usize,
    results: BuildResults,
    hooked: Ghost<BuildView>,
    seen: Ghost<Seq<Seq<char>>>,
}

impl<'a, B: Fn(Builder) -> Builder> Run<'a, B> {
    spec fn config(self) -> ConfigView {
        ConfigView {
            out_dir: self.out_dir@,
            input_files: self.input_files.deep_view(),
            lib_name: self.lib_name.deep_view(),
            source_exts: self.cc_exts.deep_view(),
            header_exts: self.bindgen_exts.deep_view(),
            binding_ext: self.binding_ext@,
        }
    }

    spec fn view(self) -> RunView {
        RunView {
            config: self.config(),
            hooked: self.hooked@,
            options: self.options,
            expanded: self.expanded as nat,
            seen: self.seen@,
        }
    }

    spec fn inv(self) -> bool {
        &&& self.view().wf()
        &&& self.results@ == self.view().results()
        &&& self.build@ == self.view().build()
        &&& accepts_seeds(self.hook)
    }
}

/// A build that waits for the expansion of its next pattern.
pub struct Expansion<'a, B: Fn(Builder) -> Builder> {
    run: Run<'a, B>,
}

impl<'a, B: Fn(Builder) -> Builder> Expansion<'a, B> {
    #[verifier::type_invariant]
    spec fn valid(self) -> bool {
        self.run.inv() && self.run.expanded < self.run.input_files.len()
    }

    /// The build as it stands.
    pub closed spec fn view(self) -> RunView {
        self.run.view()
    }

    /// The hook for the configuration of a binding generation.
    pub closed spec fn hook(self) -> B {
        self.run.hook
    }

    /// The pattern to expand: the first of the input file patterns that was
    /// not expanded yet.
    pub fn pattern(&self) -> (pattern: &'a str)
        ensures
            self@.expanded < self@.config.input_files.len(),
            pattern@ == self@.config.input_files[self@.expanded as int],
    {
        proof {
            use_type_invariant(self);
        }
        self.run.input_files[self.run.expanded]
    }

    /// The options to expand the pattern with.
    pub fn options(&self) -> (options: MatchOptions)
        ensures
            options == self@.options,
    {
        self.run.options
    }
}

/// A build that waits for the bindings of a header file.
pub struct Generation<'a, B: Fn(Builder) -> Builder> {
    run: Run<'a, B>,
    paths: Vec<String>,
    cursor: usize,
    header: String,
    binding_file: String,
    builder: Builder,
}

impl<'a, B: Fn(Builder) -> Builder> Generation<'a, B> {
    #[verifier::type_invariant]
    spec fn valid(self) -> bool {
        &&& self.run.inv()
        &&& self.cursor <= self.paths.len()
        &&& self.run.config().type_of(self.header@) is Header
        &&& binding_path(self.run.out_dir@, self.header@, self.run.binding_ext@) == Some(
            self.binding_file@,
        )
    }

    /// The build as it stands, with the header file and its binding file.
    pub closed spec fn view(self) -> GenerationView {
        GenerationView {
            run: self.run.view(),
            header: self.header@,
            binding_file: self.binding_file@,
            remaining: self.paths.deep_view().skip(self.cursor as int),
        }
    }

    /// The hook for the configuration of a binding generation.
    pub closed spec fn hook(self) -> B {
        self.run.hook
    }

    /// The handle of the binding generation as the hook returned it.
    pub closed spec fn hooked(self) -> Builder {
        self.builder
    }

    /// The header file to generate the bindings of.
    pub fn header(&self) -> (header: &str)
        ensures
            header@ == self@.header,
    {
        self.header.as_str()
    }

    /// The handle of the binding generation, after the hook.
    pub fn builder(&self) -> (builder: &Builder)
        ensures
            *builder == self.hooked(),
    {
        &self.builder
    }

    /// The binding file to write.
    pub fn binding_file(&self) -> (binding_file: &str)
        ensures
            binding_file@ == self@.binding_file,
    {
        self.binding_file.as_str()
    }
}

/// A build that waits for the compilation of its source files.
pub struct Compilation<'a> {
    results: BuildResults,
    build: Build,
    lib_name: &'a str,
    run: Ghost<RunView>,
}

impl<'a> Compilation<'a> {
    #[verifier::type_invariant]
    spec fn valid(self) -> bool {
        &&& self.results@ == self.run@.results()
        &&& self.build@ == self.run@.build()
        &&& StepView::Compile(self.view()).wf(self.run@.config)
    }

    /// The build as it stands, and the name of the library.
    pub closed spec fn view(self) -> CompilationView {
        CompilationView { run: self.run@, lib_name: self.lib_name@ }
    }

    /// The handle of the compilation, with all source files.
    pub fn build(&self) -> (build: &Build)
        ensures
            build@ == self@.run.build(),
    {
        proof {
            use_type_invariant(self);
        }
        &self.build
    }

    /// The name of the library to compile the source files into.
    pub fn lib_name(&self) -> (lib_name: &'a str)
        ensures
            lib_name@ == self@.lib_name,
    {
        self.lib_name
    }

    /// Ends the build with the outcome of the compilation: the results name
    /// the library after a success, and a failure is handed on.
    pub fn resume(self, outcome: Result<(), CcError>) -> (report: Result<BuildResults, Error>)
        ensures
            match report {
                Ok(results) => after_compilation(self@, outcome) == Ok::<
                    BuildResultsView,
                    ErrorView,
                >(results@),
                Err(err) => after_compilation(self@, outcome) == Err::<
                    BuildResultsView,
                    ErrorView,
                >(err@),
            },
            report matches Ok(results) ==> results@.bound_with(self@.run.config.binding_ext),
    {
        proof {
            use_type_invariant(&self);
            law_binding_round_trip(self.run@);
        }
        match outcome {
            Ok(_) => {
                let mut results = self.results;
                results.lib_name = Some(self.lib_name.to_owned());
                Ok(results)
            },
            Err(err) => Err(Error::CcError(err)),
        }
    }
}

/// A step of a build: what has to be done outside the library next, or the
/// end of the build.
pub enum Step<'a, B: Fn(Builder) -> Builder> {
    /// The next pattern has to be expanded.
    Expand(Expansion<'a, B>),
    /// The bindings of a header file have to be generated and written.
    Generate(Generation<'a, B>),
    /// The source files have to be compiled.
    Compile(Compilation<'a>),
    /// The build is over.
    Finish(Result<BuildResults, Error>),
}

impl<'a, B: Fn(Builder) -> Builder> View for Step<'a, B> {
    type V = StepView;

    open spec fn view(&self) -> StepView {
        match self {
            Step::Expand(expansion) => StepView::Expand(expansion.view()),
            Step::Generate(generation) => StepView::Generate(generation.view()),
            Step::Compile(compilation) => StepView::Compile(compilation.view()),
            Step::Finish(Ok(results)) => StepView::Finish(Ok(results@)),
            Step::Finish(Err(err)) => StepView::Finish(Err(err@)),
        }
    }
}

impl<'a, B: Fn(Builder) -> Builder> Step<'a, B> {
    /// Whether this step works with `hook`: the handle of a binding
    /// generation that it asks for came out of the hook, and a later step
    /// will use the hook again.
    pub open spec fn uses(self, hook: B) -> bool {
        match self {
            Step::Expand(expansion) => expansion.hook() == hook,
            Step::Generate(generation) => generation.hook() == hook && hooked_builder(
                hook,
                generation.view().header,
                generation.hooked(),
            ),
            _ => true,
        }
    }
}

/// A step of a build with the notices that come before it.
pub struct Progress<'a, B: Fn(Builder) -> Builder> {
    /// The lines to put out before the step is taken, in their order.
    pub notices: Vec<Notice>,
    /// The step.
    pub step: Step<'a, B>,
}

/// The paths of an expansion as sequences of characters.
pub open spec fn expansion_view(outcome: Result<Vec<String>, PatternError>) -> Result<
    Seq<Seq<char>>,
    PatternError,
> {
    match outcome {
        Ok(paths) => Ok(paths.deep_view()),
        Err(err) => Err(err),
    }
}

/// A path that is no source file adds nothing to the source files.
proof fn lemma_sources_push(config: ConfigView, seen: Seq<Seq<char>>, path: Seq<char>)
    ensures
        config.sources(seen.push(path)) == if config.type_of(path) is Source {
            config.sources(seen).push(path)
        } else {
            config.sources(seen)
        },
        config.bindings(seen.push(path)) == if config.type_of(path) is Header {
            config.bindings(seen).push(config.binding(path))
        } else {
            config.bindings(seen)
        },
{
    assert(seen.push(path).drop_last() =~= seen);
    assert(seen.push(path).last() == path);
}

/// Ends the build once every pattern was expanded.
fn finish<'a, B: Fn(Builder) -> Builder>(run: Run<'a, B>) -> (step: Step<'a, B>)
    requires
        run.inv(),
    ensures
        step@ == conclude(run.view()),
        step@.wf(run.config()),
        step.uses(run.hook),
{
    proof {
        law_binding_round_trip(run.view());
    }
    if run.results.source_files.len() > 0 {
        match run.lib_name {
            Some(lib_name) => Step::Compile(
                Compilation {
                    results: run.results,
                    build: run.build,
                    lib_name,
                    run: Ghost(run.view()),
                },
            ),
            None => Step::Finish(
                Err(
                    Error::MessageError(
                        String::from_str(
                            "library name MUST be configured when at least one cc source is configured",
                        ),
                    ),
                ),
            ),
        }
    } else if run.results.header_bindings.len() == 0 {
        Step::Finish(Err(Error::MessageError(String::from_str("no source files configured"))))
    } else {
        Step::Finish(Ok(run.results))
    }
}

/// Goes on to the next pattern, or ends the build.
fn next<'a, B: Fn(Builder) -> Builder>(run: Run<'a, B>, notices: Vec<Notice>) -> (progress: Progress<
    'a,
    B,
>)
    requires
        run.inv(),
    ensures
        progress.step@ == next_pattern(run.view()),
        progress.step@.wf(run.config()),
        progress.notices == notices,
        progress.step.uses(run.hook),
{
    if run.expanded < run.input_files.len() {
        Progress { notices, step: Step::Expand(Expansion { run }) }
    } else {
        Progress { notices, step: finish(run) }
    }
}

/// Deals with the paths from `start` on, up to the first header file.
fn advance<'a, B: Fn(Builder) -> Builder>(
    run: Run<'a, B>,
    paths: Vec<String>,
    start: usize,
    notices: Vec<Notice>,
) -> (progress: Progress<'a, B>)
    requires
        run.inv(),
        start <= paths.len(),
    ensures
        progress.step@ == scan(run.view(), paths.deep_view().skip(start as int)),
        progress.step@.wf(run.config()),
        progress.notices.deep_view() == notices.deep_view() + scan_notices(
            run.config(),
            paths.deep_view().skip(start as int),
        ),
        progress.step.uses(run.hook),
{
    let ghost initial = run.view();
    let ghost hook = run.hook;
    let ghost texts = paths.deep_view();
    let ghost said = notices.deep_view();
    let mut state = run;
    let mut lines = notices;
    let mut index = start;
    assert(lines.deep_view() + scan_notices(state.config(), texts.skip(index as int)) =~= said
        + scan_notices(initial.config, texts.skip(start as int)));
    while index < paths.len()
        invariant
            initial == run.view(),
            hook == run.hook,
            said == notices.deep_view(),
            texts == paths.deep_view(),
            start <= paths.len(),
            state.inv(),
            index <= paths.len(),
            state.config() == initial.config,
            state.hook == hook,
            scan(state.view(), texts.skip(index as int)) == scan(initial, texts.skip(start as int)),
            lines.deep_view() + scan_notices(initial.config, texts.skip(index as int)) == said
                + scan_notices(initial.config, texts.skip(start as int)),
        decreases paths.len() - index,
    {
        let path: String = paths[index].clone();
        let extension = extension_of(path.as_str());
        let kind = match &extension {
            Some(text) => classify(&state.cc_exts, &state.bindgen_exts, Some(text.as_str())),
            None => classify(&state.cc_exts, &state.bindgen_exts, None),
        };
        let ghost rest = texts.skip(index as int);
        let ghost before = state.view();
        let ghost announced = lines.deep_view();
        proof {
            assert(rest[0] == path@);
            assert(rest.drop_first() =~= texts.skip(index + 1));
            assert(kind.deep_view() == before.config.type_of(path@));
            lemma_sources_push(before.config, before.seen, path@);
        }
        match kind {
            FileType::Source => {
                lines.push(Notice::Track(path.clone()));
                state.build = state.build.file(path.as_str());
                let ghost files = state.results.source_files@;
                let mut source_files = state.results.source_files;
                source_files.push(path);
                state.results.source_files = source_files;
                state.seen = Ghost(state.seen@.push(path@));
                proof {
                    lemma_push_text(files, state.results.source_files@, path);
                    assert(lines.deep_view() =~= announced.push(NoticeView::Track(path@)));
                    assert(state.view() == before.saw(path@));
                    assert(announced.push(NoticeView::Track(path@)) + scan_notices(
                        initial.config,
                        texts.skip(index + 1),
                    ) =~= announced + scan_notices(initial.config, rest));
                }
            },
            FileType::Header => {
                lines.push(Notice::Track(path.clone()));
                proof {
                    assert(lines.deep_view() =~= announced.push(NoticeView::Track(path@)));
                    assert(announced.push(NoticeView::Track(path@)) =~= announced + scan_notices(
                        initial.config,
                        rest,
                    ));
                }
                match binding_file(state.out_dir.as_str(), path.as_str(), state.binding_ext) {
                    Some(binding_file) => {
                        let seed = Builder::default().header(path.as_str()).parse_callbacks(
                            ParseCallbacks::Cargo,
                        );
                        assert(seed@ == BuilderView::seeded(path@));
                        assert(call_requires(state.hook, (seed,)));
                        let builder = (state.hook)(seed);
                        return Progress {
                            notices: lines,
                            step: Step::Generate(
                                Generation {
                                    run: state,
                                    paths,
                                    cursor: index + 1,
                                    header: path,
                                    binding_file,
                                    builder,
                                },
                            ),
                        };
                    },
                    None => {
                        let message = String::from_str("binding file of ").concat(
                            path.as_str(),
                        ).concat(" MUST have a file name and the extension ").concat(
                            state.binding_ext,
                        ).concat(" without a path separator");
                        return Progress {
                            notices: lines,
                            step: Step::Finish(Err(Error::MessageError(message))),
                        };
                    },
                }
            },
            FileType::Unsupported(_) => {
                lines.push(Notice::Ignore(path.clone()));
                state.seen = Ghost(state.seen@.push(path@));
                proof {
                    assert(lines.deep_view() =~= announced.push(NoticeView::Ignore(path@)));
                    assert(state.view() == before.saw(path@));
                    assert(announced.push(NoticeView::Ignore(path@)) + scan_notices(
                        initial.config,
                        texts.skip(index + 1),
                    ) =~= announced + scan_notices(initial.config, rest));
                }
            },
        }
        index += 1;
    }
    proof {
        assert(texts.skip(index as int) =~= Seq::empty());
        assert(lines.deep_view() =~= said + scan_notices(
            initial.config,
            texts.skip(start as int),
        ));
    }
    next(state, lines)
}

impl<'a, C: FnOnce(Build) -> Build, B: Fn(Builder) -> Builder, G: FnOnce(
    MatchOptions,
) -> MatchOptions> Probe<'a, C, B, G> {
    /// Takes the first step.  Where the output directory is not there, the
    /// build fails and no hook runs.  Where it is, the hooks for the
    /// compilation and for the glob matching run, each once, and the build
    /// turns to its first pattern.
    pub fn resume(self, is_dir: bool) -> (progress: Progress<'a, B>)
        ensures
            progress.notices@.len() == 0,
            exists|hooked: BuildView, options: MatchOptions|
                {
                    &&& progress.step@ == after_probe(self@, is_dir, hooked, options)
                    &&& is_dir ==> hooked_build(self.cc_hook(), self@.out_dir, hooked)
                        && call_ensures(self.glob_hook(), (MatchOptions::initial(),), options)
                },
            progress.step@.wf(self@),
            progress.step.uses(self.bindgen_hook()),
    {
        proof {
            use_type_invariant(&self);
        }
        let parts = self.config.into_parts();
        if !is_dir {
            let message = String::from_str("output directory ").concat(
                parts.out_dir.as_str(),
            ).concat(" MUST be created before calling Config::build");
            let progress = Progress {
                notices: Vec::new(),
                step: Step::Finish(Err(Error::MessageError(message))),
            };
            assert(progress.step@ == after_probe(
                self@,
                is_dir,
                BuildView::empty(),
                MatchOptions::initial(),
            ));
            return progress;
        }
        let seed = Build::default().out_dir(parts.out_dir.as_str());
        let build = (parts.cc_build_hook)(seed);
        let options = (parts.glob_matchoptions_hook)(MatchOptions::new());
        let results = BuildResults {
            out_dir: parts.out_dir.clone(),
            lib_name: None,
            source_files: Vec::new(),
            header_bindings: Vec::new(),
        };
        let run = Run {
            out_dir: parts.out_dir,
            input_files: parts.input_files,
            lib_name: parts.lib_name,
            cc_exts: parts.cc_exts,
            bindgen_exts: parts.bindgen_exts,
            binding_ext: parts.binding_ext,
            hook: parts.bindgen_builder_hook,
            build,
            options,
            expanded: 0,
            results,
            hooked: Ghost(build@),
            seen: Ghost(Seq::empty()),
        };
        proof {
            assert(run.results.source_files.deep_view() =~= Seq::empty());
            assert(run.results.header_bindings.deep_view() =~= Seq::empty());
            assert(run.build@.files =~= run.view().build().files);
            assert(run.view() == RunView::start(self@, build@, options));
            assert(hooked_build(self.cc_hook(), self@.out_dir, build@));
        }
        let progress = next(run, Vec::new());
        assert(progress.step@ == after_probe(self@, is_dir, build@, options));
        progress
    }
}

impl<'a, B: Fn(Builder) -> Builder> Expansion<'a, B> {
    /// Goes on with the outcome of the expansion.  A malformed pattern ends
    /// the build.  The paths of a well-formed one are dealt with in their
    /// order: a source file is registered for the compilation, a header
    /// file stops the step to have its bindings generated, and any other
    /// file is passed over.
    pub fn resume(self, outcome: Result<Vec<String>, PatternError>) -> (progress: Progress<'a, B>)
        ensures
            progress.step@ == after_expansion(self@, expansion_view(outcome)),
            progress.step@.wf(self@.config),
            progress.notices.deep_view() == notices_after_expansion(
                self@,
                expansion_view(outcome),
            ),
            progress.step.uses(self.hook()),
    {
        proof {
            use_type_invariant(&self);
        }
        match outcome {
            Ok(paths) => {
                let mut run = self.run;
                run.expanded = run.expanded + 1;
                let notices: Vec<Notice> = Vec::new();
                proof {
                    assert(run.view() == self@.expanded_one());
                    assert(paths.deep_view().skip(0) =~= paths.deep_view());
                    assert(notices.deep_view() =~= Seq::empty());
                }
                let progress = advance(run, paths, 0, notices);
                assert(progress.notices.deep_view() =~= scan_notices(
                    self@.config,
                    paths.deep_view(),
                ));
                progress
            },
            Err(err) => {
                let notices: Vec<Notice> = Vec::new();
                assert(notices.deep_view() =~= Seq::empty());
                Progress { notices, step: Step::Finish(Err(Error::PatternError(err))) }
            },
        }
    }
}

impl<'a, B: Fn(Builder) -> Builder> Generation<'a, B> {
    /// Goes on with the outcome of the generation.  A failure ends the
    /// build.  After a success the header file is recorded with its binding
    /// file, and the build deals with the paths that are left.
    pub fn resume(self, outcome: Result<(), GenerationFailure>) -> (progress: Progress<'a, B>)
        ensures
            progress.step@ == after_generation(self@, outcome),
            progress.step@.wf(self@.run.config),
            progress.notices.deep_view() == notices_after_generation(self@, outcome),
            progress.step.uses(self.hook()),
    {
        proof {
            use_type_invariant(&self);
        }
        match outcome {
            Ok(_) => {
                let ghost before = self.run.view();
                let mut run = self.run;
                let ghost bindings = run.results.header_bindings.deep_view();
                let binding = HeaderBinding {
                    input_header_file: self.header,
                    rust_binding_file: self.binding_file,
                };
                let mut header_bindings = run.results.header_bindings;
                header_bindings.push(binding);
                run.results.header_bindings = header_bindings;
                run.seen = Ghost(run.seen@.push(self.header@));
                let notices: Vec<Notice> = Vec::new();
                proof {
                    lemma_sources_push(before.config, before.seen, self.header@);
                    assert(run.results.header_bindings.deep_view() =~= bindings.push(binding@));
                    assert(run.view() == before.saw(self.header@));
                    assert(notices.deep_view() =~= Seq::empty());
                }
                let progress = advance(run, self.paths, self.cursor, notices);
                assert(progress.notices.deep_view() =~= scan_notices(
                    before.config,
                    self@.remaining,
                ));
                progress
            },
            Err(GenerationFailure::Generate(err)) => {
                let notices: Vec<Notice> = Vec::new();
                assert(notices.deep_view() =~= Seq::empty());
                Progress { notices, step: Step::Finish(Err(Error::BindgenError(err))) }
            },
            Err(GenerationFailure::Write(err)) => {
                let notices: Vec<Notice> = Vec::new();
                assert(notices.deep_view() =~= Seq::empty());
                Progress { notices, step: Step::Finish(Err(Error::StdIoError(err))) }
            },
        }
    }
}

} // verus!
