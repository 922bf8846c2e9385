//! The build configuration and what a build reports.
//!
//! A [`Config`] is created with the default parameters and then configured
//! by its methods, each of which takes the configuration by value and
//! returns it, so that the calls can be chained.  Source files and header
//! files are configured together as the input files; each may be a glob
//! pattern.  The backends are configured by hooks: functions that receive
//! the handle of a backend, change it and return it.

use crate::backend::Build;
use crate::backend::Builder;
use crate::backend::MatchOptions;
use crate::hooks::bindgen_builder::reflect as reflect_bindgen_builder;
use crate::hooks::cc_build::reflect as reflect_cc_build;
use crate::hooks::compose;
use crate::hooks::compose_repeatable;
use crate::hooks::chain_accepts;
use crate::hooks::chain_yields;
use crate::hooks::glob_matchoptions::reflect as reflect_glob_matchoptions;
use crate::builder::file_type::add_ext;
use crate::builder::file_type::delete_ext;
use crate::builder::file_type::lemma_ext_added;
use crate::builder::file_type::lemma_ext_deleted;
use crate::hooks::reflects;
use crate::path::path_extension;
use vstd::prelude::*;

pub mod file_type;
pub mod laws;
pub mod orchestrator;
pub mod results;

pub use file_type::classify;
pub use file_type::ext_added;
pub use file_type::ext_deleted;
pub use file_type::file_type;
pub use file_type::position;
pub use file_type::FileType;
pub use file_type::FileTypeView;
pub use results::str_iter_to_string;
pub use results::BuildResults;
pub use results::HeaderBinding;

verus! {

/// The name of the environment variable by which the host build pipeline
/// configures the output directory.
pub const ENV_KEY_OUT_DIR: &'static str = "OUT_DIR";

/// The default extension of a binding file.
///
/// It is not `rs`, so that a binding file is not mixed up with a true source
/// file.
pub const RUST_FFI_BINDING_EXT: &'static str = "in";

/// The default extensions of the source files.
pub const SOURCE_EXTS: [&'static str; 5] = ["c", "cc", "cpp", "cxx", "s"];

/// The default extensions of the header files.
pub const HEADER_EXTS: [&'static str; 4] = ["h", "hh", "hpp", "hxx"];

/// The default extensions of the source files, as a sequence of texts.
pub open spec fn default_source_exts() -> Seq<Seq<char>> {
    seq!["c"@, "cc"@, "cpp"@, "cxx"@, "s"@]
}

/// The default extensions of the header files, as a sequence of texts.
pub open spec fn default_header_exts() -> Seq<Seq<char>> {
    seq!["h"@, "hh"@, "hpp"@, "hxx"@]
}

/// The extensions of each default list differ from one another.
pub proof fn lemma_default_exts_distinct()
    ensures
        default_source_exts().no_duplicates(),
        default_header_exts().no_duplicates(),
{
    reveal_strlit("c");
    reveal_strlit("cc");
    reveal_strlit("cpp");
    reveal_strlit("cxx");
    reveal_strlit("s");
    reveal_strlit("h");
    reveal_strlit("hh");
    reveal_strlit("hpp");
    reveal_strlit("hxx");
    assert("cpp"@[1] != "cxx"@[1]);
    assert("c"@[0] != "s"@[0]);
    assert("hpp"@[1] != "hxx"@[1]);
    let sources = default_source_exts();
    assert forall|i: int, j: int|
        0 <= i < sources.len() && 0 <= j < sources.len() && i != j implies sources[i]
        != sources[j] by {
        assert(sources[i].len() != sources[j].len() || sources[i][0] != sources[j][0]
            || sources[i][1] != sources[j][1]);
    }
    let headers = default_header_exts();
    assert forall|i: int, j: int|
        0 <= i < headers.len() && 0 <= j < headers.len() && i != j implies headers[i]
        != headers[j] by {
        assert(headers[i].len() != headers[j].len() || headers[i][1] != headers[j][1]);
    }
}

/// The configuration parameters, and the entry to the build.
///
/// `C`, `B` and `G` are the hooks for the compilation, for the binding
/// generation and for the glob matching.
pub struct Config<'a, C, B, G> {
    out_dir: String,
    input_files: Vec<&'a str>,
    lib_name: Option<&'a str>,
    cc_exts: Vec<String>,
    bindgen_exts: Vec<String>,
    binding_ext: &'a str,
    cc_build_hook: C,
    bindgen_builder_hook: B,
    glob_matchoptions_hook: G,
}

/// What a [`Config`] holds, but for its hooks.
pub struct ConfigView {
    /// The output directory.
    pub out_dir: Seq<char>,
    /// The input file patterns, in the order in which they were added.
    pub input_files: Seq<Seq<char>>,
    /// The library name, where one was set.
    pub lib_name: Option<Seq<char>>,
    /// The extensions of the source files.
    pub source_exts: Seq<Seq<char>>,
    /// The extensions of the header files.
    pub header_exts: Seq<Seq<char>>,
    /// The extension of the binding files.
    pub binding_ext: Seq<char>,
}

impl ConfigView {
    /// Whether no extension is listed twice.
    pub open spec fn wf(self) -> bool {
        self.source_exts.no_duplicates() && self.header_exts.no_duplicates()
    }

    /// The configuration that nothing was set in, with the given output
    /// directory.
    pub open spec fn initial(out_dir: Seq<char>) -> ConfigView {
        ConfigView {
            out_dir,
            input_files: Seq::empty(),
            lib_name: None,
            source_exts: default_source_exts(),
            header_exts: default_header_exts(),
            binding_ext: RUST_FFI_BINDING_EXT@,
        }
    }

    /// The type of the file at `path`, by the extensions of this
    /// configuration.
    pub open spec fn type_of(self, path: Seq<char>) -> FileTypeView {
        file_type(self.source_exts, self.header_exts, path_extension(path))
    }
}


impl<'a, C, B, G> View for Config<'a, C, B, G> {
    type V = ConfigView;

    closed spec fn view(&self) -> ConfigView {
        ConfigView {
            out_dir: self.out_dir@,
            input_files: self.input_files.deep_view(),
            lib_name: self.lib_name.deep_view(),
            source_exts: self.cc_exts.deep_view(),
            header_exts: self.bindgen_exts.deep_view(),
            binding_ext: self.binding_ext@,
        }
    }
}

impl<'a, C, B, G> Config<'a, C, B, G> {
    #[verifier::type_invariant]
    spec fn valid(self) -> bool {
        self@.wf()
    }

    /// The hook for the configuration of the compilation.
    pub closed spec fn cc_hook(self) -> C {
        self.cc_build_hook
    }

    /// The hook for the configuration of a binding generation.
    pub closed spec fn bindgen_hook(self) -> B {
        self.bindgen_builder_hook
    }

    /// The hook for the options of the glob matching.
    pub closed spec fn glob_hook(self) -> G {
        self.glob_matchoptions_hook
    }

    /// Whether `other` has the hooks of this configuration.
    pub open spec fn same_hooks(self, other: Self) -> bool {
        &&& other.cc_hook() == self.cc_hook()
        &&& other.bindgen_hook() == self.bindgen_hook()
        &&& other.glob_hook() == self.glob_hook()
    }

    /// Sets the output directory of the objects, the library and the binding
    /// files.  The directory has to be there when the build starts.
    pub fn out_dir(self, out_dir: &str) -> (config: Self)
        ensures
            config@ == (ConfigView { out_dir: out_dir@, ..self@ }),
            config@.wf(),
            self.same_hooks(config),
    {
        proof {
            use_type_invariant(&self);
        }
        Config { out_dir: out_dir.to_owned(), ..self }
    }

    /// Sets a single input file, which may be a glob pattern.  The input
    /// files configured before are dropped.
    pub fn input_file(self, filename: &'a str) -> (config: Self)
        ensures
            config@ == (ConfigView { input_files: seq![filename@], ..self@ }),
            config@.wf(),
            self.same_hooks(config),
    {
        proof {
            use_type_invariant(&self);
        }
        let mut input_files: Vec<&'a str> = Vec::new();
        input_files.push(filename);
        assert(input_files.deep_view() =~= seq![filename@]);
        Config { input_files, ..self }
    }

    /// Sets the input files, each of which may be a glob pattern.  The input
    /// files configured before are dropped.
    pub fn input_files(self, filenames: &[&'a str]) -> (config: Self)
        ensures
            config@ == (ConfigView { input_files: filenames.deep_view(), ..self@ }),
            config@.wf(),
            self.same_hooks(config),
    {
        proof {
            use_type_invariant(&self);
        }
        let cleared = Config { input_files: Vec::new(), ..self };
        assert(cleared@.input_files =~= Seq::empty());
        let config = cleared.add_input_files(filenames);
        assert(config@.input_files =~= filenames.deep_view());
        config
    }

    /// Adds a single input file, which may be a glob pattern.  The input
    /// files configured before are kept.
    pub fn add_input_file(self, filename: &'a str) -> (config: Self)
        ensures
            config@ == (ConfigView { input_files: self@.input_files.push(filename@), ..self@ }),
            config@.wf(),
            self.same_hooks(config),
    {
        proof {
            use_type_invariant(&self);
        }
        let mut input_files = self.input_files;
        input_files.push(filename);
        assert(input_files.deep_view() =~= self.input_files.deep_view().push(filename@));
        Config { input_files, ..self }
    }

    /// Adds input files, each of which may be a glob pattern.  The input
    /// files configured before are kept, and the new ones follow them in
    /// their own order.
    pub fn add_input_files(self, filenames: &[&'a str]) -> (config: Self)
        ensures
            config@ == (ConfigView {
                input_files: self@.input_files + filenames.deep_view(),
                ..self@
            }),
            config@.wf(),
            self.same_hooks(config),
    {
        proof {
            use_type_invariant(&self);
        }
        let ghost before = self.input_files@;
        let mut input_files = self.input_files;
        let mut index: usize = 0;
        while index < filenames.len()
            invariant
                index <= filenames.len(),
                input_files@ == before + filenames@.take(index as int),
            decreases filenames.len() - index,
        {
            input_files.push(filenames[index]);
            assert(input_files@ =~= before + filenames@.take(index + 1));
            index += 1;
        }
        assert(filenames@.take(index as int) =~= filenames@);
        assert(input_files.deep_view() =~= self.input_files.deep_view() + filenames.deep_view());
        Config { input_files, ..self }
    }

    /// Sets the name of the library that the source files are compiled
    /// into.  It is needed only if a source file is found.
    pub fn lib_name(self, lib_name: &'a str) -> (config: Self)
        ensures
            config@ == (ConfigView { lib_name: Some(lib_name@), ..self@ }),
            config@.wf(),
            self.same_hooks(config),
    {
        proof {
            use_type_invariant(&self);
        }
        Config { lib_name: Some(lib_name), ..self }
    }

    /// Sets the extension of the binding files.
    pub fn binding_ext(self, binding_ext: &'a str) -> (config: Self)
        ensures
            config@ == (ConfigView { binding_ext: binding_ext@, ..self@ }),
            config@.wf(),
            self.same_hooks(config),
    {
        proof {
            use_type_invariant(&self);
        }
        Config { binding_ext, ..self }
    }

    /// Adds an extension by which a source file is known.  Nothing changes
    /// where the extension is there already.
    pub fn add_source_ext(self, ext: &str) -> (config: Self)
        ensures
            config@ == (ConfigView { source_exts: ext_added(self@.source_exts, ext@), ..self@ }),
            config@.source_exts.contains(ext@),
            config@.wf(),
            self.same_hooks(config),
    {
        proof {
            use_type_invariant(&self);
            lemma_ext_added(self@.source_exts, ext@);
        }
        let mut cc_exts = self.cc_exts;
        add_ext(&mut cc_exts, ext);
        Config { cc_exts, ..self }
    }

    /// Deletes an extension by which a source file is known.  Nothing
    /// changes where the extension is not there.
    pub fn delete_source_ext(self, ext: &str) -> (config: Self)
        ensures
            config@ == (ConfigView { source_exts: ext_deleted(self@.source_exts, ext@), ..self@ }),
            !config@.source_exts.contains(ext@),
            config@.wf(),
            self.same_hooks(config),
    {
        proof {
            use_type_invariant(&self);
            lemma_ext_deleted(self@.source_exts, ext@);
        }
        let mut cc_exts = self.cc_exts;
        delete_ext(&mut cc_exts, ext);
        Config { cc_exts, ..self }
    }

    /// Adds an extension by which a header file is known.  Nothing changes
    /// where the extension is there already.
    pub fn add_header_ext(self, ext: &str) -> (config: Self)
        ensures
            config@ == (ConfigView { header_exts: ext_added(self@.header_exts, ext@), ..self@ }),
            config@.header_exts.contains(ext@),
            config@.wf(),
            self.same_hooks(config),
    {
        proof {
            use_type_invariant(&self);
            lemma_ext_added(self@.header_exts, ext@);
        }
        let mut bindgen_exts = self.bindgen_exts;
        add_ext(&mut bindgen_exts, ext);
        Config { bindgen_exts, ..self }
    }

    /// Deletes an extension by which a header file is known.  Nothing
    /// changes where the extension is not there.
    pub fn delete_header_ext(self, ext: &str) -> (config: Self)
        ensures
            config@ == (ConfigView { header_exts: ext_deleted(self@.header_exts, ext@), ..self@ }),
            !config@.header_exts.contains(ext@),
            config@.wf(),
            self.same_hooks(config),
    {
        proof {
            use_type_invariant(&self);
            lemma_ext_deleted(self@.header_exts, ext@);
        }
        let mut bindgen_exts = self.bindgen_exts;
        delete_ext(&mut bindgen_exts, ext);
        Config { bindgen_exts, ..self }
    }

    /// Tells the type of a file from its extension, where it has one that
    /// is text.
    pub fn find_filetype(&self, ext: Option<&str>) -> (kind: FileType)
        ensures
            kind.deep_view() == file_type(self@.source_exts, self@.header_exts, ext.deep_view()),
    {
        classify(&self.cc_exts, &self.bindgen_exts, ext)
    }
}

impl<'a, C, B, G> Config<'a, C, B, G> {
    /// The output directory.
    pub fn get_out_dir(&self) -> (out_dir: &str)
        ensures
            out_dir@ == self@.out_dir,
    {
        self.out_dir.as_str()
    }

    /// The input file patterns, in the order in which they were added.
    pub fn get_input_files(&self) -> (input_files: &Vec<&'a str>)
        ensures
            input_files.deep_view() == self@.input_files,
    {
        &self.input_files
    }

    /// The library name, where one was set.
    pub fn get_lib_name(&self) -> (lib_name: Option<&'a str>)
        ensures
            lib_name.deep_view() == self@.lib_name,
    {
        self.lib_name
    }

    /// The extension of the binding files.
    pub fn get_binding_ext(&self) -> (binding_ext: &'a str)
        ensures
            binding_ext@ == self@.binding_ext,
    {
        self.binding_ext
    }

    /// The extensions by which a source file is known; none is listed
    /// twice.
    pub fn get_source_exts(&self) -> (exts: &Vec<String>)
        ensures
            exts.deep_view() == self@.source_exts,
            exts.deep_view().no_duplicates(),
    {
        proof {
            use_type_invariant(self);
        }
        &self.cc_exts
    }

    /// The extensions by which a header file is known; none is listed
    /// twice.
    pub fn get_header_exts(&self) -> (exts: &Vec<String>)
        ensures
            exts.deep_view() == self@.header_exts,
            exts.deep_view().no_duplicates(),
    {
        proof {
            use_type_invariant(self);
        }
        &self.bindgen_exts
    }

    /// Sets the hook that configures the compilation.  It runs once in a
    /// build, before any input file is known.  The hook set or added before
    /// is dropped.
    pub fn cc_build_hook<F: FnOnce(Build) -> Build>(self, cc_build_hook: F) -> (config: Config<
        'a,
        F,
        B,
        G,
    >)
        ensures
            config@ == self@,
            config@.wf(),
            config.cc_hook() == cc_build_hook,
            config.bindgen_hook() == self.bindgen_hook(),
            config.glob_hook() == self.glob_hook(),
    {
        proof {
            use_type_invariant(&self);
        }
        Config {
            out_dir: self.out_dir,
            input_files: self.input_files,
            lib_name: self.lib_name,
            cc_exts: self.cc_exts,
            bindgen_exts: self.bindgen_exts,
            binding_ext: self.binding_ext,
            cc_build_hook,
            bindgen_builder_hook: self.bindgen_builder_hook,
            glob_matchoptions_hook: self.glob_matchoptions_hook,
        }
    }

    /// Adds a hook that configures the compilation.  The hook of the result
    /// runs the hook that was there, then runs the new one on what that
    /// returned.
    pub fn add_cc_build_hook<F: FnOnce(Build) -> Build>(self, cc_build_hook: F) -> (config: Config<
        'a,
        impl FnOnce(Build) -> Build,
        B,
        G,
    >) where C: FnOnce(Build) -> Build
        ensures
            config@ == self@,
            config@.wf(),
            forall|input: Build|
                chain_accepts(self.cc_hook(), cc_build_hook, input) ==> #[trigger] call_requires(
                    config.cc_hook(),
                    (input,),
                ),
            forall|input: Build, output: Build|
                #[trigger] call_ensures(config.cc_hook(), (input,), output) ==> chain_yields(
                    self.cc_hook(),
                    cc_build_hook,
                    input,
                    output,
                ),
            config.bindgen_hook() == self.bindgen_hook(),
            config.glob_hook() == self.glob_hook(),
    {
        proof {
            use_type_invariant(&self);
        }
        Config {
            out_dir: self.out_dir,
            input_files: self.input_files,
            lib_name: self.lib_name,
            cc_exts: self.cc_exts,
            bindgen_exts: self.bindgen_exts,
            binding_ext: self.binding_ext,
            cc_build_hook: compose(self.cc_build_hook, cc_build_hook),
            bindgen_builder_hook: self.bindgen_builder_hook,
            glob_matchoptions_hook: self.glob_matchoptions_hook,
        }
    }

    /// Sets the hook that configures a binding generation.  It runs once
    /// for each header file of a build.  The hook set or added before is
    /// dropped.
    pub fn bindgen_builder_hook<F: Fn(Builder) -> Builder>(self, bindgen_builder_hook: F) -> (config:
        Config<'a, C, F, G>)
        ensures
            config@ == self@,
            config@.wf(),
            config.cc_hook() == self.cc_hook(),
            config.bindgen_hook() == bindgen_builder_hook,
            config.glob_hook() == self.glob_hook(),
    {
        proof {
            use_type_invariant(&self);
        }
        Config {
            out_dir: self.out_dir,
            input_files: self.input_files,
            lib_name: self.lib_name,
            cc_exts: self.cc_exts,
            bindgen_exts: self.bindgen_exts,
            binding_ext: self.binding_ext,
            cc_build_hook: self.cc_build_hook,
            bindgen_builder_hook,
            glob_matchoptions_hook: self.glob_matchoptions_hook,
        }
    }

    /// Adds a hook that configures a binding generation.  The hook of the
    /// result runs the hook that was there, then runs the new one on what
    /// that returned.
    pub fn add_bindgen_builder_hook<F: Fn(Builder) -> Builder>(
        self,
        bindgen_builder_hook: F,
    ) -> (config: Config<'a, C, impl Fn(Builder) -> Builder, G>) where B: Fn(Builder) -> Builder
        ensures
            config@ == self@,
            config@.wf(),
            config.cc_hook() == self.cc_hook(),
            forall|input: Builder|
                chain_accepts(self.bindgen_hook(), bindgen_builder_hook, input) ==> #[trigger] call_requires(
                    config.bindgen_hook(),
                    (input,),
                ),
            forall|input: Builder, output: Builder|
                #[trigger] call_ensures(config.bindgen_hook(), (input,), output) ==> chain_yields(
                    self.bindgen_hook(),
                    bindgen_builder_hook,
                    input,
                    output,
                ),
            config.glob_hook() == self.glob_hook(),
    {
        proof {
            use_type_invariant(&self);
        }
        Config {
            out_dir: self.out_dir,
            input_files: self.input_files,
            lib_name: self.lib_name,
            cc_exts: self.cc_exts,
            bindgen_exts: self.bindgen_exts,
            binding_ext: self.binding_ext,
            cc_build_hook: self.cc_build_hook,
            bindgen_builder_hook: compose_repeatable(self.bindgen_builder_hook, bindgen_builder_hook),
            glob_matchoptions_hook: self.glob_matchoptions_hook,
        }
    }

    /// Sets the hook that configures the options of the glob matching.  It
    /// runs once in a build.  The hook set or added before is dropped.
    pub fn glob_matchoptions_hook<F: FnOnce(MatchOptions) -> MatchOptions>(
        self,
        glob_matchoptions_hook: F,
    ) -> (config: Config<'a, C, B, F>)
        ensures
            config@ == self@,
            config@.wf(),
            config.cc_hook() == self.cc_hook(),
            config.bindgen_hook() == self.bindgen_hook(),
            config.glob_hook() == glob_matchoptions_hook,
    {
        proof {
            use_type_invariant(&self);
        }
        Config {
            out_dir: self.out_dir,
            input_files: self.input_files,
            lib_name: self.lib_name,
            cc_exts: self.cc_exts,
            bindgen_exts: self.bindgen_exts,
            binding_ext: self.binding_ext,
            cc_build_hook: self.cc_build_hook,
            bindgen_builder_hook: self.bindgen_builder_hook,
            glob_matchoptions_hook,
        }
    }

    /// Adds a hook that configures the options of the glob matching.  The
    /// hook of the result runs the hook that was there, then runs the new
    /// one on what that returned.
    pub fn add_glob_matchoptions_hook<F: FnOnce(MatchOptions) -> MatchOptions>(
        self,
        glob_matchoptions_hook: F,
    ) -> (config: Config<'a, C, B, impl FnOnce(MatchOptions) -> MatchOptions>) where
        G: FnOnce(MatchOptions) -> MatchOptions,

        ensures
            config@ == self@,
            config@.wf(),
            config.cc_hook() == self.cc_hook(),
            config.bindgen_hook() == self.bindgen_hook(),
            forall|input: MatchOptions|
                chain_accepts(self.glob_hook(), glob_matchoptions_hook, input) ==> #[trigger] call_requires(
                    config.glob_hook(),
                    (input,),
                ),
            forall|input: MatchOptions, output: MatchOptions|
                #[trigger] call_ensures(config.glob_hook(), (input,), output) ==> chain_yields(
                    self.glob_hook(),
                    glob_matchoptions_hook,
                    input,
                    output,
                ),
    {
        proof {
            use_type_invariant(&self);
        }
        Config {
            out_dir: self.out_dir,
            input_files: self.input_files,
            lib_name: self.lib_name,
            cc_exts: self.cc_exts,
            bindgen_exts: self.bindgen_exts,
            binding_ext: self.binding_ext,
            cc_build_hook: self.cc_build_hook,
            bindgen_builder_hook: self.bindgen_builder_hook,
            glob_matchoptions_hook: compose(self.glob_matchoptions_hook, glob_matchoptions_hook),
        }
    }
}

/// Copies a list of extensions into a vector of strings.
fn owned_exts<const N: usize>(exts: &[&'static str; N]) -> (owned: Vec<String>)
    ensures
        owned.deep_view() == exts.deep_view(),
{
    let mut owned: Vec<String> = Vec::new();
    let mut index: usize = 0;
    while index < N
        invariant
            index <= N,
            owned.len() == index,
            forall|i: int| 0 <= i < index ==> owned[i]@ == exts[i]@,
        decreases N - index,
    {
        owned.push(exts[index].to_owned());
        index += 1;
    }
    assert(owned.deep_view() =~= exts.deep_view());
    owned
}

impl<'a> Config<'a, (), (), ()> {
    /// The configuration with the default parameters: the current directory
    /// as the output directory, no input file, no library name, the default
    /// extensions, and hooks that return their handle as it is.
    pub fn default() -> (config: Config<
        'a,
        impl FnOnce(Build) -> Build,
        impl Fn(Builder) -> Builder,
        impl FnOnce(MatchOptions) -> MatchOptions,
    >)
        ensures
            config@ == ConfigView::initial("."@),
            config@.wf(),
            reflects(config.cc_hook()),
            reflects(config.bindgen_hook()),
            reflects(config.glob_hook()),
    {
        Config::with_out_dir(None)
    }

    /// The configuration with the default parameters and the output
    /// directory that the host build pipeline names: `out_dir` is the value
    /// of the environment variable [`ENV_KEY_OUT_DIR`], if it is defined.
    /// The output directory is the current directory where it is not.
    pub fn with_out_dir(out_dir: Option<&str>) -> (config: Config<
        'a,
        impl FnOnce(Build) -> Build,
        impl Fn(Builder) -> Builder,
        impl FnOnce(MatchOptions) -> MatchOptions,
    >)
        ensures
            config@ == ConfigView::initial(
                match out_dir {
                    Some(named) => named@,
                    None => "."@,
                },
            ),
            config@.wf(),
            reflects(config.cc_hook()),
            reflects(config.bindgen_hook()),
            reflects(config.glob_hook()),
    {
        let out_dir = match out_dir {
            Some(named) => named.to_owned(),
            None => ".".to_owned(),
        };
        let cc_exts = owned_exts(&SOURCE_EXTS);
        let bindgen_exts = owned_exts(&HEADER_EXTS);
        let input_files: Vec<&'a str> = Vec::new();
        proof {
            lemma_default_exts_distinct();
            assert(SOURCE_EXTS.deep_view() =~= default_source_exts());
            assert(HEADER_EXTS.deep_view() =~= default_header_exts());
            assert(input_files.deep_view() =~= Seq::empty());
        }
        Config {
            out_dir,
            input_files,
            lib_name: None,
            cc_exts,
            bindgen_exts,
            binding_ext: RUST_FFI_BINDING_EXT,
            cc_build_hook: reflect_cc_build,
            bindgen_builder_hook: reflect_bindgen_builder,
            glob_matchoptions_hook: reflect_glob_matchoptions,
        }
    }
}

/// The parts of a [`Config`], handed to the run that is made from it.
pub(crate) struct Parts<'a, C, B, G> {
    pub out_dir: String,
    pub input_files: Vec<&'a str>,
    pub lib_name: Option<&'a str>,
    pub cc_exts: Vec<String>,
    pub bindgen_exts: Vec<String>,
    pub binding_ext: &'a str,
    pub cc_build_hook: C,
    pub bindgen_builder_hook: B,
    pub glob_matchoptions_hook: G,
}

impl<'a, C, B, G> Parts<'a, C, B, G> {
    /// What these parts hold, but for the hooks.
    pub(crate) open spec fn view(&self) -> ConfigView {
        ConfigView {
            out_dir: self.out_dir@,
            input_files: self.input_files.deep_view(),
            lib_name: self.lib_name.deep_view(),
            source_exts: self.cc_exts.deep_view(),
            header_exts: self.bindgen_exts.deep_view(),
            binding_ext: self.binding_ext@,
        }
    }
}

impl<'a, C, B, G> Config<'a, C, B, G> {
    /// Takes this configuration apart.
    pub(crate) fn into_parts(self) -> (parts: Parts<'a, C, B, G>)
        ensures
            parts@ == self@,
            parts@.wf(),
            parts.cc_build_hook == self.cc_hook(),
            parts.bindgen_builder_hook == self.bindgen_hook(),
            parts.glob_matchoptions_hook == self.glob_hook(),
    {
        proof {
            use_type_invariant(&self);
        }
        Parts {
            out_dir: self.out_dir,
            input_files: self.input_files,
            lib_name: self.lib_name,
            cc_exts: self.cc_exts,
            bindgen_exts: self.bindgen_exts,
            binding_ext: self.binding_ext,
            cc_build_hook: self.cc_build_hook,
            bindgen_builder_hook: self.bindgen_builder_hook,
            glob_matchoptions_hook: self.glob_matchoptions_hook,
        }
    }
}

} // verus!
