//! The handles that the hooks configure.
//!
//! The compiler driver, the binding generator and the glob engine do their
//! work outside this library.  What the build decides about them is held
//! here as plain data: a handle records, in order, every setting that was
//! applied to it, so that whoever runs the backend can replay the settings
//! one by one.

use vstd::prelude::*;

verus! {

/// One setting applied to a compilation.
#[derive(Clone, Debug, PartialEq, Eq)]
pub enum BuildSetting {
    /// Switch the standard warnings on or off.
    Warnings(bool),
    /// Switch the extra warnings on or off.
    ExtraWarnings(bool),
    /// Treat warnings as errors, or do not.
    WarningsIntoErrors(bool),
    /// The language standard to compile for.
    Std(String),
}

/// What a [`BuildSetting`] is, with text as sequences of characters.
pub enum BuildSettingView {
    Warnings(bool),
    ExtraWarnings(bool),
    WarningsIntoErrors(bool),
    Std(Seq<char>),
}

impl DeepView for BuildSetting {
    type V = BuildSettingView;

    open spec fn deep_view(&self) -> BuildSettingView {
        match self {
            BuildSetting::Warnings(on) => BuildSettingView::Warnings(*on),
            BuildSetting::ExtraWarnings(on) => BuildSettingView::ExtraWarnings(*on),
            BuildSetting::WarningsIntoErrors(on) => BuildSettingView::WarningsIntoErrors(*on),
            BuildSetting::Std(standard) => BuildSettingView::Std(standard@),
        }
    }
}

/// The configuration of one compilation of all source files into a library.
#[derive(Clone, Debug, PartialEq, Eq)]
pub struct Build {
    /// The directory that receives the objects and the library, if set.
    pub out_dir: Option<String>,
    /// The source files, in the order of their registration.
    pub files: Vec<String>,
    /// The settings, in the order of their application.
    pub settings: Vec<BuildSetting>,
}

/// What a [`Build`] holds.
pub struct BuildView {
    pub out_dir: Option<Seq<char>>,
    pub files: Seq<Seq<char>>,
    pub settings: Seq<BuildSettingView>,
}

impl View for Build {
    type V = BuildView;

    open spec fn view(&self) -> BuildView {
        BuildView {
            out_dir: self.out_dir.deep_view(),
            files: self.files.deep_view(),
            settings: self.settings.deep_view(),
        }
    }
}

impl BuildView {
    /// The handle of a compilation that nothing was applied to.
    pub open spec fn empty() -> BuildView {
        BuildView { out_dir: None, files: Seq::empty(), settings: Seq::empty() }
    }

    /// This handle after one more setting.
    pub open spec fn with(self, setting: BuildSettingView) -> BuildView {
        BuildView { settings: self.settings.push(setting), ..self }
    }

    /// This handle with its output directory replaced.
    pub open spec fn at(self, out_dir: Seq<char>) -> BuildView {
        BuildView { out_dir: Some(out_dir), ..self }
    }

    /// This handle after the registration of one more source file.
    pub open spec fn with_file(self, file: Seq<char>) -> BuildView {
        BuildView { files: self.files.push(file), ..self }
    }

    /// This handle after the registration of some more source files.
    pub open spec fn with_files(self, files: Seq<Seq<char>>) -> BuildView {
        BuildView { files: self.files + files, ..self }
    }
}

/// Pushing onto a vector of strings pushes onto what it holds.
pub(crate) proof fn lemma_push_text(before: Seq<String>, after: Seq<String>, text: String)
    requires
        after == before.push(text),
    ensures
        after.len() == before.len() + 1,
        Seq::new(after.len(), |i: int| after[i].deep_view()) == Seq::new(
            before.len(),
            |i: int| before[i].deep_view(),
        ).push(text@),
{
    assert(Seq::new(after.len(), |i: int| after[i].deep_view()) =~= Seq::new(
        before.len(),
        |i: int| before[i].deep_view(),
    ).push(text@));
}

impl Default for Build {
    fn default() -> (build: Build)
        ensures
            build@ == BuildView::empty(),
    {
        let build = Build { out_dir: None, files: Vec::new(), settings: Vec::new() };
        assert(build.files.deep_view() =~= Seq::empty());
        assert(build.settings.deep_view() =~= Seq::empty());
        build
    }
}

impl Build {
    /// Sets the directory that receives the objects and the library.
    pub fn out_dir(self, out_dir: &str) -> (build: Build)
        ensures
            build@ == self@.at(out_dir@),
    {
        Build { out_dir: Some(out_dir.to_owned()), files: self.files, settings: self.settings }
    }

    /// Registers one more source file.
    pub fn file(self, file: &str) -> (build: Build)
        ensures
            build@ == self@.with_file(file@),
    {
        let mut files = self.files;
        let owned = file.to_owned();
        files.push(owned);
        proof {
            lemma_push_text(self.files@, files@, owned);
        }
        Build { out_dir: self.out_dir, files, settings: self.settings }
    }

    /// Applies one more setting.
    pub fn setting(self, setting: BuildSetting) -> (build: Build)
        ensures
            build@ == self@.with(setting.deep_view()),
    {
        let mut settings = self.settings;
        settings.push(setting);
        assert(settings.deep_view() =~= self.settings.deep_view().push(setting.deep_view()));
        Build { out_dir: self.out_dir, files: self.files, settings }
    }

    /// Switches the standard warnings on or off.
    pub fn warnings(self, on: bool) -> (build: Build)
        ensures
            build@ == self@.with(BuildSettingView::Warnings(on)),
    {
        self.setting(BuildSetting::Warnings(on))
    }

    /// Switches the extra warnings on or off.
    pub fn extra_warnings(self, on: bool) -> (build: Build)
        ensures
            build@ == self@.with(BuildSettingView::ExtraWarnings(on)),
    {
        self.setting(BuildSetting::ExtraWarnings(on))
    }

    /// Treats warnings as errors, or stops doing so.
    pub fn warnings_into_errors(self, on: bool) -> (build: Build)
        ensures
            build@ == self@.with(BuildSettingView::WarningsIntoErrors(on)),
    {
        self.setting(BuildSetting::WarningsIntoErrors(on))
    }

    /// Sets the language standard to compile for.
    pub fn standard(self, standard: &str) -> (build: Build)
        ensures
            build@ == self@.with(BuildSettingView::Std(standard@)),
    {
        self.setting(BuildSetting::Std(standard.to_owned()))
    }
}

/// An extension object that the binding generator calls while it parses.
#[derive(Clone, Copy, Debug, PartialEq, Eq, Structural)]
pub enum ParseCallbacks {
    /// Reports every header that the parser includes to the host build
    /// pipeline, as a file whose change asks for a new build.
    Cargo,
}

/// One setting applied to a binding generation.
#[derive(Clone, Debug, PartialEq, Eq)]
pub enum BuilderSetting {
    /// Generate the block declarations, or do not.
    GenerateBlock(bool),
    /// Carry the comments of the header over, or do not.
    GenerateComments(bool),
    /// Render the enumeration of this name as a new type over its integer.
    NewtypeEnum(String),
}

/// What a [`BuilderSetting`] is, with text as sequences of characters.
pub enum BuilderSettingView {
    GenerateBlock(bool),
    GenerateComments(bool),
    NewtypeEnum(Seq<char>),
}

impl DeepView for BuilderSetting {
    type V = BuilderSettingView;

    open spec fn deep_view(&self) -> BuilderSettingView {
        match self {
            BuilderSetting::GenerateBlock(on) => BuilderSettingView::GenerateBlock(*on),
            BuilderSetting::GenerateComments(on) => BuilderSettingView::GenerateComments(*on),
            BuilderSetting::NewtypeEnum(name) => BuilderSettingView::NewtypeEnum(name@),
        }
    }
}

/// The configuration of the binding generation for one header.
#[derive(Clone, Debug, PartialEq, Eq)]
pub struct Builder {
    /// The input headers, in the order of their registration.
    pub headers: Vec<String>,
    /// The parse callbacks, in the order of their registration.
    pub parse_callbacks: Vec<ParseCallbacks>,
    /// The settings, in the order of their application.
    pub settings: Vec<BuilderSetting>,
}

/// What a [`Builder`] holds.
pub struct BuilderView {
    pub headers: Seq<Seq<char>>,
    pub parse_callbacks: Seq<ParseCallbacks>,
    pub settings: Seq<BuilderSettingView>,
}

impl View for Builder {
    type V = BuilderView;

    open spec fn view(&self) -> BuilderView {
        BuilderView {
            headers: self.headers.deep_view(),
            parse_callbacks: self.parse_callbacks@,
            settings: self.settings.deep_view(),
        }
    }
}

impl BuilderView {
    /// The handle of a binding generation that nothing was applied to.
    pub open spec fn empty() -> BuilderView {
        BuilderView { headers: Seq::empty(), parse_callbacks: Seq::empty(), settings: Seq::empty() }
    }

    /// This handle after the registration of one more header.
    pub open spec fn with_header(self, header: Seq<char>) -> BuilderView {
        BuilderView { headers: self.headers.push(header), ..self }
    }

    /// This handle after the registration of one more parse callback.
    pub open spec fn with_callbacks(self, callbacks: ParseCallbacks) -> BuilderView {
        BuilderView { parse_callbacks: self.parse_callbacks.push(callbacks), ..self }
    }

    /// This handle after one more setting.
    pub open spec fn with(self, setting: BuilderSettingView) -> BuilderView {
        BuilderView { settings: self.settings.push(setting), ..self }
    }

    /// The handle that the build seeds for `header`, before any hook runs.
    pub open spec fn seeded(header: Seq<char>) -> BuilderView {
        BuilderView::empty().with_header(header).with_callbacks(ParseCallbacks::Cargo)
    }
}

impl Default for Builder {
    fn default() -> (builder: Builder)
        ensures
            builder@ == BuilderView::empty(),
    {
        let builder = Builder {
            headers: Vec::new(),
            parse_callbacks: Vec::new(),
            settings: Vec::new(),
        };
        assert(builder.headers.deep_view() =~= Seq::empty());
        assert(builder.settings.deep_view() =~= Seq::empty());
        builder
    }
}

impl Builder {
    /// Registers one more input header.
    pub fn header(self, header: &str) -> (builder: Builder)
        ensures
            builder@ == self@.with_header(header@),
    {
        let mut headers = self.headers;
        let owned = header.to_owned();
        headers.push(owned);
        proof {
            lemma_push_text(self.headers@, headers@, owned);
        }
        Builder { headers, parse_callbacks: self.parse_callbacks, settings: self.settings }
    }

    /// Registers one more parse callback.
    pub fn parse_callbacks(self, callbacks: ParseCallbacks) -> (builder: Builder)
        ensures
            builder@ == self@.with_callbacks(callbacks),
    {
        let mut parse_callbacks = self.parse_callbacks;
        parse_callbacks.push(callbacks);
        Builder { headers: self.headers, parse_callbacks, settings: self.settings }
    }

    /// Applies one more setting.
    pub fn setting(self, setting: BuilderSetting) -> (builder: Builder)
        ensures
            builder@ == self@.with(setting.deep_view()),
    {
        let mut settings = self.settings;
        settings.push(setting);
        assert(settings.deep_view() =~= self.settings.deep_view().push(setting.deep_view()));
        Builder { headers: self.headers, parse_callbacks: self.parse_callbacks, settings }
    }

    /// Generates the block declarations, or stops doing so.
    pub fn generate_block(self, on: bool) -> (builder: Builder)
        ensures
            builder@ == self@.with(BuilderSettingView::GenerateBlock(on)),
    {
        self.setting(BuilderSetting::GenerateBlock(on))
    }

    /// Carries the comments of the header over, or stops doing so.
    pub fn generate_comments(self, on: bool) -> (builder: Builder)
        ensures
            builder@ == self@.with(BuilderSettingView::GenerateComments(on)),
    {
        self.setting(BuilderSetting::GenerateComments(on))
    }

    /// Renders the enumeration called `name` as a new type over its integer.
    pub fn newtype_enum(self, name: &str) -> (builder: Builder)
        ensures
            builder@ == self@.with(BuilderSettingView::NewtypeEnum(name@)),
    {
        self.setting(BuilderSetting::NewtypeEnum(name.to_owned()))
    }
}

/// How a glob pattern is matched against the paths.
#[derive(Clone, Copy, Debug, PartialEq, Eq, Structural)]
pub struct MatchOptions {
    /// Whether upper and lower case differ.
    pub case_sensitive: bool,
    /// Whether a path separator must be matched by a literal separator.
    pub require_literal_separator: bool,
    /// Whether a leading dot of a path component must be matched by a
    /// literal dot.
    pub require_literal_leading_dot: bool,
}

impl MatchOptions {
    /// The options that the glob engine starts from.
    pub open spec fn initial() -> MatchOptions {
        MatchOptions {
            case_sensitive: true,
            require_literal_separator: false,
            require_literal_leading_dot: false,
        }
    }

    /// The options that the glob engine starts from.
    pub fn new() -> (options: MatchOptions)
        ensures
            options == MatchOptions::initial(),
    {
        engine_defaults()
    }
}

/// The options that the glob engine itself starts from.
///
/// Calls `glob::MatchOptions::new` and copies its three fields.  The contract
/// claims the values that the glob engine documents for them: matching is
/// case sensitive, and neither a separator nor a leading dot has to be
/// matched literally.
#[verifier::external_body]
fn engine_defaults() -> (options: MatchOptions)
    ensures
        options == MatchOptions::initial(),
{
    let options = glob::MatchOptions::new();
    MatchOptions {
        case_sensitive: options.case_sensitive,
        require_literal_separator: options.require_literal_separator,
        require_literal_leading_dot: options.require_literal_leading_dot,
    }
}

} // verus!
