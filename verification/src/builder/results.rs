//! What a build reports when it succeeds.

use vstd::prelude::*;
use vstd::std_specs::convert::FromSpecImpl;

verus! {

/// The pair of an input header file and the binding file generated from it.
#[derive(Clone, Debug, PartialEq, Eq)]
pub struct HeaderBinding {
    /// The input header file.
    pub input_header_file: String,
    /// The binding file.
    pub rust_binding_file: String,
}

/// What a [`HeaderBinding`] holds.
pub struct HeaderBindingView {
    pub input_header_file: Seq<char>,
    pub rust_binding_file: Seq<char>,
}

impl DeepView for HeaderBinding {
    type V = HeaderBindingView;

    open spec fn deep_view(&self) -> HeaderBindingView {
        HeaderBindingView {
            input_header_file: self.input_header_file@,
            rust_binding_file: self.rust_binding_file@,
        }
    }
}

impl View for HeaderBinding {
    type V = HeaderBindingView;

    open spec fn view(&self) -> HeaderBindingView {
        self.deep_view()
    }
}

impl From<(String, String)> for HeaderBinding {
    /// Pairs an input header file with its binding file.
    fn from(paths: (String, String)) -> (binding: HeaderBinding) {
        HeaderBinding { input_header_file: paths.0, rust_binding_file: paths.1 }
    }
}

impl FromSpecImpl<(String, String)> for HeaderBinding {
    open spec fn obeys_from_spec() -> bool {
        true
    }

    open spec fn from_spec(paths: (String, String)) -> HeaderBinding {
        HeaderBinding { input_header_file: paths.0, rust_binding_file: paths.1 }
    }
}

impl HeaderBindingView {
    /// The text of this pair.
    pub open spec fn text(self) -> Seq<char> {
        "("@ + self.input_header_file + " -> "@ + self.rust_binding_file + ")"@
    }
}

impl HeaderBinding {
    /// The text of this pair: the header file, an arrow and the binding
    /// file, in round brackets.
    pub fn to_string(&self) -> (text: String)
        ensures
            text@ == self@.text(),
    {
        let mut text = String::from_str("(");
        text.append(self.input_header_file.as_str());
        text.append(" -> ");
        text.append(self.rust_binding_file.as_str());
        text.append(")");
        text
    }
}

/// The build results.
#[derive(Clone, Debug, PartialEq, Eq)]
pub struct BuildResults {
    /// The output directory.
    pub out_dir: String,
    /// The library name, if a library was built.
    pub lib_name: Option<String>,
    /// The source files that were compiled, in the order of their discovery.
    pub source_files: Vec<String>,
    /// The header files with their binding files, in the order of their
    /// discovery.
    pub header_bindings: Vec<HeaderBinding>,
}

/// What a [`BuildResults`] holds.
pub struct BuildResultsView {
    pub out_dir: Seq<char>,
    pub lib_name: Option<Seq<char>>,
    pub source_files: Seq<Seq<char>>,
    pub header_bindings: Seq<HeaderBindingView>,
}

impl View for BuildResults {
    type V = BuildResultsView;

    open spec fn view(&self) -> BuildResultsView {
        BuildResultsView {
            out_dir: self.out_dir@,
            lib_name: self.lib_name.deep_view(),
            source_files: self.source_files.deep_view(),
            header_bindings: self.header_bindings.deep_view(),
        }
    }
}

/// The items one after another.  A comma and a blank follow the first item
/// and no other.
pub open spec fn list_body(items: Seq<Seq<char>>) -> Seq<char>
    decreases items.len(),
{
    if items.len() == 0 {
        Seq::empty()
    } else if items.len() == 1 {
        items[0] + ", "@
    } else {
        list_body(items.drop_last()) + items.last()
    }
}

/// The items as a list in square brackets.
pub open spec fn list_text(items: Seq<Seq<char>>) -> Seq<char> {
    "["@ + list_body(items) + "]"@
}

/// Writes the strings as a list in square brackets.  A comma and a blank
/// follow the first item and no other.
pub fn str_iter_to_string(items: &Vec<String>) -> (text: String)
    ensures
        text@ == list_text(items.deep_view()),
{
    let mut text = String::new();
    text.append("[");
    let mut first = true;
    let mut index: usize = 0;
    assert(items.deep_view().take(0) =~= Seq::empty());
    assert(text@ =~= "["@ + list_body(items.deep_view().take(0)));
    while index < items.len()
        invariant
            index <= items.len(),
            first == (index == 0),
            text@ == "["@ + list_body(items.deep_view().take(index as int)),
        decreases items.len() - index,
    {
        let ghost before = items.deep_view().take(index as int);
        let ghost after = items.deep_view().take(index + 1);
        assert(after.drop_last() =~= before);
        assert(after.last() == items[index as int]@);
        text.append(items[index].as_str());
        if first {
            text.append(", ");
            first = false;
        }
        assert(text@ =~= "["@ + list_body(after));
        index += 1;
    }
    assert(items.deep_view().take(index as int) =~= items.deep_view());
    text.append("]");
    text
}

impl BuildResultsView {
    /// The texts of the pairs of header file and binding file.
    pub open spec fn binding_texts(self) -> Seq<Seq<char>> {
        Seq::new(self.header_bindings.len(), |i: int| self.header_bindings[i].text())
    }

    /// The library name as it is shown: the word `None` where there is
    /// none.
    pub open spec fn shown_lib_name(self) -> Seq<char> {
        match self.lib_name {
            Some(name) => name,
            None => "None"@,
        }
    }

    /// The text of these results.
    pub open spec fn text(self) -> Seq<char> {
        "(out_dir: "@ + self.out_dir + ", lib_name: "@ + self.shown_lib_name()
            + ", source_files: "@ + list_text(self.source_files) + ", header_bindings: "@
            + list_text(self.binding_texts()) + ")"@
    }
}

impl BuildResults {
    /// The results of a build in which nothing was built yet: the current
    /// directory as the output directory, no library, no file.
    pub fn new() -> (results: BuildResults)
        ensures
            results@ == (BuildResultsView {
                out_dir: "."@,
                lib_name: None,
                source_files: Seq::empty(),
                header_bindings: Seq::empty(),
            }),
    {
        let results = BuildResults {
            out_dir: String::from_str("."),
            lib_name: None,
            source_files: Vec::new(),
            header_bindings: Vec::new(),
        };
        assert(results.source_files.deep_view() =~= Seq::empty());
        assert(results.header_bindings.deep_view() =~= Seq::empty());
        results
    }

    /// The text of these results: the output directory, the library name,
    /// the source files and the pairs of header file and binding file.
    pub fn to_string(&self) -> (text: String)
        ensures
            text@ == self@.text(),
    {
        let mut bindings: Vec<String> = Vec::new();
        let mut index: usize = 0;
        while index < self.header_bindings.len()
            invariant
                index <= self.header_bindings.len(),
                bindings.len() == index,
                forall|i: int| 0 <= i < index ==> bindings[i]@ == self.header_bindings[i]@.text(),
            decreases self.header_bindings.len() - index,
        {
            bindings.push(self.header_bindings[index].to_string());
            index += 1;
        }
        assert(bindings.deep_view() =~= self@.binding_texts());
        let mut text = String::from_str("(out_dir: ");
        text.append(self.out_dir.as_str());
        text.append(", lib_name: ");
        match &self.lib_name {
            Some(name) => text.append(name.as_str()),
            None => text.append("None"),
        }
        text.append(", source_files: ");
        text.append(str_iter_to_string(&self.source_files).as_str());
        text.append(", header_bindings: ");
        text.append(str_iter_to_string(&bindings).as_str());
        text.append(")");
        text
    }
}

} // verus!
