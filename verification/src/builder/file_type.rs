//! The types of the input files, and the lists of extensions that tell them
//! apart.
//!
//! The type of a file follows from its extension alone: what the file holds
//! is never read.

use crate::backend::lemma_push_text;
use vstd::prelude::*;

verus! {

/// The type of an input file.
#[derive(Clone, Debug, PartialEq, Eq)]
pub enum FileType {
    /// A source file for the compiler.
    Source,
    /// A header file for the binding generator.
    Header,
    /// A file with an extension that is not supported; the extension is
    /// empty where the file has none that is text.
    Unsupported(String),
}

/// What a [`FileType`] is, with text as a sequence of characters.
pub enum FileTypeView {
    Source,
    Header,
    Unsupported(Seq<char>),
}

impl DeepView for FileType {
    type V = FileTypeView;

    open spec fn deep_view(&self) -> FileTypeView {
        match self {
            FileType::Source => FileTypeView::Source,
            FileType::Header => FileTypeView::Header,
            FileType::Unsupported(extension) => FileTypeView::Unsupported(extension@),
        }
    }
}

impl FileTypeView {
    /// The text of this type.
    pub open spec fn text(self) -> Seq<char> {
        match self {
            FileTypeView::Source => "FileType: Source"@,
            FileTypeView::Header => "FileType: Header"@,
            FileTypeView::Unsupported(extension) => "FileType: Unsupported("@ + extension + ")"@,
        }
    }
}

impl FileType {
    /// The text of this type: its name, and for an unsupported file the
    /// extension in round brackets.
    pub fn to_string(&self) -> (text: String)
        ensures
            text@ == self.deep_view().text(),
    {
        match self {
            FileType::Source => String::from_str("FileType: Source"),
            FileType::Header => String::from_str("FileType: Header"),
            FileType::Unsupported(extension) => String::from_str("FileType: Unsupported(").concat(
                extension.as_str(),
            ).concat(")"),
        }
    }
}

/// The type of a file with the given extension, if it has one that is text:
/// a source file where the extension is among `source_exts`, else a header
/// file where it is among `header_exts`, else unsupported.
pub open spec fn file_type(
    source_exts: Seq<Seq<char>>,
    header_exts: Seq<Seq<char>>,
    extension: Option<Seq<char>>,
) -> FileTypeView {
    match extension {
        Some(extension) => if source_exts.contains(extension) {
            FileTypeView::Source
        } else if header_exts.contains(extension) {
            FileTypeView::Header
        } else {
            FileTypeView::Unsupported(extension)
        },
        None => FileTypeView::Unsupported(Seq::empty()),
    }
}

/// `exts` after `extension` was added: unchanged where it is there already.
pub open spec fn ext_added(exts: Seq<Seq<char>>, extension: Seq<char>) -> Seq<Seq<char>> {
    if exts.contains(extension) {
        exts
    } else {
        exts.push(extension)
    }
}

/// `exts` after `extension` was deleted: unchanged where it is not there.
pub open spec fn ext_deleted(exts: Seq<Seq<char>>, extension: Seq<char>) -> Seq<Seq<char>> {
    exts.remove_value(extension)
}

/// Finds the first place at which `texts` holds `text`.
pub fn position(texts: &Vec<String>, text: &str) -> (place: Option<usize>)
    ensures
        match place {
            Some(index) => {
                &&& index < texts.len()
                &&& texts[index as int]@ == text@
                &&& forall|i: int| 0 <= i < index ==> texts[i]@ != text@
            },
            None => !texts.deep_view().contains(text@),
        },
        place.is_some() == texts.deep_view().contains(text@),
{
    let wanted = text.to_owned();
    let mut index: usize = 0;
    while index < texts.len()
        invariant
            index <= texts.len(),
            wanted@ == text@,
            forall|i: int| 0 <= i < index ==> texts[i]@ != text@,
        decreases texts.len() - index,
    {
        if texts[index] == wanted {
            assert(texts.deep_view()[index as int] == text@);
            return Some(index);
        }
        index += 1;
    }
    None
}

/// Tells the type of a file from its extension.
pub fn classify(source_exts: &Vec<String>, header_exts: &Vec<String>, extension: Option<&str>) -> (kind:
    FileType)
    ensures
        kind.deep_view() == file_type(
            source_exts.deep_view(),
            header_exts.deep_view(),
            extension.deep_view(),
        ),
{
    match extension {
        Some(extension) => {
            if position(source_exts, extension).is_some() {
                FileType::Source
            } else if position(header_exts, extension).is_some() {
                FileType::Header
            } else {
                FileType::Unsupported(extension.to_owned())
            }
        },
        None => FileType::Unsupported(String::new()),
    }
}

/// Adding an extension keeps a list free of duplicates, and the extension
/// is in it afterwards.
pub proof fn lemma_ext_added(exts: Seq<Seq<char>>, extension: Seq<char>)
    requires
        exts.no_duplicates(),
    ensures
        ext_added(exts, extension).no_duplicates(),
        ext_added(exts, extension).contains(extension),
{
    if !exts.contains(extension) {
        let added = exts.push(extension);
        assert(added[exts.len() as int] == extension);
        assert forall|i: int, j: int|
            0 <= i < added.len() && 0 <= j < added.len() && i != j implies added[i]
            != added[j] by {
            if i < exts.len() && j < exts.len() {
                assert(exts[i] != exts[j]);
            } else if i < exts.len() {
                assert(exts.contains(exts[i]));
            } else {
                assert(exts.contains(exts[j]));
            }
        }
    }
}

/// Deleting an extension from a list free of duplicates keeps it free of
/// duplicates, and the extension is not in it afterwards.
pub proof fn lemma_ext_deleted(exts: Seq<Seq<char>>, extension: Seq<char>)
    requires
        exts.no_duplicates(),
    ensures
        ext_deleted(exts, extension).no_duplicates(),
        !ext_deleted(exts, extension).contains(extension),
{
    exts.index_of_first_ensures(extension);
    match exts.index_of_first(extension) {
        Some(index) => {
            let deleted = exts.remove(index);
            exts.remove_ensures(index);
            assert forall|i: int, j: int|
                0 <= i < deleted.len() && 0 <= j < deleted.len() && i != j implies deleted[i]
                != deleted[j] by {
                let from_i = if i < index { i } else { i + 1 };
                let from_j = if j < index { j } else { j + 1 };
                assert(deleted[i] == exts[from_i]);
                assert(deleted[j] == exts[from_j]);
            }
            assert forall|i: int| 0 <= i < deleted.len() implies deleted[i] != extension by {
                let from_i = if i < index { i } else { i + 1 };
                assert(deleted[i] == exts[from_i]);
                assert(exts[from_i] != exts[index]);
            }
        },
        None => {},
    }
}

/// Removing the first occurrence of an extension is deleting it.
proof fn lemma_removed_first(exts: Seq<Seq<char>>, extension: Seq<char>, index: int)
    requires
        0 <= index < exts.len(),
        exts[index] == extension,
        forall|i: int| 0 <= i < index ==> exts[i] != extension,
    ensures
        exts.remove(index) == ext_deleted(exts, extension),
{
    exts.index_of_first_ensures(extension);
    assert(exts.contains(extension));
}

/// Removing from a vector of strings removes from what it holds.
proof fn lemma_remove_text(before: Seq<String>, index: int)
    requires
        0 <= index < before.len(),
    ensures
        Seq::new(before.remove(index).len(), |i: int| before.remove(index)[i].deep_view())
            == Seq::new(before.len(), |i: int| before[i].deep_view()).remove(index),
{
    before.remove_ensures(index);
    let texts = Seq::new(before.len(), |i: int| before[i].deep_view());
    texts.remove_ensures(index);
    assert(Seq::new(before.remove(index).len(), |i: int| before.remove(index)[i].deep_view())
        =~= texts.remove(index));
}

/// Adds `extension` to `exts` unless it is there already.
pub(crate) fn add_ext(exts: &mut Vec<String>, extension: &str)
    requires
        old(exts).deep_view().no_duplicates(),
    ensures
        final(exts).deep_view() == ext_added(old(exts).deep_view(), extension@),
        final(exts).deep_view().no_duplicates(),
{
    proof {
        lemma_ext_added(exts.deep_view(), extension@);
    }
    if position(exts, extension).is_none() {
        let ghost before = exts@;
        let owned = extension.to_owned();
        exts.push(owned);
        proof {
            lemma_push_text(before, exts@, owned);
        }
    }
}

/// Deletes `extension` from `exts` if it is there.
pub(crate) fn delete_ext(exts: &mut Vec<String>, extension: &str)
    requires
        old(exts).deep_view().no_duplicates(),
    ensures
        final(exts).deep_view() == ext_deleted(old(exts).deep_view(), extension@),
        final(exts).deep_view().no_duplicates(),
{
    proof {
        lemma_ext_deleted(exts.deep_view(), extension@);
    }
    match position(exts, extension) {
        Some(index) => {
            let ghost before = exts@;
            let ghost texts = exts.deep_view();
            exts.remove(index);
            proof {
                lemma_remove_text(before, index as int);
                lemma_removed_first(texts, extension@, index as int);
            }
        },
        None => {
            proof {
                exts.deep_view().index_of_first_ensures(extension@);
            }
        },
    }
}

} // verus!
