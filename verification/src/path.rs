//! Paths as text, and what the standard library computes from them.
//!
//! The library holds every path as a string.  It never looks at the file
//! system: the functions here only take a path apart and put one together.

use std::path::Path;
use vstd::prelude::*;

verus! {

/// The extension of the file name of `path`, where it has one.
pub uninterp spec fn path_extension(path: Seq<char>) -> Option<Seq<char>>;

/// The last component of `path`, where it names a file or a directory.
pub uninterp spec fn path_file_name(path: Seq<char>) -> Option<Seq<char>>;

/// `base` with `name` adjoined as a further component.
pub uninterp spec fn path_join(base: Seq<char>, name: Seq<char>) -> Seq<char>;

/// `path` with the extension of its file name set to `extension`.
pub uninterp spec fn path_with_extension(path: Seq<char>, extension: Seq<char>) -> Seq<char>;

/// Whether `c` separates the components of a path.
pub uninterp spec fn path_separator(c: char) -> bool;

/// Whether `extension` is free of path separators.
pub open spec fn plain_extension(extension: Seq<char>) -> bool {
    forall|i: int| 0 <= i < extension.len() ==> !path_separator(#[trigger] extension[i])
}

/// The path of the binding file for `header`: the file name of `header`
/// inside `out_dir`, with its extension replaced by `extension`.  There is
/// none where `extension` holds a path separator or `header` has no file
/// name.
pub open spec fn binding_path(
    out_dir: Seq<char>,
    header: Seq<char>,
    extension: Seq<char>,
) -> Option<Seq<char>> {
    if !plain_extension(extension) {
        None
    } else {
        match path_file_name(header) {
            Some(name) => Some(path_with_extension(path_join(out_dir, name), extension)),
            None => None,
        }
    }
}

/// The extension of `path`, by `std::path::Path::extension`.
///
/// The contract names the result, which depends on the text of `path`
/// alone.
#[verifier::external_body]
pub(crate) fn extension_of(path: &str) -> (extension: Option<String>)
    ensures
        extension.deep_view() == path_extension(path@),
{
    match Path::new(path).extension() {
        Some(extension) => Some(extension.to_string_lossy().into_owned()),
        None => None,
    }
}

/// The file name of `path`, by `std::path::Path::file_name`.
///
/// The contract names the result, which depends on the text of `path`
/// alone.
#[verifier::external_body]
pub(crate) fn file_name_of(path: &str) -> (name: Option<String>)
    ensures
        name.deep_view() == path_file_name(path@),
{
    match Path::new(path).file_name() {
        Some(name) => Some(name.to_string_lossy().into_owned()),
        None => None,
    }
}

/// `base` joined with `name`, by `std::path::Path::join`.
///
/// The contract names the result, which depends on the two texts alone.
#[verifier::external_body]
pub(crate) fn join(base: &str, name: &str) -> (joined: String)
    ensures
        joined@ == path_join(base@, name@),
{
    Path::new(base).join(name).to_string_lossy().into_owned()
}

/// `path` with its extension replaced, by `std::path::Path::with_extension`.
///
/// That function panics on an extension that holds a path separator, so
/// the contract asks for one that holds none.  It names the result, which
/// depends on the two texts alone.
#[verifier::external_body]
pub(crate) fn with_extension(path: &str, extension: &str) -> (replaced: String)
    requires
        plain_extension(extension@),
    ensures
        replaced@ == path_with_extension(path@, extension@),
{
    Path::new(path).with_extension(extension).to_string_lossy().into_owned()
}

/// Whether `c` separates path components, by `std::path::is_separator`.
#[verifier::external_body]
pub(crate) fn is_separator(c: char) -> (separates: bool)
    ensures
        separates == path_separator(c),
{
    std::path::is_separator(c)
}

/// Tells whether `extension` is free of path separators.
pub fn is_plain_extension(extension: &str) -> (plain: bool)
    ensures
        plain == plain_extension(extension@),
{
    let length: usize = extension.unicode_len();
    let mut index: usize = 0;
    while index < length
        invariant
            length == extension@.len(),
            index <= length,
            forall|i: int| 0 <= i < index ==> !path_separator(#[trigger] extension@[i]),
        decreases length - index,
    {
        if is_separator(extension.get_char(index)) {
            return false;
        }
        index += 1;
    }
    true
}

/// Names the binding file for `header`: the file name of `header` inside
/// `out_dir`, with its extension replaced by `extension`.
pub fn binding_file(out_dir: &str, header: &str, extension: &str) -> (file: Option<String>)
    ensures
        file.deep_view() == binding_path(out_dir@, header@, extension@),
{
    if !is_plain_extension(extension) {
        return None;
    }
    match file_name_of(header) {
        Some(name) => {
            let inside = join(out_dir, name.as_str());
            Some(with_extension(inside.as_str(), extension))
        },
        None => None,
    }
}

} // verus!
