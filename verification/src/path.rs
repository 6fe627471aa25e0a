//! Locations in the file system, held as text.
//!
//! A location is a `String`; its view, a `Seq<char>`, is what the contracts
//! speak of. Joining and renaming are done by `std::path::PathBuf`, so a
//! location is built by the rules of the platform the library is compiled
//! for.

use vstd::prelude::*;

verus! {

/// The extension of every data file.
pub const RON_EXTENSION: &'static str = "ron";

/// The location that `std::path::PathBuf::push` leaves when `segment` is
/// pushed onto `base`.
pub uninterp spec fn pushed(base: Seq<char>, segment: Seq<char>) -> Seq<char>;

/// The location that `std::path::PathBuf::set_extension` leaves when the
/// extension of `path` is set to `extension`.
pub uninterp spec fn with_extension(path: Seq<char>, extension: Seq<char>) -> Seq<char>;

/// Whether `c` separates the segments of a location on some platform.
pub open spec fn is_separator(c: char) -> bool {
    c == '/' || c == '\\'
}

/// The location of the data file `filename` below `path`.
pub open spec fn ron_location(path: Seq<char>, filename: Seq<char>) -> Seq<char> {
    with_extension(pushed(path, filename), RON_EXTENSION@)
}

/// Calls `std::path::PathBuf::push` on the path made of `base`, with
/// `segment`, and hands the path back as text.
///
/// Not proved: the contract names what `push` leaves, a function of the two
/// texts, and says nothing of what it is.
#[verifier::external_body]
pub(crate) fn push_segment(base: &str, segment: &str) -> (joined: String)
    ensures
        joined@ == pushed(base@, segment@),
{
    let mut path = std::path::PathBuf::from(base);
    path.push(segment);
    path.to_string_lossy().into_owned()
}

/// Calls `std::path::PathBuf::set_extension` on the path made of `path`, with
/// `extension`, and hands the path back as text.
///
/// Not proved: the contract names what `set_extension` leaves, a function of
/// the two texts. `set_extension` panics on an extension that holds a
/// separator, so none may be passed.
#[verifier::external_body]
fn set_extension(path: String, extension: &str) -> (renamed: String)
    requires
        forall|i: int| 0 <= i < extension@.len() ==> !is_separator(#[trigger] extension@[i]),
    ensures
        renamed@ == with_extension(path@, extension@),
{
    let mut path = std::path::PathBuf::from(path);
    path.set_extension(extension);
    path.to_string_lossy().into_owned()
}

/// Generates the location of a data file: `filename` is appended to `path`
/// as its last segment, and the extension of the result is set to `ron`.
///
/// No file is touched.
pub fn ron_path(path: String, filename: &str) -> (file: String)
    ensures
        file@ == ron_location(path@, filename@),
{
    let joined = push_segment(path.as_str(), filename);
    proof {
        reveal_strlit("ron");
    }
    set_extension(joined, RON_EXTENSION)
}

} // verus!
