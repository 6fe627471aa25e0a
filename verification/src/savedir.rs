//! The save directory: where it lies, whether it is there, and what is read
//! from it.
//!
//! The save directory is the directory named after the product, below the
//! directory that the platform keeps for configuration. A caller asks the
//! platform for that root, attempts what the functions here name, and hands
//! them what came of it.

use crate::data::{read_value, DataError, Settings, Stored};
use crate::path::{push_segment, pushed, ron_location, ron_path};
use vstd::prelude::*;

verus! {

/// What the decisions here read of a failure of the file system.
#[derive(Clone, Copy, Debug, PartialEq, Eq, Structural)]
pub enum FailureKind {
    /// What was to be created is there already.
    AlreadyExists,
    /// What was asked for, or the directory that holds it, is not there.
    NotFound,
    /// Any other failure.
    Other,
}

/// The location of the save directory of `product`: below `root`, where the
/// platform has such a root.
pub open spec fn save_dir(root: Option<Seq<char>>, product: Seq<char>) -> Option<Seq<char>> {
    match root {
        Some(root) => Some(pushed(root, product)),
        None => None,
    }
}

/// What an attempt to create the save directory comes to: the directory,
/// where it was created or was there already, and the failure otherwise.
pub open spec fn resolved(
    root: Option<Seq<char>>,
    product: Seq<char>,
    created: Result<(), FailureKind>,
) -> Result<Seq<char>, DataError<FailureKind>> {
    match save_dir(root, product) {
        None => Err(DataError::ConfigDirUnavailable),
        Some(dir) => match created {
            Ok(_) => Ok(dir),
            Err(FailureKind::AlreadyExists) => Ok(dir),
            Err(kind) => Err(DataError::IoFailure(kind)),
        },
    }
}

/// What a look for `candidate` comes to: the location where it is there,
/// nothing where it is not, and the failure where the look itself failed.
pub open spec fn present<E>(candidate: Seq<char>, exists: Result<bool, E>) -> Result<
    Option<Seq<char>>,
    DataError<E>,
> {
    match exists {
        Ok(true) => Ok(Some(candidate)),
        Ok(false) => Ok(None),
        Err(e) => Err(DataError::IoFailure(e)),
    }
}

/// What [`fetch_save_dir`] answers.
pub open spec fn fetched<E>(
    root: Option<Seq<char>>,
    product: Seq<char>,
    exists: Result<bool, E>,
) -> Result<Option<Seq<char>>, DataError<E>> {
    match save_dir(root, product) {
        None => Err(DataError::ConfigDirUnavailable),
        Some(dir) => present(dir, exists),
    }
}

/// What [`get_ron`] answers, given the location of the save directory as
/// text.
pub open spec fn found_ron<E>(
    dir: Result<Option<Seq<char>>, DataError<E>>,
    data: Seq<char>,
    exists: Result<bool, E>,
) -> Result<Option<Seq<char>>, DataError<E>> {
    match dir {
        Ok(Some(dir)) => present(ron_location(dir, data), exists),
        Ok(None) => Ok(None),
        Err(e) => Err(e),
    }
}

/// The text of the location in `answer`.
pub open spec fn location_text<E>(answer: Result<Option<String>, DataError<E>>) -> Result<
    Option<Seq<char>>,
    DataError<E>,
> {
    match answer {
        Ok(Some(location)) => Ok(Some(location@)),
        Ok(None) => Ok(None),
        Err(e) => Err(e),
    }
}

/// The text of the root in `root`.
pub open spec fn root_text(root: Option<&str>) -> Option<Seq<char>> {
    match root {
        Some(root) => Some(root@),
        None => None,
    }
}

/// Whether start-up has to stop on `error`: it has where the platform has no
/// directory for configuration, and where something that has to be there is
/// not found. Any other failure is passed over.
pub open spec fn is_fatal(error: DataError<FailureKind>) -> bool {
    error is ConfigDirUnavailable || error == DataError::IoFailure(FailureKind::NotFound)
}

/// The directory that start-up goes on with after an attempt to create the
/// save directory, and nothing where start-up has to stop.
///
/// Start-up goes on with the save directory wherever it does not have to
/// stop, also after a failure that is passed over.
pub open spec fn startup_dir(
    root: Option<Seq<char>>,
    product: Seq<char>,
    created: Result<(), FailureKind>,
) -> Option<Seq<char>> {
    match resolved(root, product, created) {
        Ok(dir) => Some(dir),
        Err(error) => if is_fatal(error) {
            None
        } else {
            save_dir(root, product)
        },
    }
}

/// Names the save directory of `product` below the platform's configuration
/// root, which a caller then creates with all that leads to it.
///
/// It fails where the platform has no such root, and only there.
pub fn config_dir<E>(root: Option<&str>, product: &str) -> (dir: Result<String, DataError<E>>)
    ensures
        match save_dir(root_text(root), product@) {
            Some(location) => dir matches Ok(d) && d@ == location,
            None => dir == Err::<String, DataError<E>>(DataError::ConfigDirUnavailable),
        },
{
    match root {
        Some(path) => Ok(push_segment(path, product)),
        None => Err(DataError::ConfigDirUnavailable),
    }
}

/// Decides what an attempt to create the save directory comes to.
///
/// `created` is what creating [`config_dir`] gave. That the directory was
/// there already is no failure: the answer is then the directory, as after a
/// creation.
pub fn generate_save_dir(root: Option<&str>, product: &str, created: Result<(), FailureKind>) -> (dir:
    Result<String, DataError<FailureKind>>)
    ensures
        match resolved(root_text(root), product@, created) {
            Ok(location) => dir matches Ok(d) && d@ == location,
            Err(e) => dir == Err::<String, DataError<FailureKind>>(e),
        },
{
    match root {
        Some(path) => match created {
            Ok(_) => Ok(push_segment(path, product)),
            Err(FailureKind::AlreadyExists) => Ok(push_segment(path, product)),
            Err(kind) => Err(DataError::IoFailure(kind)),
        },
        None => Err(DataError::ConfigDirUnavailable),
    }
}

/// Decides whether start-up has to stop on `error`.
pub fn stops_startup(error: &DataError<FailureKind>) -> (stop: bool)
    ensures
        stop == is_fatal(*error),
{
    match error {
        DataError::ConfigDirUnavailable => true,
        DataError::IoFailure(FailureKind::NotFound) => true,
        DataError::IoFailure(_) => false,
    }
}

/// Decides with which directory start-up goes on after an attempt to create
/// the save directory, or that it has to stop.
///
/// `created` is what creating [`config_dir`] gave; it is not read where the
/// platform has no configuration root.
pub fn startup_save_dir(root: Option<&str>, product: &str, created: Result<(), FailureKind>) -> (dir:
    Option<String>)
    ensures
        match startup_dir(root_text(root), product@, created) {
            Some(location) => dir matches Some(d) && d@ == location,
            None => dir is None,
        },
{
    match generate_save_dir(root, product, created) {
        Ok(dir) => Some(dir),
        Err(error) => {
            if stops_startup(&error) {
                None
            } else {
                match root {
                    Some(path) => Some(push_segment(path, product)),
                    None => None,
                }
            }
        },
    }
}

/// Fetches the save directory of `product`.
///
/// `exists` is what a look for [`config_dir`] gave; it is not read where the
/// platform has no configuration root.
pub fn fetch_save_dir<E>(root: Option<&str>, product: &str, exists: Result<bool, E>) -> (dir:
    Result<Option<String>, DataError<E>>)
    ensures
        location_text(dir) == fetched(root_text(root), product@, exists),
{
    match root {
        Some(path) => match exists {
            Ok(true) => Ok(Some(push_segment(path, product))),
            Ok(false) => Ok(None),
            Err(e) => Err(DataError::IoFailure(e)),
        },
        None => Err(DataError::ConfigDirUnavailable),
    }
}

/// Fetches the data file `data` in the save directory.
///
/// `save_dir` is what [`fetch_save_dir`] answered. `exists` is what a look
/// for the file gave, that is for [`ron_path`] of the directory and `data`;
/// it is not read where there is no directory.
pub fn get_ron<E>(
    save_dir: Result<Option<String>, DataError<E>>,
    data: &str,
    exists: Result<bool, E>,
) -> (file: Result<Option<String>, DataError<E>>)
    ensures
        location_text(file) == found_ron(location_text(save_dir), data@, exists),
{
    match save_dir {
        Ok(context) => match context {
            Some(path) => match exists {
                Ok(true) => Ok(Some(ron_path(path, data))),
                Ok(false) => Ok(None),
                Err(e) => Err(DataError::IoFailure(e)),
            },
            None => Ok(None),
        },
        Err(e) => Err(e),
    }
}

/// Decides what the settings are, given what was found in the save
/// directory.
///
/// `file` is what [`get_ron`] answered for the settings, and `stored` what
/// was found in that file; `stored` is not read where there is no file.
/// The settings are the stored ones where there is a file that holds their
/// document, and [`Settings::standard`] in every other case. Nothing is
/// written.
pub fn read_settings<E>(file: &Result<Option<String>, DataError<E>>, stored: Stored<Settings>) -> (settings:
    Settings)
    ensures
        settings == if *file matches Ok(Some(_)) {
            read_value(stored, Settings::standard())
        } else {
            Settings::standard()
        },
{
    match file {
        Ok(Some(_)) => match stored {
            Stored::Parsed(content) => content,
            _ => Settings::default(),
        },
        _ => Settings::default(),
    }
}

/// Resolving the save directory again is no failure: once an attempt has
/// given the directory, an attempt that finds it there already gives the
/// same directory.
pub proof fn lemma_resolving_again_succeeds(
    root: Option<Seq<char>>,
    product: Seq<char>,
    first: Result<(), FailureKind>,
)
    requires
        resolved(root, product, first) is Ok,
    ensures
        resolved(root, product, Err(FailureKind::AlreadyExists)) == resolved(root, product, first),
        resolved(root, product, Ok(())) == resolved(root, product, first),
        startup_dir(root, product, Err(FailureKind::AlreadyExists)) == startup_dir(
            root,
            product,
            first,
        ),
        startup_dir(root, product, first) is Some,
{
}

} // verus!
