//! The settings of the game and the rules by which data is read and written.
//!
//! The functions here decide; they touch no file. A caller looks at the file
//! system, says what it found as a [`Stored`] value, and carries out the
//! [`Request`] it gets back.

use crate::path::ron_location;
pub use crate::path::ron_path;
use vstd::prelude::*;

verus! {

/// All valid keybindings.
#[derive(Clone, Copy, Debug, PartialEq, Eq, Structural)]
pub struct Keybindings {
    /// UI's left control.
    pub ui_left: char,
    /// UI's down control.
    pub ui_down: char,
    /// UI's up control.
    pub ui_up: char,
    /// UI's right control.
    pub ui_right: char,
    /// Gameplay's left control.
    pub note_left: char,
    /// Gameplay's down control.
    pub note_down: char,
    /// Gameplay's up control.
    pub note_up: char,
    /// Gameplay's right control.
    pub note_right: char,
}

impl Keybindings {
    /// The keybindings of a fresh installation: `a`, `s`, `w`, `d` for left,
    /// down, up and right, in the UI and in gameplay alike.
    pub open spec fn standard() -> Keybindings {
        Keybindings {
            ui_left: 'a',
            ui_down: 's',
            ui_up: 'w',
            ui_right: 'd',
            note_left: 'a',
            note_down: 's',
            note_up: 'w',
            note_right: 'd',
        }
    }
}

impl Default for Keybindings {
    fn default() -> (keys: Keybindings)
        ensures
            keys == Keybindings::standard(),
    {
        Keybindings {
            ui_left: 'a',
            ui_down: 's',
            ui_up: 'w',
            ui_right: 'd',
            note_left: 'a',
            note_down: 's',
            note_up: 'w',
            note_right: 'd',
        }
    }
}

/// All valid settings.
///
/// A value is always complete: there is no way to hold a part of the
/// settings, and a document that cannot be read in full is replaced by
/// [`Settings::standard`] as a whole.
#[derive(Clone, Copy, Debug, PartialEq, Eq, Structural)]
pub struct Settings {
    /// The valid controls.
    pub controls: Keybindings,
}

impl Settings {
    /// The settings of a fresh installation.
    pub open spec fn standard() -> Settings {
        Settings { controls: Keybindings::standard() }
    }
}

impl Default for Settings {
    fn default() -> (settings: Settings)
        ensures
            settings == Settings::standard(),
    {
        Settings { controls: Keybindings::default() }
    }
}

/// What a caller found where a data file is kept.
#[derive(Debug, PartialEq, Eq)]
pub enum Stored<T> {
    /// The file could not be read: it is missing, or reading it failed.
    Unreadable,
    /// The file was read, and its text is no valid document.
    Malformed,
    /// The file was read, and its text is the document of this value.
    Parsed(T),
}

/// What a read of a file and a reading of its text come to.
///
/// `found` is the result of the read, and in it, where the file was read, the
/// result of taking its text for a document.
pub open spec fn stored_as<T, P, E>(found: Result<Result<T, P>, E>) -> Stored<T> {
    match found {
        Ok(Ok(value)) => Stored::Parsed(value),
        Ok(Err(_)) => Stored::Malformed,
        Err(_) => Stored::Unreadable,
    }
}

impl<T> Stored<T> {
    /// Says what was found, given the result of the read and, in it, the
    /// result of taking the text for a document. Why either failed is not
    /// kept.
    pub fn from_read<P, E>(found: Result<Result<T, P>, E>) -> (stored: Stored<T>)
        ensures
            stored == stored_as(found),
    {
        match found {
            Ok(Ok(value)) => Stored::Parsed(value),
            Ok(Err(_)) => Stored::Malformed,
            Err(_) => Stored::Unreadable,
        }
    }
}

/// What a caller is asked to do.
#[derive(Debug, PartialEq, Eq)]
pub enum Request {
    /// Nothing is to be done.
    Nothing,
    /// The document of the value at hand is to be written to `target`, in
    /// place of what is there.
    Write {
        /// The location of the file.
        target: String,
    },
    /// It is to be reported that the file `filename` with the extension `ron`
    /// in `location` is not valid and that the default is assumed. The file
    /// stays as it is.
    Warn {
        /// The name of the file, without its extension.
        filename: String,
        /// The directory that holds the file.
        location: String,
    },
}

/// Why no data could be had.
#[derive(Debug, PartialEq, Eq)]
pub enum DataError<E> {
    /// The platform has no directory for configuration.
    ConfigDirUnavailable,
    /// The file system refused; the failure is kept as it came.
    IoFailure(E),
}

/// The value that a read yields: what was stored, where that is a document,
/// and `fallback` in every other case.
pub open spec fn read_value<T>(stored: Stored<T>, fallback: T) -> T {
    match stored {
        Stored::Parsed(value) => value,
        _ => fallback,
    }
}

/// Whether `request` is fit to follow a read of the data file `filename`
/// below `path` that found `stored`.
///
/// A document asks for nothing. Text that is no document asks for a warning
/// and never for a write. A file that could not be read asks for the default
/// to be written in its place, if `write_defaults_on_missing` is set, and for
/// nothing otherwise.
pub open spec fn follows_read<T>(
    request: Request,
    path: Seq<char>,
    filename: Seq<char>,
    stored: Stored<T>,
    write_defaults_on_missing: bool,
) -> bool {
    match stored {
        Stored::Parsed(_) => request is Nothing,
        Stored::Malformed => request matches Request::Warn { filename: f, location: l } && f@
            == filename && l@ == path,
        Stored::Unreadable => if write_defaults_on_missing {
            request matches Request::Write { target } && target@ == ron_location(path, filename)
        } else {
            request is Nothing
        },
    }
}

/// Primary data trait.
///
/// All data is handled through this trait, typically used as a supertrait.
pub trait DataContext: Sized {
    /// The filename assigned to the type, if it has one.
    spec fn filename() -> Option<Seq<char>>;

    /// Gets the filename assigned to the type.
    ///
    /// Most implementations name one file for all their values. For the
    /// filename of one value, see
    /// [`get_current_filename`](DataContext::get_current_filename).
    fn get_filename() -> (name: Option<String>)
        ensures
            name is Some <==> Self::filename() is Some,
            name matches Some(n) ==> Self::filename() == Some(n@),
    ;

    /// Gets the filename of this value.
    ///
    /// The default is the filename assigned to the type, which must be
    /// there. An implementation that names each value by itself provides its
    /// own method.
    fn get_current_filename(self) -> (name: String)
        requires
            Self::filename() is Some,
        default_ensures
            Self::filename() == Some(name@),
    {
        Self::get_filename().unwrap()
    }
}

/// The reading and writing of data files.
///
/// A type that is kept in a file of its own says what it is when nothing
/// usable is stored; the trait then decides what a read yields and where a
/// write goes.
pub trait SaveData: DataContext {
    /// The value that stands in where nothing usable is stored.
    spec fn fallback() -> Self;

    /// Makes the value that stands in where nothing usable is stored.
    fn make_fallback() -> (value: Self)
        ensures
            value == Self::fallback(),
    ;

    /// Decides what a read of the data file below `path` yields, given what
    /// was found there.
    ///
    /// The value is the stored one where `stored` holds a document, and the
    /// fallback otherwise; the read itself never fails. With it comes what
    /// the caller is to do next: see [`follows_read`]. A write that is asked
    /// for is done on a best effort, and its failure is ignored.
    fn read(path: String, stored: Stored<Self>, write_defaults_on_missing: bool) -> (outcome: (
        Self,
        Request,
    ))
        requires
            Self::filename() is Some,
        ensures
            outcome.0 == read_value(stored, Self::fallback()),
            follows_read(
                outcome.1,
                path@,
                Self::filename().unwrap(),
                stored,
                write_defaults_on_missing,
            ),
    {
        match stored {
            Stored::Parsed(data) => (data, Request::Nothing),
            Stored::Malformed => {
                let filename = Self::get_filename().unwrap();
                (Self::make_fallback(), Request::Warn { filename, location: path })
            },
            Stored::Unreadable => {
                let store = Self::make_fallback();
                if write_defaults_on_missing {
                    let request = store.write(path);
                    (store, request)
                } else {
                    (store, Request::Nothing)
                }
            },
        }
    }

    /// Says where the document of this value is written: to the data file of
    /// the type below `path`, in place of what is there.
    fn write(&self, path: String) -> (request: Request)
        requires
            Self::filename() is Some,
        ensures
            request matches Request::Write { target } && target@ == ron_location(
                path@,
                Self::filename().unwrap(),
            ),
    {
        let filename = Self::get_filename().unwrap();
        Request::Write { target: ron_path(path, filename.as_str()) }
    }
}

/// Turns what the file system said of a write into the result of the write:
/// success stays success, and a failure is handed on as it came.
pub fn written<E>(done: Result<(), E>) -> (result: Result<(), DataError<E>>)
    ensures
        done is Ok ==> result is Ok,
        done matches Err(e) ==> result == Err::<(), DataError<E>>(DataError::IoFailure(e)),
{
    match done {
        Ok(_) => Ok(()),
        Err(e) => Err(DataError::IoFailure(e)),
    }
}

impl DataContext for Settings {
    open spec fn filename() -> Option<Seq<char>> {
        Some("settings"@)
    }

    fn get_filename() -> (name: Option<String>) {
        Some("settings".to_owned())
    }

    fn get_current_filename(self) -> (name: String)
        ensures
            name@ == "settings"@,
    {
        Settings::get_filename().unwrap()
    }
}

impl SaveData for Settings {
    open spec fn fallback() -> Settings {
        Settings::standard()
    }

    fn make_fallback() -> (value: Settings) {
        Settings::default()
    }
}

/// What is found where a file holds `text`, if `parse` is the way a text is
/// taken for a document.
pub open spec fn stored_text<T>(parse: spec_fn(Seq<char>) -> Option<T>, text: Seq<char>) -> Stored<
    T,
> {
    match parse(text) {
        Some(value) => Stored::Parsed(value),
        None => Stored::Malformed,
    }
}

/// A document that is read back as the value it was written from is stable
/// under reading and writing again.
///
/// `render` stands for the way a value is written and `parse` for the way a
/// text is taken for a document. Where `parse` gives back `value` from its
/// own document, a read of that document yields `value` and asks for
/// nothing, and a second write of what was read gives the same text.
pub proof fn lemma_written_then_read_is_stable<T: SaveData>(
    render: spec_fn(T) -> Seq<char>,
    parse: spec_fn(Seq<char>) -> Option<T>,
    value: T,
    request: Request,
    path: Seq<char>,
    filename: Seq<char>,
    write_defaults_on_missing: bool,
)
    requires
        parse(render(value)) == Some(value),
        follows_read(
            request,
            path,
            filename,
            stored_text(parse, render(value)),
            write_defaults_on_missing,
        ),
    ensures
        read_value(stored_text(parse, render(value)), T::fallback()) == value,
        render(read_value(stored_text(parse, render(value)), T::fallback())) == render(value),
        request is Nothing,
{
}

/// Where the file cannot be read, the settings are those of a fresh
/// installation: `a`, `s`, `w`, `d` for left, down, up and right, twice.
pub proof fn lemma_unreadable_gives_standard()
    ensures
        read_value(Stored::Unreadable, Settings::fallback()) == (Settings {
            controls: Keybindings {
                ui_left: 'a',
                ui_down: 's',
                ui_up: 'w',
                ui_right: 'd',
                note_left: 'a',
                note_down: 's',
                note_up: 'w',
                note_right: 'd',
            },
        }),
{
}

/// Where the text of the file is no document, the value is the fallback and
/// the file is left as it is: what follows the read is a warning, never a
/// write.
pub proof fn lemma_malformed_gives_fallback_and_no_write<T: SaveData>(
    request: Request,
    path: Seq<char>,
    filename: Seq<char>,
    write_defaults_on_missing: bool,
)
    requires
        follows_read(request, path, filename, Stored::<T>::Malformed, write_defaults_on_missing),
    ensures
        read_value(Stored::<T>::Malformed, T::fallback()) == T::fallback(),
        request is Warn,
        !(request is Write),
{
}

} // verus!
