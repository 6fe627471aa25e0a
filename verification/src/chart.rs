//! Charts: the layers of a song and the sets that switch them on and off.

use crate::data::DataContext;
use vstd::prelude::*;

verus! {

/// A layer of a chart: hooks that may be switched on and off together.
#[derive(Clone, Copy, Debug, PartialEq, Eq, Structural)]
pub struct Layer;

/// The primary difficulty structure.
///
/// Difficulties are known as layer sets: each holds a number of layers, and
/// each is kept in a file of its own name.
#[derive(Debug, PartialEq, Eq)]
pub struct LayerSet {
    filename: String,
    display_name: String,
    layers: Vec<Layer>,
}

impl LayerSet {
    /// The name of the file that this set is kept in.
    pub closed spec fn file(&self) -> Seq<char> {
        self.filename@
    }

    /// The name under which this set is shown.
    pub closed spec fn shown(&self) -> Seq<char> {
        self.display_name@
    }

    /// The layers of this set, in their order.
    pub closed spec fn held(&self) -> Seq<Layer> {
        self.layers@
    }

    /// Makes the set that is kept in the file `filename`, is shown as
    /// `display_name` and holds `layers`.
    pub fn new(filename: String, display_name: String, layers: Vec<Layer>) -> (set: LayerSet)
        ensures
            set.file() == filename@,
            set.shown() == display_name@,
            set.held() == layers@,
    {
        LayerSet { filename, display_name, layers }
    }

    /// The name under which this set is shown.
    pub fn display_name(&self) -> (name: &str)
        ensures
            name@ == self.shown(),
    {
        self.display_name.as_str()
    }

    /// The layers of this set, in their order.
    pub fn layers(&self) -> (layers: &Vec<Layer>)
        ensures
            layers@ == self.held(),
    {
        &self.layers
    }
}

impl DataContext for LayerSet {
    open spec fn filename() -> Option<Seq<char>> {
        Some("normal"@)
    }

    fn get_filename() -> (name: Option<String>) {
        Some("normal".to_owned())
    }

    fn get_current_filename(self) -> (name: String)
        ensures
            name@ == self.file(),
    {
        self.filename
    }
}

} // verus!
