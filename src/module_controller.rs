//! The module controller's data: where a module lives and what it holds.

use vstd::prelude::*;

verus! {

/// The path, within the project, of the file holding the module at `location`.
pub open spec fn module_file_path(location: Seq<char>) -> Seq<char> {
    seq!['.', '/'] + location + seq!['.', 'l', 'u', 'n', 'a']
}

/// Structure uniquely identifying module location in the project.
/// Mappable to filesystem path.
#[derive(Clone, Debug, PartialEq, Eq, Hash)]
pub struct Location(pub String);

impl Location {
    /// Obtains path (within a project context) to the file with this module.
    pub fn to_path(&self) -> (r: String)
        ensures
            r@ == module_file_path(self.0@),
    {
        proof {
            reveal_strlit("./");
            reveal_strlit(".luna");
        }
        let path = "./".to_owned().concat(self.0.as_str()).concat(".luna");
        assert(path@ =~= module_file_path(self.0@));
        path
    }
}

/// State data of the module controller.
#[derive(Clone, Debug, PartialEq, Eq)]
pub struct Data {
    /// This module's location.
    pub loc: Location,
    /// Contents of the module file.
    pub contents: String,
}

} // verus!
