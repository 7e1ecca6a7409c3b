//! The location a write lands at, reduced to the path the model reads.

use vstd::prelude::*;

use crate::ns::string::Str;

verus! {

/// A file location.
#[derive(Debug)]
pub struct Url {
    path: Str,
}

impl View for Url {
    type V = Seq<char>;

    closed spec fn view(&self) -> Seq<char> {
        self.path@
    }
}

impl Url {
    /// A location under the given file-system path.
    pub fn with_fs_path(path: &Str) -> (r: Url)
        ensures
            r@ == path@,
    {
        Url { path: path.retained() }
    }

    /// The characters of the path.
    pub fn path(&self) -> (r: &Str)
        ensures
            r@ == self@,
    {
        &self.path
    }
}

} // verus!
