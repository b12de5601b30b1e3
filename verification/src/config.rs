use vstd::prelude::*;

verus! {

/// What to copy where, and whether files that already exist at the
/// destination are replaced.
#[derive(Debug, Clone)]
pub struct DirCopy {
    /// The directory whose contents are copied.
    pub source: String,
    /// The directory that receives the copy; it is created when missing.
    pub destination: String,
    /// Replace files that already exist at the destination.
    pub overwrite: bool,
    /// Replace a file only when the source is at least as new as the
    /// destination.
    pub overwrite_only_newer: bool,
}

impl DirCopy {
    /// A copy of `source` into `destination` that replaces nothing.
    pub fn new(source: &str, destination: &str) -> (r: DirCopy)
        ensures
            r.source@ == source@,
            r.destination@ == destination@,
            !r.overwrite,
            !r.overwrite_only_newer,
    {
        DirCopy {
            source: source.to_owned(),
            destination: destination.to_owned(),
            overwrite: false,
            overwrite_only_newer: false,
        }
    }

    /// The same copy, with the `overwrite` flag set to the given value.
    pub fn overwrite(self, overwrite: bool) -> (r: DirCopy)
        ensures
            r.source == self.source,
            r.destination == self.destination,
            r.overwrite == overwrite,
            r.overwrite_only_newer == self.overwrite_only_newer,
    {
        DirCopy { overwrite, ..self }
    }

    /// The same copy, with the `overwrite_only_newer` flag set to the given
    /// value.
    pub fn overwrite_only_newer(self, overwrite_only_newer: bool) -> (r: DirCopy)
        ensures
            r.source == self.source,
            r.destination == self.destination,
            r.overwrite == self.overwrite,
            r.overwrite_only_newer == overwrite_only_newer,
    {
        DirCopy { overwrite_only_newer, ..self }
    }
}

} // verus!
