//! The creation of a new project: which names a project may have, and what the
//! command does once it knows whether the directory is already there.
use vstd::prelude::*;
use vstd::string::*;

verus! {

/// True if `c` may stand in the name of a package: a letter or a digit of
/// ASCII, a hyphen or an underscore.
pub open spec fn package_name_char(c: char) -> bool {
    ('a' <= c && c <= 'z') || ('A' <= c && c <= 'Z') || ('0' <= c && c <= '9') || c == '-' || c
        == '_'
}

/// True if `name` is the name of a package: it is not empty, holds only
/// letters, digits, hyphens and underscores, and does not start with a digit.
pub open spec fn valid_package_name(name: Seq<char>) -> bool {
    &&& name.len() > 0
    &&& !('0' <= name[0] && name[0] <= '9')
    &&& forall|i: int| 0 <= i < name.len() ==> package_name_char(#[trigger] name[i])
}

/// True if `name` is the name of a package.
pub fn is_package_name_valid(name: &str) -> (r: bool)
    ensures
        r == valid_package_name(name@),
{
    let len = name.unicode_len();
    if len == 0 {
        return false;
    }
    let first = name.get_char(0);
    if '0' <= first && first <= '9' {
        return false;
    }
    let mut i: usize = 0;
    while i < len
        invariant
            i <= len,
            len == name@.len(),
            forall|j: int| 0 <= j < i ==> package_name_char(#[trigger] name@[j]),
        decreases len - i,
    {
        let c = name.get_char(i);
        let allowed = ('a' <= c && c <= 'z') || ('A' <= c && c <= 'Z') || ('0' <= c && c <= '9')
            || c == '-' || c == '_';
        if !allowed {
            assert(!package_name_char(name@[i as int]));
            return false;
        }
        i = i + 1;
    }
    true
}

/// Why no project was created.
#[derive(Clone, Copy, Debug, PartialEq, Eq, Structural)]
pub enum NewError {
    /// The name is no name of a package.
    InvalidName,
    /// A directory of that name is already there.
    DirectoryExists,
}

/// The command that creates a new project in a directory of its name.
#[derive(Debug, PartialEq, Eq)]
pub struct New {
    pub name: String,
}

impl New {
    /// The command for a project named `name`.
    pub fn new(name: String) -> (r: New)
        ensures
            r.name == name,
    {
        New { name }
    }

    /// What the command does, given whether a directory of its name exists
    /// already: it fails on a name that is no name of a package, then on a
    /// directory that exists, and otherwise gives the name of the directory to
    /// create.
    pub fn apply(self, directory_exists: bool) -> (r: Result<String, NewError>)
        ensures
            match r {
                Ok(directory) => valid_package_name(self.name@) && !directory_exists && directory
                    == self.name,
                Err(NewError::InvalidName) => !valid_package_name(self.name@),
                Err(NewError::DirectoryExists) => valid_package_name(self.name@)
                    && directory_exists,
            },
    {
        if !is_package_name_valid(self.name.as_str()) {
            return Err(NewError::InvalidName);
        }
        if directory_exists {
            return Err(NewError::DirectoryExists);
        }
        Ok(self.name)
    }
}

} // verus!
