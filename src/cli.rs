//! What the command line asks the viewer to open.
use vstd::prelude::*;
use crate::paths::{parent_of, path_parent};

verus! {

/// What the file system holds at a path.
#[derive(Clone, Copy, Debug, PartialEq, Eq, Structural)]
pub enum PathKind {
    Missing,
    File,
    Directory,
    Other,
}

/// Why the command line cannot be followed.
#[derive(Debug, PartialEq, Eq)]
pub enum CliError {
    PathNotFound(String),
    InvalidPath(String),
}

impl CliError {
    /// The line to print on standard error before exiting with status 1.
    pub fn message(&self) -> (r: String)
        ensures
            match self {
                CliError::PathNotFound(p) => r@ == "Error: Path not found: "@ + p@,
                CliError::InvalidPath(p) => r@ == "Error: Invalid path: "@ + p@,
            },
    {
        match self {
            CliError::PathNotFound(p) => {
                let mut r = String::from_str("Error: Path not found: ");
                r.append(p.as_str());
                r
            },
            CliError::InvalidPath(p) => {
                let mut r = String::from_str("Error: Invalid path: ");
                r.append(p.as_str());
                r
            },
        }
    }
}

/// The directory of the tree when a file is opened from the command line:
/// the file's parent, or the current directory when the path has none.
pub open spec fn root_for_file(path: Seq<char>) -> Seq<char> {
    match path_parent(path) {
        Some(dir) => if dir.len() > 0 {
            dir
        } else {
            "."@
        },
        None => "."@,
    }
}

/// The file to open and the root of the tree, from the arguments (the
/// program's name first). `target` is what the file system holds at the
/// first argument, and `current_dir` the working directory, if it could be
/// read. No argument: no file, the working directory (or `.`) as root. A
/// file: that file, under its directory. A directory: no file, under it.
/// Anything else is an error.
pub fn parse_arguments(args: &[String], target: PathKind, current_dir: Option<String>) -> (r: Result<
    (Option<String>, String),
    CliError,
>)
    ensures
        args@.len() < 2 ==> (r matches Ok((None, root)) && match current_dir {
            Some(d) => root == d,
            None => root@ == "."@,
        }),
        args@.len() >= 2 ==> match target {
            PathKind::Missing => r matches Err(CliError::PathNotFound(p)) && p == args@[1],
            PathKind::File => r matches Ok((Some(f), root)) && f == args@[1] && root@ == root_for_file(
                args@[1]@,
            ),
            PathKind::Directory => r matches Ok((None, root)) && root == args@[1],
            PathKind::Other => r matches Err(CliError::InvalidPath(p)) && p == args@[1],
        },
{
    if args.len() < 2 {
        let root = match current_dir {
            Some(d) => d,
            None => String::from_str("."),
        };
        return Ok((None, root));
    }
    let arg = args[1].clone();
    match target {
        PathKind::Missing => Err(CliError::PathNotFound(arg)),
        PathKind::File => {
            let root = match parent_of(arg.as_str()) {
                Some(dir) => if dir.as_str().unicode_len() > 0 {
                    dir
                } else {
                    String::from_str(".")
                },
                None => String::from_str("."),
            };
            Ok((Some(arg), root))
        },
        PathKind::Directory => Ok((None, arg)),
        PathKind::Other => Err(CliError::InvalidPath(arg)),
    }
}

} // verus!
