//! The errors of the viewer.
use vstd::prelude::*;
use vstd::string::to_string_from_display_ensures;

verus! {

/// std's I/O error, carried inside `DogmvError::Io`.
#[verifier::external_type_specification]
#[verifier::external_body]
pub struct ExIoError(std::io::Error);

/// What can go wrong while loading or showing a file.
#[derive(Debug)]
pub enum DogmvError {
    FileNotFound(String),
    InvalidUtf8(String),
    NotMarkdownFile(String),
    Io(std::io::Error),
    DirectoryReadError(String),
    RenderingError(String),
    InvalidPath(String),
}

/// Whether `text` describes the error `e` to a reader.
pub open spec fn describes(e: DogmvError, text: Seq<char>) -> bool {
    match e {
        DogmvError::FileNotFound(p) => text == "File not found: "@ + p@,
        DogmvError::InvalidUtf8(p) => text == "Invalid UTF-8 in file: "@ + p@,
        DogmvError::NotMarkdownFile(p) => text == "Not a markdown file: "@ + p@,
        DogmvError::Io(err) => exists|t: String|
            to_string_from_display_ensures::<std::io::Error>(&err, t) && text == "IO error: "@ + t@,
        DogmvError::DirectoryReadError(m) => text == "Directory read error: "@ + m@,
        DogmvError::RenderingError(m) => text == "Rendering error: "@ + m@,
        DogmvError::InvalidPath(m) => text == "Invalid path: "@ + m@,
    }
}

fn labelled(label: &str, detail: &str) -> (r: String)
    ensures
        r@ == label@ + detail@,
{
    let mut r = String::from_str(label);
    r.append(detail);
    r
}

impl DogmvError {
    /// The error as a sentence for the user.
    pub fn message(&self) -> (r: String)
        ensures
            describes(*self, r@),
    {
        match self {
            DogmvError::FileNotFound(p) => labelled("File not found: ", p.as_str()),
            DogmvError::InvalidUtf8(p) => labelled("Invalid UTF-8 in file: ", p.as_str()),
            DogmvError::NotMarkdownFile(p) => labelled("Not a markdown file: ", p.as_str()),
            DogmvError::Io(err) => {
                let t = err.to_string();
                labelled("IO error: ", t.as_str())
            },
            DogmvError::DirectoryReadError(m) => labelled("Directory read error: ", m.as_str()),
            DogmvError::RenderingError(m) => labelled("Rendering error: ", m.as_str()),
            DogmvError::InvalidPath(m) => labelled("Invalid path: ", m.as_str()),
        }
    }
}

} // verus!
