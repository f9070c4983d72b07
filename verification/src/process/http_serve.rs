//! The answers of the static file server. Serving itself is the caller's
//! work; what is answered for a request is decided here.

use vstd::prelude::*;
use vstd::string::StringExecFns;

verus! {

/// What the file system said of the file that a request names.
pub enum FileProbe {
    /// No such file.
    Missing,
    /// The file was read as text.
    Read(String),
    /// The file exists but could not be read as text; the reason is kept.
    Unreadable(String),
}

/// The status code owed for a probe: 404, 200 or 500.
pub open spec fn status_spec(probe: FileProbe) -> u16 {
    match probe {
        FileProbe::Missing => 404,
        FileProbe::Read(_) => 200,
        FileProbe::Unreadable(_) => 500,
    }
}

/// The body owed for a probe of the file shown as `shown_path`.
pub open spec fn body_spec(shown_path: Seq<char>, probe: FileProbe) -> Seq<char> {
    match probe {
        FileProbe::Missing => "File not found: "@ + shown_path,
        FileProbe::Read(content) => content@,
        FileProbe::Unreadable(why) => why@,
    }
}

/// The status code and body with which a request for a file is answered: the
/// file's text where it could be read, the reason where it could not, and a
/// notice that names the file where there is none.
pub fn file_response(shown_path: &str, probe: FileProbe) -> (response: (u16, String))
    ensures
        response.0 == status_spec(probe),
        response.1@ == body_spec(shown_path@, probe),
{
    match probe {
        FileProbe::Missing => (404, String::from_str("File not found: ").concat(shown_path)),
        FileProbe::Read(content) => (200, content),
        FileProbe::Unreadable(why) => (500, why),
    }
}

} // verus!
