//! What the command line hands over, judged before any work begins.

pub mod b64;
pub mod text;

pub use b64::Base64Format;
pub use text::TextSignFormat;

use vstd::prelude::*;

verus! {

/// Whether two texts hold the same characters.
pub fn same_text(a: &str, b: &str) -> (same: bool)
    ensures
        same == (a@ == b@),
{
    let left = a.to_owned();
    let right = b.to_owned();
    left == right
}

/// Accepts the name of an input: `-`, which stands for the standard input,
/// or the name of a file that exists. `exists` is what the file system said
/// of the name.
pub fn verify_file(file_name: &str, exists: bool) -> (r: Result<String, &'static str>)
    ensures
        match r {
            Ok(name) => (file_name@ == "-"@ || exists) && name@ == file_name@,
            Err(why) => !(file_name@ == "-"@ || exists) && why@ == "File not found"@,
        },
{
    if same_text(file_name, "-") || exists {
        Ok(file_name.to_owned())
    } else {
        Err("File not found")
    }
}

/// Accepts the name of an output directory: one that exists and is a
/// directory. The two flags are what the file system said of the name.
pub fn verify_path(path: &str, exists: bool, is_dir: bool) -> (r: Result<String, &'static str>)
    ensures
        match r {
            Ok(name) => exists && is_dir && name@ == path@,
            Err(why) => !(exists && is_dir) && why@ == "path not exist"@,
        },
{
    if exists && is_dir {
        Ok(path.to_owned())
    } else {
        Err("path not exist")
    }
}

} // verus!
