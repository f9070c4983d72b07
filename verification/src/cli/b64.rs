use crate::cli::same_text;
use vstd::prelude::*;

verus! {

/// The two base64 formats: the standard alphabet with padding, and the
/// url-safe alphabet without.
#[derive(Clone, Copy, Debug, PartialEq, Eq, Structural)]
pub enum Base64Format {
    Standard,
    UrlSafe,
}

impl Base64Format {
    /// The name of the format on the command line.
    pub open spec fn name_spec(self) -> Seq<char> {
        match self {
            Base64Format::Standard => "standard"@,
            Base64Format::UrlSafe => "urlsafe"@,
        }
    }

    /// The name of the format on the command line.
    pub fn name(self) -> (text: &'static str)
        ensures
            text@ == self.name_spec(),
    {
        match self {
            Base64Format::Standard => "standard",
            Base64Format::UrlSafe => "urlsafe",
        }
    }
}

/// Reads the name of a base64 format. Any other text is refused.
pub fn parse_base64_format(format: &str) -> (r: Result<Base64Format, &'static str>)
    ensures
        match r {
            Ok(f) => format@ == f.name_spec(),
            Err(why) => format@ != "standard"@ && format@ != "urlsafe"@ && why@
                == "Invalid format"@,
        },
{
    if same_text(format, "standard") {
        Ok(Base64Format::Standard)
    } else if same_text(format, "urlsafe") {
        Ok(Base64Format::UrlSafe)
    } else {
        Err("Invalid format")
    }
}

} // verus!
