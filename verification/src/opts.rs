//! Options of the tabular conversion.

use crate::cli::same_text;
use vstd::prelude::*;

verus! {

/// The formats into which tabular data is converted.
#[derive(Clone, Copy, Debug, PartialEq, Eq, Structural)]
pub enum OutputFormat {
    Json,
    Yaml,
    Toml,
}

impl OutputFormat {
    /// The name of the format, which is also the extension of its files.
    pub open spec fn name_spec(self) -> Seq<char> {
        match self {
            OutputFormat::Json => "json"@,
            OutputFormat::Yaml => "yaml"@,
            OutputFormat::Toml => "toml"@,
        }
    }

    /// The name of the format, which is also the extension of its files.
    pub fn name(self) -> (text: &'static str)
        ensures
            text@ == self.name_spec(),
    {
        match self {
            OutputFormat::Json => "json",
            OutputFormat::Yaml => "yaml",
            OutputFormat::Toml => "toml",
        }
    }
}

impl From<OutputFormat> for &'static str {
    /// The name of the format.
    fn from(format: OutputFormat) -> (text: &'static str) {
        match format {
            OutputFormat::Json => "json",
            OutputFormat::Yaml => "yaml",
            OutputFormat::Toml => "toml",
        }
    }
}

impl vstd::std_specs::convert::FromSpecImpl<OutputFormat> for &'static str {
    open spec fn obeys_from_spec() -> bool {
        true
    }

    open spec fn from_spec(format: OutputFormat) -> &'static str {
        match format {
            OutputFormat::Json => "json",
            OutputFormat::Yaml => "yaml",
            OutputFormat::Toml => "toml",
        }
    }
}

/// Accepts the name of an input file that exists. `exists` is what the file
/// system said of the name.
pub fn verify_input_file(file_name: &str, exists: bool) -> (r: Result<String, &'static str>)
    ensures
        match r {
            Ok(name) => exists && name@ == file_name@,
            Err(why) => !exists && why@ == "File not found"@,
        },
{
    if exists {
        Ok(file_name.to_owned())
    } else {
        Err("File not found")
    }
}

/// Reads the name of an output format. Any other text is refused.
pub fn parse_format(format: &str) -> (r: Result<OutputFormat, &'static str>)
    ensures
        match r {
            Ok(f) => format@ == f.name_spec(),
            Err(why) => format@ != "json"@ && format@ != "yaml"@ && format@ != "toml"@ && why@
                == "Invalid format"@,
        },
{
    if same_text(format, "json") {
        Ok(OutputFormat::Json)
    } else if same_text(format, "yaml") {
        Ok(OutputFormat::Yaml)
    } else if same_text(format, "toml") {
        Ok(OutputFormat::Toml)
    } else {
        Err("Invalid format")
    }
}

} // verus!
