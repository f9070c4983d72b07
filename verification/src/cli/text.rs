use crate::cli::same_text;
use vstd::prelude::*;

verus! {

/// The two signing schemes: the keyed hash, and the asymmetric signature.
#[derive(Clone, Copy, Debug, PartialEq, Eq, Structural)]
pub enum TextSignFormat {
    Blake3,
    Ed25519,
}

impl TextSignFormat {
    /// The name of the scheme on the command line.
    pub open spec fn name_spec(self) -> Seq<char> {
        match self {
            TextSignFormat::Blake3 => "blake3"@,
            TextSignFormat::Ed25519 => "ed25519"@,
        }
    }

    /// The name of the scheme on the command line.
    pub fn name(self) -> (text: &'static str)
        ensures
            text@ == self.name_spec(),
    {
        match self {
            TextSignFormat::Blake3 => "blake3",
            TextSignFormat::Ed25519 => "ed25519",
        }
    }
}

impl Default for TextSignFormat {
    /// The keyed hash is the scheme used where none is named.
    fn default() -> (format: Self)
        ensures
            format == TextSignFormat::Blake3,
    {
        TextSignFormat::Blake3
    }
}

impl From<TextSignFormat> for &'static str {
    /// The name of the scheme on the command line.
    fn from(format: TextSignFormat) -> (text: &'static str) {
        match format {
            TextSignFormat::Blake3 => "blake3",
            TextSignFormat::Ed25519 => "ed25519",
        }
    }
}

impl vstd::std_specs::convert::FromSpecImpl<TextSignFormat> for &'static str {
    open spec fn obeys_from_spec() -> bool {
        true
    }

    open spec fn from_spec(format: TextSignFormat) -> &'static str {
        match format {
            TextSignFormat::Blake3 => "blake3",
            TextSignFormat::Ed25519 => "ed25519",
        }
    }
}

/// Reads the name of a signing scheme. Any other text is refused.
pub fn parse_format(format: &str) -> (r: Result<TextSignFormat, &'static str>)
    ensures
        match r {
            Ok(f) => format@ == f.name_spec(),
            Err(why) => format@ != "blake3"@ && format@ != "ed25519"@ && why@
                == "Invalid format"@,
        },
{
    if same_text(format, "blake3") {
        Ok(TextSignFormat::Blake3)
    } else if same_text(format, "ed25519") {
        Ok(TextSignFormat::Ed25519)
    } else {
        Err("Invalid format")
    }
}

/// The two schemes have different names, so reading the name that a scheme
/// prints gives that scheme back.
pub proof fn lemma_name_parses_back(format: TextSignFormat)
    ensures
        format.name_spec() == "blake3"@ <==> format == TextSignFormat::Blake3,
        format.name_spec() == "ed25519"@ <==> format == TextSignFormat::Ed25519,
{
    reveal_strlit("blake3");
    reveal_strlit("ed25519");
    assert("blake3"@.len() == 6);
    assert("ed25519"@.len() == 7);
}

} // verus!
