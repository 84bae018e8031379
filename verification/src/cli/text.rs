//! The `text` commands and the names of the signing formats.
use vstd::prelude::*;

use crate::cli::CliError;
use crate::text_util::str_eq;

verus! {

/// The `text` commands.
pub enum TextSubCommand {
    Sign(TextSignOpts),
    Verify(TextVerifyOpts),
    Generate(TextKeyGenerateOpts),
}

/// Options of `text sign`.
pub struct TextSignOpts {
    pub input: String,
    pub key: String,
    pub format: TextSignFormat,
}

/// Options of `text verify`.
pub struct TextVerifyOpts {
    pub input: String,
    pub key: String,
    pub format: TextSignFormat,
    pub sig: String,
}

/// Options of `text generate`; `output` names the directory of the key files.
pub struct TextKeyGenerateOpts {
    pub format: TextSignFormat,
    pub output: String,
}

/// How a text is signed: with a keyed BLAKE3 hash, or with an Ed25519
/// signature.
#[derive(Clone, Copy, Debug, PartialEq, Eq, Structural)]
pub enum TextSignFormat {
    Blake3,
    Ed25519,
}

impl TextSignFormat {
    /// The name of this format on the command line.
    pub open spec fn name(self) -> Seq<char> {
        match self {
            TextSignFormat::Blake3 => "blake3"@,
            TextSignFormat::Ed25519 => "ed25519"@,
        }
    }

    /// The name of this format on the command line.
    pub fn as_str(self) -> (res: &'static str)
        ensures
            res@ == self.name(),
    {
        match self {
            TextSignFormat::Blake3 => "blake3",
            TextSignFormat::Ed25519 => "ed25519",
        }
    }

    /// The names of the files that `text generate` writes, one per generated
    /// key and in the order of the keys.
    pub open spec fn key_file_names(self) -> Seq<Seq<char>> {
        match self {
            TextSignFormat::Blake3 => seq!["blake3.txt"@],
            TextSignFormat::Ed25519 => seq!["ed25519.sk"@, "ed25519.pk"@],
        }
    }

    /// The names of the files that `text generate` writes, one per generated
    /// key and in the order of the keys.
    pub fn key_files(self) -> (res: Vec<String>)
        ensures
            res@.len() == self.key_file_names().len(),
            forall|i: int| 0 <= i < res@.len() ==> #[trigger] res@[i]@ == self.key_file_names()[i],
    {
        let mut names: Vec<String> = Vec::new();
        match self {
            TextSignFormat::Blake3 => {
                names.push("blake3.txt".to_owned());
            },
            TextSignFormat::Ed25519 => {
                names.push("ed25519.sk".to_owned());
                names.push("ed25519.pk".to_owned());
            },
        }
        names
    }
}

/// The format that a command-line name stands for, if any.
pub open spec fn text_sign_format_named(value: Seq<char>) -> Option<TextSignFormat> {
    if value == "blake3"@ {
        Some(TextSignFormat::Blake3)
    } else if value == "ed25519"@ {
        Some(TextSignFormat::Ed25519)
    } else {
        None
    }
}

/// Reads a signing format from its command-line name.
pub fn parse_format(format: &str) -> (res: Result<TextSignFormat, CliError>)
    ensures
        match text_sign_format_named(format@) {
            Some(f) => res == Ok::<TextSignFormat, CliError>(f),
            None => res matches Err(CliError::InvalidTextSignFormat(v)) && v@ == format@,
        },
{
    if str_eq(format, "blake3") {
        Ok(TextSignFormat::Blake3)
    } else if str_eq(format, "ed25519") {
        Ok(TextSignFormat::Ed25519)
    } else {
        Err(CliError::InvalidTextSignFormat(format.to_owned()))
    }
}

/// Every format is read back from its own name.
pub proof fn lemma_text_sign_format_name_roundtrip(f: TextSignFormat)
    ensures
        text_sign_format_named(f.name()) == Some(f),
{
    reveal_strlit("blake3");
    reveal_strlit("ed25519");
    assert("blake3"@ != "ed25519"@) by {
        assert("blake3"@[0] != "ed25519"@[0]);
    }
}

} // verus!
