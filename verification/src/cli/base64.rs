//! The `base64` commands and the names of the Base64 formats.
use vstd::prelude::*;

use crate::cli::CliError;
use crate::encoding::Base64Variant;
use crate::text_util::str_eq;

verus! {

/// The `base64` commands.
pub enum Base64SubCommand {
    Encode(Base64EncodeOpts),
    Decode(Base64DecodeOpts),
}

/// Options of `base64 encode`.
pub struct Base64EncodeOpts {
    pub input: String,
    pub format: Base64Format,
}

/// Options of `base64 decode`.
pub struct Base64DecodeOpts {
    pub input: String,
    pub format: Base64Format,
}

/// The Base64 alphabets that the commands offer; both pad with `=`.
#[derive(Clone, Copy, Debug, PartialEq, Eq, Structural)]
pub enum Base64Format {
    Standard,
    UrlSafe,
}

impl Base64Format {
    /// The Base64 flavour of this format.
    pub open spec fn variant(self) -> Base64Variant {
        match self {
            Base64Format::Standard => Base64Variant::Standard,
            Base64Format::UrlSafe => Base64Variant::UrlSafe,
        }
    }

    /// The Base64 flavour of this format.
    pub fn to_variant(self) -> (res: Base64Variant)
        ensures
            res == self.variant(),
    {
        match self {
            Base64Format::Standard => Base64Variant::Standard,
            Base64Format::UrlSafe => Base64Variant::UrlSafe,
        }
    }

    /// The name of this format on the command line.
    pub open spec fn name(self) -> Seq<char> {
        match self {
            Base64Format::Standard => "standard"@,
            Base64Format::UrlSafe => "url_safe"@,
        }
    }

    /// The name of this format on the command line.
    pub fn as_str(self) -> (res: &'static str)
        ensures
            res@ == self.name(),
    {
        match self {
            Base64Format::Standard => "standard",
            Base64Format::UrlSafe => "url_safe",
        }
    }
}

/// The format that a command-line name stands for, if any.
pub open spec fn base64_format_named(value: Seq<char>) -> Option<Base64Format> {
    if value == "standard"@ {
        Some(Base64Format::Standard)
    } else if value == "url_safe"@ {
        Some(Base64Format::UrlSafe)
    } else {
        None
    }
}

/// Reads a Base64 format from its command-line name.
pub fn parse_format(value: &str) -> (res: Result<Base64Format, CliError>)
    ensures
        match base64_format_named(value@) {
            Some(f) => res == Ok::<Base64Format, CliError>(f),
            None => res matches Err(CliError::InvalidBase64Format(v)) && v@ == value@,
        },
{
    if str_eq(value, "standard") {
        Ok(Base64Format::Standard)
    } else if str_eq(value, "url_safe") {
        Ok(Base64Format::UrlSafe)
    } else {
        Err(CliError::InvalidBase64Format(value.to_owned()))
    }
}

/// Every format is read back from its own name.
pub proof fn lemma_base64_format_name_roundtrip(f: Base64Format)
    ensures
        base64_format_named(f.name()) == Some(f),
{
    reveal_strlit("standard");
    reveal_strlit("url_safe");
    assert("standard"@ != "url_safe"@) by {
        assert("standard"@[0] != "url_safe"@[0]);
    }
}

} // verus!
