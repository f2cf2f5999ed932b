//! Errors reported by the container parsers of `img-parts`.
use vstd::prelude::*;

verus! {

/// Why a JPEG or PNG container could not be read.
///
/// One variant for each variant of `img_parts::Error`.
#[derive(Debug, Clone, Copy, PartialEq, Eq, Structural)]
pub enum ImageFormatError {
    /// The file does not start with the format's signature.
    WrongSignature,
    /// A PNG chunk's CRC does not match its type and contents.
    BadCrc,
    /// The data ends inside a segment or chunk.
    Truncated,
}

impl ImageFormatError {
    /// The text that `img_parts::Error` displays for this error.
    pub open spec fn description_text(self) -> Seq<char> {
        match self {
            ImageFormatError::WrongSignature => "the file signature didn't match the expected signature"@,
            ImageFormatError::BadCrc => "the chunk CRC didn't match the expected calculated CRC"@,
            ImageFormatError::Truncated => "a truncated chunk was read"@,
        }
    }

    /// The text that `img_parts::Error` displays for this error.
    pub fn description(&self) -> (text: &'static str)
        ensures
            text@ == self.description_text(),
    {
        match self {
            ImageFormatError::WrongSignature => "the file signature didn't match the expected signature",
            ImageFormatError::BadCrc => "the chunk CRC didn't match the expected calculated CRC",
            ImageFormatError::Truncated => "a truncated chunk was read",
        }
    }
}

/// The message reported when a container of the given format could not be
/// parsed: the format's prefix followed by the parser's own description.
pub open spec fn parse_error_message(prefix: Seq<char>, error: ImageFormatError) -> Seq<char> {
    prefix + error.description_text()
}

/// A result of bytes or a message, as plain values.
pub open spec fn result_view(result: Result<Vec<u8>, String>) -> Result<Seq<u8>, Seq<char>> {
    match result {
        Ok(bytes) => Ok(bytes@),
        Err(message) => Err(message@),
    }
}

/// Builds `prefix` followed by the description of `error`.
pub fn parse_error_string(prefix: &str, error: ImageFormatError) -> (message: String)
    ensures
        message@ == parse_error_message(prefix@, error),
{
    let message = String::from_str(prefix);
    message.concat(error.description())
}

} // verus!
