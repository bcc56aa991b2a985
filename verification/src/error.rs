use vstd::prelude::*;

verus! {

/// The failures of the key-to-JWK pipeline. Each stage's variant carries the
/// underlying cause as text where the collaborating library reported one.
#[derive(Debug)]
pub enum KeyError {
    /// The key file could not be read.
    FileReadFailure(String),
    /// The PEM/DER material could not be parsed as a key.
    KeyParseFailure(String),
    /// The key algorithm or visibility is not supported (for instance an EC
    /// private key).
    UnsupportedKeyType,
    /// A required parameter could not be recovered from the parsed key.
    ExtractionFailure(String),
    /// The assembled record could not be serialized.
    SerializationFailure(String),
}

} // verus!
