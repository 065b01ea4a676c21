use vstd::prelude::*;

verus! {

/// Every failure the engine can report.
#[derive(Debug, Clone)]
pub enum ByteProcError {
    /// Reading or writing an outside resource failed.
    Io(String),
    /// A module or the configuration cannot be built from the given settings.
    InvalidConfiguration(String),
    /// A key or an input string is not valid hexadecimal.
    HexDecode(String),
    /// A buffer exceeds the bound: the limit first, then the actual length.
    MaxSizeExceeded(usize, usize),
    /// The message-queue transport failed.
    Zmq(String),
    /// A module's transform rejected its input.
    Module(String),
}

impl ByteProcError {
    /// A human-readable description of the error.
    pub fn message(&self) -> (r: String)
        ensures
            self matches ByteProcError::Io(e) ==> r@ == "I/O error: "@ + e@,
            self matches ByteProcError::InvalidConfiguration(e) ==> r@ == "Invalid configuration: "@
                + e@,
            self matches ByteProcError::HexDecode(e) ==> r@ == "Hex decode error: "@ + e@,
            self matches ByteProcError::Zmq(e) ==> r@ == "ZeroMQ error: "@ + e@,
            self matches ByteProcError::Module(e) ==> r@ == "Module processing error: "@ + e@,
    {
        match self {
            ByteProcError::Io(e) => String::from_str("I/O error: ").concat(e.as_str()),
            ByteProcError::InvalidConfiguration(e) => String::from_str(
                "Invalid configuration: ",
            ).concat(e.as_str()),
            ByteProcError::HexDecode(e) => String::from_str("Hex decode error: ").concat(
                e.as_str(),
            ),
            ByteProcError::MaxSizeExceeded(max, got) => {
                let mut s = String::from_str("Stream too large: max ");
                s.append(max.to_string().as_str());
                s.append(" bytes, got ");
                s.append(got.to_string().as_str());
                s
            },
            ByteProcError::Zmq(e) => String::from_str("ZeroMQ error: ").concat(e.as_str()),
            ByteProcError::Module(e) => String::from_str("Module processing error: ").concat(
                e.as_str(),
            ),
        }
    }
}

} // verus!
