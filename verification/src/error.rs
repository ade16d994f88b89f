use vstd::prelude::*;

verus! {

/// The closed error taxonomy of the library.
///
/// Every failure of the embedding engine is surfaced as one of these three
/// kinds, each carrying a human-readable message and nothing else.
#[derive(Clone, Debug)]
pub enum KPcaError {
    /// A downstream numerical step could not produce a usable result.
    ComputationFailure(String),
    /// The requested configuration is incompatible with the data.
    InvalidConfig(String),
    /// The input data is structurally unusable.
    InvalidData(String),
}

impl KPcaError {
    /// The message carried by the error, whichever kind it is.
    pub open spec fn message_spec(&self) -> Seq<char> {
        match self {
            KPcaError::ComputationFailure(m) => m@,
            KPcaError::InvalidConfig(m) => m@,
            KPcaError::InvalidData(m) => m@,
        }
    }

    /// Constructs a new `ComputationFailure` instance carrying `message`.
    pub fn computation_failure(message: &str) -> (r: KPcaError)
        ensures
            r is ComputationFailure,
            r.message_spec() == message@,
    {
        KPcaError::ComputationFailure(message.to_string())
    }

    /// Constructs a new `InvalidConfig` instance carrying `message`.
    pub fn invalid_config(message: &str) -> (r: KPcaError)
        ensures
            r is InvalidConfig,
            r.message_spec() == message@,
    {
        KPcaError::InvalidConfig(message.to_string())
    }

    /// Constructs a new `InvalidData` instance carrying `message`.
    pub fn invalid_data(message: &str) -> (r: KPcaError)
        ensures
            r is InvalidData,
            r.message_spec() == message@,
    {
        KPcaError::InvalidData(message.to_string())
    }

    /// The message carried by the error.
    pub fn message(&self) -> (m: &String)
        ensures
            m@ == self.message_spec(),
    {
        match self {
            KPcaError::ComputationFailure(m) => m,
            KPcaError::InvalidConfig(m) => m,
            KPcaError::InvalidData(m) => m,
        }
    }
}

} // verus!
