use vstd::prelude::*;

verus! {

/// Every way a normalization step can fail. Each failure is scoped to the
/// single query being formatted.
#[derive(Clone, Copy, Debug, PartialEq, Eq, Structural)]
pub enum CoreError {
    /// The asset symbol is not in the registry.
    UnknownAsset,
    /// The account payload carries a role tag outside the known set.
    UnrecognizedRole,
    /// Epoch arithmetic would go negative: the node state moved backward or
    /// the read is stale.
    InconsistentEpochState,
    /// The address is too short to be shortened meaningfully.
    AddressTooShort,
}

/// The message shown for each failure.
pub open spec fn message_of(e: CoreError) -> Seq<char> {
    match e {
        CoreError::UnknownAsset => "unknown asset"@,
        CoreError::UnrecognizedRole => "unsupported account type"@,
        CoreError::InconsistentEpochState => "rotation estimate unavailable"@,
        CoreError::AddressTooShort => "address too short"@,
    }
}

impl CoreError {
    /// A short message for the user that asked the query.
    pub fn message(&self) -> (r: String)
        ensures
            r@ == message_of(*self),
    {
        let text: &str = match self {
            CoreError::UnknownAsset => "unknown asset",
            CoreError::UnrecognizedRole => "unsupported account type",
            CoreError::InconsistentEpochState => "rotation estimate unavailable",
            CoreError::AddressTooShort => "address too short",
        };
        String::from_str(text)
    }
}

} // verus!
