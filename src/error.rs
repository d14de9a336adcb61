use vstd::prelude::*;

verus! {

/// An error of a scenario, carried as its message.
#[derive(Debug, Clone)]
pub struct ScenarioError {
    pub message: String,
}

impl ScenarioError {
    pub fn new(message: String) -> (r: Self)
        ensures
            r.message == message,
    {
        ScenarioError { message }
    }

    /// The message of the error.
    pub fn message(&self) -> (r: &String)
        ensures
            r == &self.message,
    {
        &self.message
    }
}

/// Why one generation stopped without a sequence.
#[derive(Debug, Clone)]
pub enum GenerationError {
    /// The scenario could not be decomposed, or its sample size is no index.
    Decomposition(String),
    /// A maximum-likelihood estimate could not be made from a drawn batch.
    Estimation(String),
    /// The final regime ran out of parameters before the chart signalled.
    IndexRange(String),
}

impl GenerationError {
    /// The message that the error carries.
    pub fn message(&self) -> (r: &String)
        ensures
            r == match self {
                GenerationError::Decomposition(m) => m,
                GenerationError::Estimation(m) => m,
                GenerationError::IndexRange(m) => m,
            },
    {
        match self {
            GenerationError::Decomposition(m) => m,
            GenerationError::Estimation(m) => m,
            GenerationError::IndexRange(m) => m,
        }
    }

    /// The same error as a `ScenarioError` with the same message.
    pub fn into_scenario_error(self) -> (r: ScenarioError)
        ensures
            r.message == match self {
                GenerationError::Decomposition(m) => m,
                GenerationError::Estimation(m) => m,
                GenerationError::IndexRange(m) => m,
            },
    {
        match self {
            GenerationError::Decomposition(m) => ScenarioError { message: m },
            GenerationError::Estimation(m) => ScenarioError { message: m },
            GenerationError::IndexRange(m) => ScenarioError { message: m },
        }
    }
}

/// The sample size `n` of a scenario as an index, if it is one.
pub open spec fn sample_size_spec(n: i64) -> Option<nat> {
    if 0 <= n && n <= usize::MAX {
        Some(n as nat)
    } else {
        None
    }
}

/// Converts a scenario's sample size to a platform index; a negative size, or
/// one beyond `usize`, is a decomposition error.
pub fn sample_size(n: i64) -> (r: Result<usize, GenerationError>)
    ensures
        r is Ok <==> sample_size_spec(n) is Some,
        r matches Ok(v) ==> sample_size_spec(n) == Some(v as nat),
        r matches Err(e) ==> e is Decomposition,
{
    if n >= 0 && (n as u64) as u128 <= usize::MAX as u128 {
        Ok(n as u64 as usize)
    } else {
        Err(GenerationError::Decomposition(String::from_str("Sample size n doesn't convert to usize.")))
    }
}

} // verus!
