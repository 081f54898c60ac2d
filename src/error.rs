use vstd::prelude::*;

verus! {

/// The ways in which configuring or running a Newton step can fail.
#[derive(Clone, Copy, Debug, PartialEq, Eq, Structural)]
pub enum Error {
    /// The damping factor lies outside `(0, 1]`.
    InvalidParameter,
    /// The step was asked for without a current parameter.
    NotInitialized,
    /// The Hessian at the current parameter cannot be inverted.
    SingularMatrix,
    /// The constrained parameter does not fit in the parameter type.
    ParameterOverflow,
}

impl Error {
    /// A human-readable description of the failure.
    pub fn description(&self) -> (r: &'static str)
        ensures
            *self == Error::InvalidParameter ==> r@ == "gamma must be in (0, 1]"@,
            *self == Error::NotInitialized ==> r@ == "an initial parameter is required"@,
            *self == Error::SingularMatrix ==> r@ == "the Hessian is not invertible"@,
            *self == Error::ParameterOverflow ==> r@ == "the new parameter is out of range"@,
    {
        match self {
            Error::InvalidParameter => "gamma must be in (0, 1]",
            Error::NotInitialized => "an initial parameter is required",
            Error::SingularMatrix => "the Hessian is not invertible",
            Error::ParameterOverflow => "the new parameter is out of range",
        }
    }
}

} // verus!
