//! Azure Functions error types.

use vstd::prelude::*;

verus! {

/// Azure Functions runtime errors.
#[derive(Debug)]
pub enum AzureFunctionsError {
    /// Application error.
    Application(String),
    /// Request conversion error.
    Request(String),
    /// Response conversion error.
    Response(String),
    /// Configuration error.
    Config(String),
    /// Runtime error.
    Runtime(String),
    /// Binding error.
    Binding(String),
}

impl AzureFunctionsError {
    /// What an error message starts with.
    pub open spec fn label(self) -> Seq<char> {
        match self {
            AzureFunctionsError::Application(_) => "Application error: "@,
            AzureFunctionsError::Request(_) => "Request conversion error: "@,
            AzureFunctionsError::Response(_) => "Response conversion error: "@,
            AzureFunctionsError::Config(_) => "Configuration error: "@,
            AzureFunctionsError::Runtime(_) => "Runtime error: "@,
            AzureFunctionsError::Binding(_) => "Binding error: "@,
        }
    }

    /// What went wrong.
    pub open spec fn detail(self) -> Seq<char> {
        match self {
            AzureFunctionsError::Application(detail) => detail@,
            AzureFunctionsError::Request(detail) => detail@,
            AzureFunctionsError::Response(detail) => detail@,
            AzureFunctionsError::Config(detail) => detail@,
            AzureFunctionsError::Runtime(detail) => detail@,
            AzureFunctionsError::Binding(detail) => detail@,
        }
    }

    /// The error message: the kind of the error, a colon, and what went wrong.
    pub fn to_string(&self) -> (result: String)
        ensures
            result@ == self.label() + self.detail(),
    {
        let (label, detail) = match self {
            AzureFunctionsError::Application(detail) => ("Application error: ", detail),
            AzureFunctionsError::Request(detail) => ("Request conversion error: ", detail),
            AzureFunctionsError::Response(detail) => ("Response conversion error: ", detail),
            AzureFunctionsError::Config(detail) => ("Configuration error: ", detail),
            AzureFunctionsError::Runtime(detail) => ("Runtime error: ", detail),
            AzureFunctionsError::Binding(detail) => ("Binding error: ", detail),
        };
        label.to_owned().concat(detail.as_str())
    }
}

} // verus!
