//! What the variables of the process environment say about the function app.

use crate::config;
use crate::fields;
use crate::number;
use crate::text;
use crate::text_map;
use crate::text_map::TextMap;
use crate::wire;
use vstd::prelude::*;

verus! {

/// The port that the custom handler listens on when none is given.
pub const DEFAULT_PORT: u16 = 7071;

/// The port of the custom handler, by the environment.
pub open spec fn configured_port(variables: Map<Seq<char>, Seq<char>>) -> u16 {
    match text_map::lookup(variables, "FUNCTIONS_CUSTOMHANDLER_PORT"@) {
        Some(value) => match number::parsed(value, u16::MAX as nat) {
            Some(port) => port as u16,
            None => DEFAULT_PORT,
        },
        None => DEFAULT_PORT,
    }
}

/// Whether the environment is that of Azure Functions.
pub open spec fn in_azure_functions(variables: Map<Seq<char>, Seq<char>>) -> bool {
    variables.contains_key("FUNCTIONS_WORKER_RUNTIME"@) || variables.contains_key(
        "AZURE_FUNCTIONS_ENVIRONMENT"@,
    )
}

/// The names of the variables that decide anything here.
pub open spec fn deciding() -> Seq<Seq<char>> {
    seq![
        "WEBSITE_SITE_NAME"@,
        "AZURE_FUNCTIONS_FUNCTION_NAME"@,
        "AZURE_FUNCTIONS_INVOCATION_ID"@,
        "AZURE_FUNCTIONS_ENVIRONMENT"@,
        "FUNCTIONS_WORKER_RUNTIME"@,
        "FUNCTIONS_CUSTOMHANDLER_PORT"@,
        "FUNCTIONS_REQUEST_TIMEOUT"@,
        "APPLICATIONINSIGHTS_CONNECTION_STRING"@,
        "AzureWebJobsStorage"@,
        "FUNCTION_BASE_PATH"@,
        "MAX_REQUEST_SIZE"@,
    ]
}

/// Environments that agree on the deciding variables give the same configuration and port,
/// look alike to a check for Azure Functions, and make the same requests.
pub proof fn law_deciding_variables(
    a: Map<Seq<char>, Seq<char>>,
    b: Map<Seq<char>, Seq<char>>,
    head: wire::HeadView,
    body: Seq<u8>,
)
    requires
        forall|i: int|
            0 <= i < deciding().len() ==> text_map::lookup(a, #[trigger] deciding()[i])
                == text_map::lookup(b, deciding()[i]),
    ensures
        config::configured(a) == config::configured(b),
        configured_port(a) == configured_port(b),
        in_azure_functions(a) == in_azure_functions(b),
        a.contains_key("FUNCTIONS_WORKER_RUNTIME"@) == b.contains_key("FUNCTIONS_WORKER_RUNTIME"@),
        text_map::lookup(a, "WEBSITE_SITE_NAME"@) == text_map::lookup(b, "WEBSITE_SITE_NAME"@),
        wire::request_of(head, body, a) == wire::request_of(head, body, b),
{
    assert(deciding()[0] == "WEBSITE_SITE_NAME"@);
    assert(deciding()[1] == "AZURE_FUNCTIONS_FUNCTION_NAME"@);
    assert(deciding()[2] == "AZURE_FUNCTIONS_INVOCATION_ID"@);
    assert(deciding()[3] == "AZURE_FUNCTIONS_ENVIRONMENT"@);
    assert(deciding()[4] == "FUNCTIONS_WORKER_RUNTIME"@);
    assert(deciding()[5] == "FUNCTIONS_CUSTOMHANDLER_PORT"@);
    assert(deciding()[6] == "FUNCTIONS_REQUEST_TIMEOUT"@);
    assert(deciding()[7] == "APPLICATIONINSIGHTS_CONNECTION_STRING"@);
    assert(deciding()[8] == "AzureWebJobsStorage"@);
    assert(deciding()[9] == "FUNCTION_BASE_PATH"@);
    assert(deciding()[10] == "MAX_REQUEST_SIZE"@);
}

/// Every variable that decides anything here.
pub fn variable_names() -> (result: Vec<&'static str>)
    ensures
        fields::texts(result@) == deciding(),
{
    let result: Vec<&'static str> = vec![
        "WEBSITE_SITE_NAME",
        "AZURE_FUNCTIONS_FUNCTION_NAME",
        "AZURE_FUNCTIONS_INVOCATION_ID",
        "AZURE_FUNCTIONS_ENVIRONMENT",
        "FUNCTIONS_WORKER_RUNTIME",
        "FUNCTIONS_CUSTOMHANDLER_PORT",
        "FUNCTIONS_REQUEST_TIMEOUT",
        "APPLICATIONINSIGHTS_CONNECTION_STRING",
        "AzureWebJobsStorage",
        "FUNCTION_BASE_PATH",
        "MAX_REQUEST_SIZE",
    ];
    result
}

/// Check if running in Azure Functions.
pub fn is_azure_functions(variables: &TextMap) -> (result: bool)
    ensures
        result == in_azure_functions(variables@),
{
    variables.get("FUNCTIONS_WORKER_RUNTIME").is_some() || variables.get(
        "AZURE_FUNCTIONS_ENVIRONMENT",
    ).is_some()
}

/// Get the function app name.
pub fn function_app_name(variables: &TextMap) -> (result: Option<String>)
    ensures
        text::optional(result) == text_map::lookup(variables@, "WEBSITE_SITE_NAME"@),
{
    variables.value("WEBSITE_SITE_NAME")
}

/// Get the function name.
pub fn function_name(variables: &TextMap) -> (result: Option<String>)
    ensures
        text::optional(result) == text_map::lookup(variables@, "AZURE_FUNCTIONS_FUNCTION_NAME"@),
{
    variables.value("AZURE_FUNCTIONS_FUNCTION_NAME")
}

/// Get the invocation ID.
pub fn invocation_id(variables: &TextMap) -> (result: Option<String>)
    ensures
        text::optional(result) == text_map::lookup(variables@, "AZURE_FUNCTIONS_INVOCATION_ID"@),
{
    variables.value("AZURE_FUNCTIONS_INVOCATION_ID")
}

/// Get the port that the custom handler listens on, which the host hands over.
pub fn custom_handler_port(variables: &TextMap) -> (result: u16)
    ensures
        result == configured_port(variables@),
{
    match variables.get("FUNCTIONS_CUSTOMHANDLER_PORT") {
        Some(value) => match number::parse_unsigned(value.as_str(), u16::MAX as u64) {
            Some(port) => port as u16,
            None => DEFAULT_PORT,
        },
        None => DEFAULT_PORT,
    }
}

} // verus!
