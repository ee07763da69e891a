//! Azure Functions configuration.

use crate::number;
use crate::text;
use crate::text::IntoText;
use crate::text_map;
use crate::text_map::TextMap;
use vstd::prelude::*;

verus! {

/// The most bytes that a request body may have when no other limit is set.
pub const DEFAULT_MAX_REQUEST_SIZE: usize = 100 * 1024 * 1024;

/// The seconds that a request may take when no other time is set.
pub const DEFAULT_TIMEOUT_SECONDS: u64 = 230;

/// Azure Functions configuration.
#[derive(Debug)]
pub struct FunctionConfig {
    /// Function app name.
    pub app_name: Option<String>,
    /// Function name.
    pub function_name: Option<String>,
    /// Environment (Development, Staging, Production).
    pub environment: String,
    /// Application Insights connection string.
    pub app_insights_connection: Option<String>,
    /// Storage connection string.
    pub storage_connection: Option<String>,
    /// Custom base path for routing.
    pub base_path: Option<String>,
    /// Maximum request body size in bytes.
    pub max_request_size: usize,
    /// Request timeout in seconds.
    pub timeout_seconds: u64,
}

/// What a configuration says.
#[verifier::ext_equal]
pub struct ConfigView {
    pub app_name: Option<Seq<char>>,
    pub function_name: Option<Seq<char>>,
    pub environment: Seq<char>,
    pub app_insights_connection: Option<Seq<char>>,
    pub storage_connection: Option<Seq<char>>,
    pub base_path: Option<Seq<char>>,
    pub max_request_size: usize,
    pub timeout_seconds: u64,
}

impl View for FunctionConfig {
    type V = ConfigView;

    open spec fn view(&self) -> ConfigView {
        ConfigView {
            app_name: text::optional(self.app_name),
            function_name: text::optional(self.function_name),
            environment: self.environment@,
            app_insights_connection: text::optional(self.app_insights_connection),
            storage_connection: text::optional(self.storage_connection),
            base_path: text::optional(self.base_path),
            max_request_size: self.max_request_size,
            timeout_seconds: self.timeout_seconds,
        }
    }
}

/// The number that a variable is set to, if it is set to a number in range.
pub open spec fn configured_number(value: Option<Seq<char>>, max: nat) -> Option<nat> {
    match value {
        Some(value) => number::parsed(value, max),
        None => None,
    }
}

/// The configuration that the environment asks for.
pub open spec fn configured(variables: Map<Seq<char>, Seq<char>>) -> ConfigView {
    ConfigView {
        app_name: text_map::lookup(variables, "WEBSITE_SITE_NAME"@),
        function_name: text_map::lookup(variables, "AZURE_FUNCTIONS_FUNCTION_NAME"@),
        environment: match text_map::lookup(variables, "AZURE_FUNCTIONS_ENVIRONMENT"@) {
            Some(environment) => environment,
            None => "Development"@,
        },
        app_insights_connection: text_map::lookup(
            variables,
            "APPLICATIONINSIGHTS_CONNECTION_STRING"@,
        ),
        storage_connection: text_map::lookup(variables, "AzureWebJobsStorage"@),
        base_path: text_map::lookup(variables, "FUNCTION_BASE_PATH"@),
        max_request_size: match configured_number(
            text_map::lookup(variables, "MAX_REQUEST_SIZE"@),
            usize::MAX as nat,
        ) {
            Some(size) => size as usize,
            None => DEFAULT_MAX_REQUEST_SIZE,
        },
        timeout_seconds: match configured_number(
            text_map::lookup(variables, "FUNCTIONS_REQUEST_TIMEOUT"@),
            u64::MAX as nat,
        ) {
            Some(seconds) => seconds as u64,
            None => DEFAULT_TIMEOUT_SECONDS,
        },
    }
}

/// The configuration of an empty environment.
pub open spec fn default_config() -> ConfigView {
    ConfigView {
        app_name: None,
        function_name: None,
        environment: "Development"@,
        app_insights_connection: None,
        storage_connection: None,
        base_path: None,
        max_request_size: DEFAULT_MAX_REQUEST_SIZE,
        timeout_seconds: DEFAULT_TIMEOUT_SECONDS,
    }
}

/// An environment without variables gives the default configuration.
pub proof fn law_empty_environment()
    ensures
        configured(Map::empty()) == default_config(),
{
}

impl Default for FunctionConfig {
    fn default() -> (result: Self)
        ensures
            result@ == default_config(),
    {
        FunctionConfig {
            app_name: None,
            function_name: None,
            environment: "Development".to_owned(),
            app_insights_connection: None,
            storage_connection: None,
            base_path: None,
            max_request_size: DEFAULT_MAX_REQUEST_SIZE,
            timeout_seconds: DEFAULT_TIMEOUT_SECONDS,
        }
    }
}

impl Clone for FunctionConfig {
    fn clone(&self) -> (result: Self)
        ensures
            result@ == self@,
    {
        FunctionConfig {
            app_name: text::copy_optional(&self.app_name),
            function_name: text::copy_optional(&self.function_name),
            environment: self.environment.clone(),
            app_insights_connection: text::copy_optional(&self.app_insights_connection),
            storage_connection: text::copy_optional(&self.storage_connection),
            base_path: text::copy_optional(&self.base_path),
            max_request_size: self.max_request_size,
            timeout_seconds: self.timeout_seconds,
        }
    }
}

fn number_or(value: Option<&String>, max: u64, default: u64) -> (result: u64)
    ensures
        result == (match configured_number(
            match value {
                Some(value) => Some(value@),
                None => None,
            },
            max as nat,
        ) {
            Some(number) => number as u64,
            None => default,
        }),
        default <= max ==> result <= max,
{
    match value {
        Some(value) => match number::parse_unsigned(value.as_str(), max) {
            Some(number) => number,
            None => default,
        },
        None => default,
    }
}

impl FunctionConfig {
    /// Create configuration from environment variables.
    pub fn from_env(variables: &TextMap) -> (result: Self)
        ensures
            result@ == configured(variables@),
    {
        FunctionConfig {
            app_name: variables.value("WEBSITE_SITE_NAME"),
            function_name: variables.value("AZURE_FUNCTIONS_FUNCTION_NAME"),
            environment: match variables.value("AZURE_FUNCTIONS_ENVIRONMENT") {
                Some(environment) => environment,
                None => "Development".to_owned(),
            },
            app_insights_connection: variables.value("APPLICATIONINSIGHTS_CONNECTION_STRING"),
            storage_connection: variables.value("AzureWebJobsStorage"),
            base_path: variables.value("FUNCTION_BASE_PATH"),
            max_request_size: number_or(
                variables.get("MAX_REQUEST_SIZE"),
                usize::MAX as u64,
                DEFAULT_MAX_REQUEST_SIZE as u64,
            ) as usize,
            timeout_seconds: number_or(
                variables.get("FUNCTIONS_REQUEST_TIMEOUT"),
                u64::MAX,
                DEFAULT_TIMEOUT_SECONDS,
            ),
        }
    }

    /// Set the base path.
    pub fn base_path<P: IntoText>(self, path: P) -> (result: Self)
        ensures
            result@ == (ConfigView { base_path: Some(path.text()), ..self@ }),
    {
        let mut config = self;
        config.base_path = Some(path.into_text());
        config
    }

    /// Set max request size.
    pub fn max_request_size(self, size: usize) -> (result: Self)
        ensures
            result@ == (ConfigView { max_request_size: size, ..self@ }),
    {
        let mut config = self;
        config.max_request_size = size;
        config
    }

    /// Set request timeout.
    pub fn timeout(self, seconds: u64) -> (result: Self)
        ensures
            result@ == (ConfigView { timeout_seconds: seconds, ..self@ }),
    {
        let mut config = self;
        config.timeout_seconds = seconds;
        config
    }

    /// Check if running in production.
    pub fn is_production(&self) -> (result: bool)
        ensures
            result == text::same_ignoring_case(self@.environment, "production"@),
    {
        text::eq_ignore_ascii_case(self.environment.as_str(), "production")
    }

    /// Check if running in Azure Functions.
    pub fn is_azure_functions(&self, variables: &TextMap) -> (result: bool)
        ensures
            result == (self@.app_name is Some || variables@.contains_key(
                "FUNCTIONS_WORKER_RUNTIME"@,
            )),
    {
        self.app_name.is_some() || variables.get("FUNCTIONS_WORKER_RUNTIME").is_some()
    }
}

} // verus!
