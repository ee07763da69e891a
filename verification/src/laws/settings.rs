//! What the environment decides.

use crate::config::FunctionConfig;
use crate::environment;
use crate::number;
use crate::runtime::RuntimeConfig;
use crate::text::IntoText;
use crate::text_map::TextMap;
use vstd::prelude::*;

verus! {

/// A setting that is taken from a variable: there exactly when the variable is, and as the
/// variable has it.
pub open spec fn taken_from(
    setting: Option<String>,
    variables: Map<Seq<char>, Seq<char>>,
    name: Seq<char>,
) -> bool {
    &&& setting is Some <==> variables.contains_key(name)
    &&& setting is Some ==> setting->0@ == variables[name]
}

/// Each text setting is taken from its own variable.
pub proof fn law_text_settings(variables: TextMap, config: FunctionConfig)
    requires
        call_ensures(FunctionConfig::from_env, (&variables,), config),
    ensures
        taken_from(config.app_name, variables@, "WEBSITE_SITE_NAME"@),
        taken_from(config.function_name, variables@, "AZURE_FUNCTIONS_FUNCTION_NAME"@),
        taken_from(
            config.app_insights_connection,
            variables@,
            "APPLICATIONINSIGHTS_CONNECTION_STRING"@,
        ),
        taken_from(config.storage_connection, variables@, "AzureWebJobsStorage"@),
        taken_from(config.base_path, variables@, "FUNCTION_BASE_PATH"@),
        config.environment@ == (if variables@.contains_key("AZURE_FUNCTIONS_ENVIRONMENT"@) {
            variables@["AZURE_FUNCTIONS_ENVIRONMENT"@]
        } else {
            "Development"@
        }),
{
    assert(config@ == crate::config::configured(variables@));
    assert(config@.app_name == crate::text::optional(config.app_name));
    assert(config@.function_name == crate::text::optional(config.function_name));
    assert(config@.app_insights_connection == crate::text::optional(
        config.app_insights_connection,
    ));
    assert(config@.storage_connection == crate::text::optional(config.storage_connection));
    assert(config@.base_path == crate::text::optional(config.base_path));
}

/// The request size is the number that `MAX_REQUEST_SIZE` reads as, whatever its size, and the
/// default where the variable is missing or reads as none.
pub proof fn law_request_size(
    variables: TextMap,
    config: FunctionConfig,
    value: &str,
    size: Option<u64>,
)
    requires
        call_ensures(FunctionConfig::from_env, (&variables,), config),
        variables@.contains_key("MAX_REQUEST_SIZE"@) ==> variables@["MAX_REQUEST_SIZE"@] == value@,
        call_ensures(number::parse_unsigned, (value, usize::MAX as u64), size),
    ensures
        variables@.contains_key("MAX_REQUEST_SIZE"@) && size is Some ==> config.max_request_size
            == size->0,
        !variables@.contains_key("MAX_REQUEST_SIZE"@) || size is None ==> config.max_request_size
            == 104857600,
{
    assert(config@ == crate::config::configured(variables@));
}

/// Every limit that fits can be asked for: a request size or a timeout that is written in
/// decimal notation is the one that is set.
pub proof fn law_any_number_can_be_set(
    variables: TextMap,
    config: FunctionConfig,
    size: usize,
    seconds: u64,
)
    requires
        call_ensures(FunctionConfig::from_env, (&variables,), config),
    ensures
        variables@.contains_key("MAX_REQUEST_SIZE"@) && variables@["MAX_REQUEST_SIZE"@]
            == number::decimal_text(size as nat) ==> config.max_request_size == size,
        variables@.contains_key("FUNCTIONS_REQUEST_TIMEOUT"@)
            && variables@["FUNCTIONS_REQUEST_TIMEOUT"@] == number::decimal_text(seconds as nat)
            ==> config.timeout_seconds == seconds,
{
    number::law_number_reads_back(size as nat, usize::MAX as nat);
    number::law_number_reads_back(seconds as nat, u64::MAX as nat);
    assert(config@ == crate::config::configured(variables@));
}

/// The timeout is the number that `FUNCTIONS_REQUEST_TIMEOUT` reads as, zero included, and the
/// default where the variable is missing or reads as none.
pub proof fn law_request_timeout(
    variables: TextMap,
    config: FunctionConfig,
    value: &str,
    seconds: Option<u64>,
)
    requires
        call_ensures(FunctionConfig::from_env, (&variables,), config),
        variables@.contains_key("FUNCTIONS_REQUEST_TIMEOUT"@)
            ==> variables@["FUNCTIONS_REQUEST_TIMEOUT"@] == value@,
        call_ensures(number::parse_unsigned, (value, u64::MAX), seconds),
    ensures
        variables@.contains_key("FUNCTIONS_REQUEST_TIMEOUT"@) && seconds is Some
            ==> config.timeout_seconds == seconds->0,
        !variables@.contains_key("FUNCTIONS_REQUEST_TIMEOUT"@) || seconds is None
            ==> config.timeout_seconds == 230,
{
    assert(config@ == crate::config::configured(variables@));
}

/// A configuration by default is what an environment without variables asks for.
pub proof fn law_default_settings(variables: TextMap, config: FunctionConfig, read: FunctionConfig)
    requires
        call_ensures(<FunctionConfig as Default>::default, (), config),
        call_ensures(FunctionConfig::from_env, (&variables,), read),
        forall|name: Seq<char>| !#[trigger] variables@.contains_key(name),
    ensures
        same_settings(config, read),
        config.app_name is None,
        config.function_name is None,
        config.environment@ == "Development"@,
        config.app_insights_connection is None,
        config.storage_connection is None,
        config.base_path is None,
        config.max_request_size == 104857600,
        config.timeout_seconds == 230,
{
    assert(read@ == crate::config::configured(variables@));
    assert(config@ == crate::config::default_config());
    assert(variables@ =~= Map::empty());
    lemma_same_settings(config, read);
}

/// Whether two configurations agree in every setting.
pub open spec fn same_settings(a: FunctionConfig, b: FunctionConfig) -> bool {
    &&& super::chars(a.app_name) == super::chars(b.app_name)
    &&& super::chars(a.function_name) == super::chars(b.function_name)
    &&& a.environment@ == b.environment@
    &&& super::chars(a.app_insights_connection) == super::chars(b.app_insights_connection)
    &&& super::chars(a.storage_connection) == super::chars(b.storage_connection)
    &&& super::chars(a.base_path) == super::chars(b.base_path)
    &&& a.max_request_size == b.max_request_size
    &&& a.timeout_seconds == b.timeout_seconds
}

pub(crate) proof fn lemma_same_settings(a: FunctionConfig, b: FunctionConfig)
    requires
        a@ == b@,
    ensures
        same_settings(a, b),
{
    assert(a@.app_name == b@.app_name);
    assert(a@.function_name == b@.function_name);
    assert(a@.app_insights_connection == b@.app_insights_connection);
    assert(a@.storage_connection == b@.storage_connection);
    assert(a@.base_path == b@.base_path);
}

/// Setting the base path sets it, and nothing else.
pub proof fn law_set_base_path<P: IntoText>(before: FunctionConfig, path: P, after: FunctionConfig)
    requires
        call_ensures(FunctionConfig::base_path::<P>, (before, path), after),
    ensures
        super::chars(after.base_path) == Some(path.text()),
        same_settings(after, FunctionConfig { base_path: after.base_path, ..before }),
{
    assert(after@.base_path == Some(path.text()));
    lemma_same_settings(after, FunctionConfig { base_path: after.base_path, ..before });
}

/// Setting the request size or the timeout sets it, whatever the number, and nothing else.
pub proof fn law_set_limits(
    before: FunctionConfig,
    size: usize,
    sized: FunctionConfig,
    seconds: u64,
    timed: FunctionConfig,
)
    requires
        call_ensures(FunctionConfig::max_request_size, (before, size), sized),
        call_ensures(FunctionConfig::timeout, (before, seconds), timed),
    ensures
        sized.max_request_size == size,
        timed.timeout_seconds == seconds,
        same_settings(sized, FunctionConfig { max_request_size: size, ..before }),
        same_settings(timed, FunctionConfig { timeout_seconds: seconds, ..before }),
{
    lemma_same_settings(sized, FunctionConfig { max_request_size: size, ..before });
    lemma_same_settings(timed, FunctionConfig { timeout_seconds: seconds, ..before });
}

/// A copy of a configuration has the same settings.
pub proof fn law_copied_settings(
    config: FunctionConfig,
    copy: FunctionConfig,
    whole: RuntimeConfig,
    whole_copy: RuntimeConfig,
)
    requires
        call_ensures(<FunctionConfig as Clone>::clone, (&config,), copy),
        call_ensures(<RuntimeConfig as Clone>::clone, (&whole,), whole_copy),
    ensures
        same_settings(copy, config),
        same_settings(whole_copy.function, whole.function),
        whole_copy.log_requests == whole.log_requests,
        whole_copy.log_responses == whole.log_responses,
{
    lemma_same_settings(copy, config);
    assert(whole_copy@.function == whole@.function);
    lemma_same_settings(whole_copy.function, whole.function);
    assert(whole_copy@.log_requests == whole@.log_requests);
    assert(whole_copy@.log_responses == whole@.log_responses);
}

/// The production environment is told by its name, in any case.
pub proof fn law_production(config: FunctionConfig, result: bool)
    requires
        call_ensures(FunctionConfig::is_production, (&config,), result),
    ensures
        result == super::alike(config.environment@, "production"@),
{
    super::lemma_alike(config.environment@, "production"@);
}

/// Azure Functions is told by the app name or the worker runtime, and without a configuration
/// by the worker runtime or the environment, whatever they are set to.
pub proof fn law_in_azure(config: FunctionConfig, variables: TextMap, by_config: bool, result: bool)
    requires
        call_ensures(FunctionConfig::is_azure_functions, (&config, &variables), by_config),
        call_ensures(environment::is_azure_functions, (&variables,), result),
    ensures
        by_config == (config.app_name is Some || variables@.contains_key(
            "FUNCTIONS_WORKER_RUNTIME"@,
        )),
        result == (variables@.contains_key("FUNCTIONS_WORKER_RUNTIME"@) || variables@.contains_key(
            "AZURE_FUNCTIONS_ENVIRONMENT"@,
        )),
{
    assert(config@.app_name is Some <==> config.app_name is Some);
}

/// The names that the environment gives are those of its variables.
pub proof fn law_names(
    variables: TextMap,
    app: Option<String>,
    function: Option<String>,
    invocation: Option<String>,
)
    requires
        call_ensures(environment::function_app_name, (&variables,), app),
        call_ensures(environment::function_name, (&variables,), function),
        call_ensures(environment::invocation_id, (&variables,), invocation),
    ensures
        taken_from(app, variables@, "WEBSITE_SITE_NAME"@),
        taken_from(function, variables@, "AZURE_FUNCTIONS_FUNCTION_NAME"@),
        taken_from(invocation, variables@, "AZURE_FUNCTIONS_INVOCATION_ID"@),
{
    assert(crate::text::optional(app) == crate::text_map::lookup(
        variables@,
        "WEBSITE_SITE_NAME"@,
    ));
    assert(crate::text::optional(function) == crate::text_map::lookup(
        variables@,
        "AZURE_FUNCTIONS_FUNCTION_NAME"@,
    ));
    assert(crate::text::optional(invocation) == crate::text_map::lookup(
        variables@,
        "AZURE_FUNCTIONS_INVOCATION_ID"@,
    ));
}

/// The port is the number that `FUNCTIONS_CUSTOMHANDLER_PORT` reads as, and the default where
/// the variable is missing or reads as none. Every port can be asked for.
pub proof fn law_port(variables: TextMap, port: u16, value: &str, read: Option<u64>, wanted: u16)
    requires
        call_ensures(environment::custom_handler_port, (&variables,), port),
        variables@.contains_key("FUNCTIONS_CUSTOMHANDLER_PORT"@)
            ==> variables@["FUNCTIONS_CUSTOMHANDLER_PORT"@] == value@,
        call_ensures(number::parse_unsigned, (value, 65535), read),
    ensures
        variables@.contains_key("FUNCTIONS_CUSTOMHANDLER_PORT"@) && read is Some ==> port
            == read->0,
        !variables@.contains_key("FUNCTIONS_CUSTOMHANDLER_PORT"@) || read is None ==> port == 7071,
        variables@.contains_key("FUNCTIONS_CUSTOMHANDLER_PORT"@) && value@
            == number::decimal_text(wanted as nat) ==> port == wanted,
{
    number::law_number_reads_back(wanted as nat, 65535);
}

/// A runtime is configured by the same variables; it logs requests and not responses.
pub proof fn law_runtime_settings(
    variables: TextMap,
    function: FunctionConfig,
    config: RuntimeConfig,
)
    requires
        call_ensures(FunctionConfig::from_env, (&variables,), function),
        call_ensures(RuntimeConfig::from_env, (&variables,), config),
    ensures
        same_settings(config.function, function),
        config.log_requests,
        !config.log_responses,
{
    assert(config@ == crate::runtime::configured(variables@));
    assert(config@.function == function@);
    assert(config@.log_requests == config.log_requests);
    assert(config@.log_responses == config.log_responses);
    lemma_same_settings(config.function, function);
}

/// The listed variables are all that matter: environments that agree on them are configured
/// alike.
pub proof fn law_listed_variables(
    names: Vec<&'static str>,
    a: TextMap,
    b: TextMap,
    config_a: FunctionConfig,
    config_b: FunctionConfig,
    port_a: u16,
    port_b: u16,
    in_azure_a: bool,
    in_azure_b: bool,
    invocation_a: Option<String>,
    invocation_b: Option<String>,
)
    requires
        call_ensures(environment::variable_names, (), names),
        forall|i: int|
            0 <= i < names@.len() ==> {
                let name = (#[trigger] names@[i])@;
                &&& a@.contains_key(name) <==> b@.contains_key(name)
                &&& a@.contains_key(name) ==> a@[name] == b@[name]
            },
        call_ensures(FunctionConfig::from_env, (&a,), config_a),
        call_ensures(FunctionConfig::from_env, (&b,), config_b),
        call_ensures(environment::custom_handler_port, (&a,), port_a),
        call_ensures(environment::custom_handler_port, (&b,), port_b),
        call_ensures(environment::is_azure_functions, (&a,), in_azure_a),
        call_ensures(environment::is_azure_functions, (&b,), in_azure_b),
        call_ensures(environment::invocation_id, (&a,), invocation_a),
        call_ensures(environment::invocation_id, (&b,), invocation_b),
    ensures
        same_settings(config_a, config_b),
        port_a == port_b,
        in_azure_a == in_azure_b,
        super::chars(invocation_a) == super::chars(invocation_b),
{
    let deciding = environment::deciding();
    super::lemma_texts_in(names@);
    assert(super::texts_in(names@) == deciding);
    assert(deciding[2] == "AZURE_FUNCTIONS_INVOCATION_ID"@);
    assert forall|i: int| 0 <= i < deciding.len() implies crate::text_map::lookup(
        a@,
        #[trigger] deciding[i],
    ) == crate::text_map::lookup(b@, deciding[i]) by {
        assert(super::texts_in(names@)[i] == names@[i]@);
    }
    environment::law_deciding_variables(a@, b@, arbitrary(), arbitrary());
    lemma_same_settings(config_a, config_b);
    assert(crate::text::optional(invocation_a) == crate::text::optional(invocation_b));
}

/// Each setting of a runtime configuration changes that setting and no other.
pub proof fn law_set_runtime(
    before: RuntimeConfig,
    requests: bool,
    logs_requests: RuntimeConfig,
    responses: bool,
    logs_responses: RuntimeConfig,
    function: FunctionConfig,
    replaced: RuntimeConfig,
)
    requires
        call_ensures(RuntimeConfig::log_requests, (before, requests), logs_requests),
        call_ensures(RuntimeConfig::log_responses, (before, responses), logs_responses),
        call_ensures(RuntimeConfig::function_config, (before, function), replaced),
    ensures
        logs_requests.log_requests == requests,
        logs_requests.log_responses == before.log_responses,
        same_settings(logs_requests.function, before.function),
        logs_responses.log_responses == responses,
        logs_responses.log_requests == before.log_requests,
        same_settings(logs_responses.function, before.function),
        replaced.log_requests == before.log_requests,
        replaced.log_responses == before.log_responses,
        same_settings(replaced.function, function),
{
    assert(logs_requests@.log_requests == requests && logs_requests@.log_responses
        == before.log_responses);
    assert(logs_responses@.log_responses == responses && logs_responses@.log_requests
        == before.log_requests);
    assert(replaced@.log_requests == before.log_requests && replaced@.log_responses
        == before.log_responses);
    assert(logs_requests@.function == before@.function);
    assert(logs_responses@.function == before@.function);
    assert(replaced@.function == function@);
    lemma_same_settings(logs_requests.function, before.function);
    lemma_same_settings(logs_responses.function, before.function);
    lemma_same_settings(replaced.function, function);
}

} // verus!
