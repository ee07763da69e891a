use armature_azure_functions::environment::variable_names;
use armature_azure_functions::{
    custom_handler_port, function_app_name, function_name, invocation_id, is_azure_functions,
    AzureFunctionsError, FunctionConfig, RuntimeConfig, TextMap,
};

fn variables(pairs: &[(&str, &str)]) -> TextMap {
    let mut map = TextMap::new();
    for (name, value) in pairs {
        map.insert(*name, *value);
    }
    map
}

#[test]
fn empty_environment_gives_the_defaults() {
    let config = FunctionConfig::from_env(&TextMap::new());
    assert_eq!(config.app_name, None);
    assert_eq!(config.function_name, None);
    assert_eq!(config.environment, "Development");
    assert_eq!(config.app_insights_connection, None);
    assert_eq!(config.storage_connection, None);
    assert_eq!(config.base_path, None);
    assert_eq!(config.max_request_size, 100 * 1024 * 1024);
    assert_eq!(config.timeout_seconds, 230);

    let default = FunctionConfig::default();
    assert_eq!(default.environment, "Development");
    assert_eq!(default.max_request_size, 104857600);
    assert_eq!(default.timeout_seconds, 230);
}

#[test]
fn variables_set_the_configuration() {
    let config = FunctionConfig::from_env(&variables(&[
        ("WEBSITE_SITE_NAME", "site"),
        ("AZURE_FUNCTIONS_FUNCTION_NAME", "func"),
        ("AZURE_FUNCTIONS_ENVIRONMENT", "Production"),
        ("APPLICATIONINSIGHTS_CONNECTION_STRING", "insights"),
        ("AzureWebJobsStorage", "storage"),
        ("FUNCTION_BASE_PATH", "/api"),
        ("MAX_REQUEST_SIZE", "1024"),
        ("FUNCTIONS_REQUEST_TIMEOUT", "+15"),
    ]));
    assert_eq!(config.app_name.as_deref(), Some("site"));
    assert_eq!(config.function_name.as_deref(), Some("func"));
    assert!(config.is_production());
    assert_eq!(config.app_insights_connection.as_deref(), Some("insights"));
    assert_eq!(config.storage_connection.as_deref(), Some("storage"));
    assert_eq!(config.base_path.as_deref(), Some("/api"));
    assert_eq!(config.max_request_size, 1024);
    assert_eq!(config.timeout_seconds, 15);
}

#[test]
fn numbers_that_do_not_parse_are_ignored() {
    for value in ["", "+", "-1", "1.5", " 1", "1 ", "0x10", "18446744073709551616", "١"] {
        assert!(value.parse::<u64>().is_err());
        let config = FunctionConfig::from_env(&variables(&[
            ("MAX_REQUEST_SIZE", value),
            ("FUNCTIONS_REQUEST_TIMEOUT", value),
        ]));
        assert_eq!(config.max_request_size, 104857600);
        assert_eq!(config.timeout_seconds, 230);
    }
    for value in ["0", "007", "+0", "18446744073709551615", "000000000000000000000000000012"] {
        let config = FunctionConfig::from_env(&variables(&[("FUNCTIONS_REQUEST_TIMEOUT", value)]));
        assert_eq!(config.timeout_seconds, value.parse::<u64>().unwrap());
    }
}

#[test]
fn builders_set_one_thing_each() {
    let config = FunctionConfig::default()
        .base_path("/v1")
        .max_request_size(5)
        .timeout(9);
    assert_eq!(config.base_path.as_deref(), Some("/v1"));
    assert_eq!(config.max_request_size, 5);
    assert_eq!(config.timeout_seconds, 9);
    assert_eq!(config.environment, "Development");
    assert!(!config.is_production());
    assert_eq!(config.clone().base_path, config.base_path);

    let runtime = RuntimeConfig::from_env(&TextMap::new());
    assert!(runtime.log_requests);
    assert!(!runtime.log_responses);
    let runtime = runtime
        .log_requests(false)
        .log_responses(true)
        .function_config(config);
    assert!(!runtime.log_requests);
    assert!(runtime.log_responses);
    assert_eq!(runtime.function.timeout_seconds, 9);
}

#[test]
fn production_is_recognized_in_any_case() {
    let mut config = FunctionConfig::default();
    for name in ["production", "Production", "PRODUCTION"] {
        config.environment = name.to_string();
        assert!(config.is_production());
    }
    config.environment = "Productions".to_string();
    assert!(!config.is_production());
}

#[test]
fn azure_functions_is_recognized_by_its_variables() {
    assert!(!is_azure_functions(&TextMap::new()));
    assert!(is_azure_functions(&variables(&[("FUNCTIONS_WORKER_RUNTIME", "custom")])));
    assert!(is_azure_functions(&variables(&[("AZURE_FUNCTIONS_ENVIRONMENT", "")])));

    let empty = TextMap::new();
    let mut config = FunctionConfig::default();
    assert!(!config.is_azure_functions(&empty));
    assert!(config.is_azure_functions(&variables(&[("FUNCTIONS_WORKER_RUNTIME", "")])));
    assert!(!config.is_azure_functions(&variables(&[("AZURE_FUNCTIONS_ENVIRONMENT", "x")])));
    config.app_name = Some("site".to_string());
    assert!(config.is_azure_functions(&empty));
}

#[test]
fn names_come_from_the_environment() {
    let env = variables(&[
        ("WEBSITE_SITE_NAME", "site"),
        ("AZURE_FUNCTIONS_FUNCTION_NAME", "func"),
        ("AZURE_FUNCTIONS_INVOCATION_ID", "inv"),
    ]);
    assert_eq!(function_app_name(&env).as_deref(), Some("site"));
    assert_eq!(function_name(&env).as_deref(), Some("func"));
    assert_eq!(invocation_id(&env).as_deref(), Some("inv"));
    assert_eq!(invocation_id(&TextMap::new()), None);
    assert_eq!(variable_names().len(), 11);
}

#[test]
fn port_defaults_to_7071() {
    assert_eq!(custom_handler_port(&TextMap::new()), 7071);
    let port = |value: &str| custom_handler_port(&variables(&[("FUNCTIONS_CUSTOMHANDLER_PORT", value)]));
    assert_eq!(port("8080"), 8080);
    assert_eq!(port("65535"), 65535);
    assert_eq!(port("65536"), 7071);
    assert_eq!(port("http"), 7071);
}

#[test]
fn error_messages_name_their_kind() {
    let text = || "it broke".to_string();
    for (error, message) in [
        (AzureFunctionsError::Application(text()), "Application error: it broke"),
        (AzureFunctionsError::Request(text()), "Request conversion error: it broke"),
        (AzureFunctionsError::Response(text()), "Response conversion error: it broke"),
        (AzureFunctionsError::Config(text()), "Configuration error: it broke"),
        (AzureFunctionsError::Runtime(text()), "Runtime error: it broke"),
        (AzureFunctionsError::Binding(text()), "Binding error: it broke"),
    ] {
        assert_eq!(error.to_string(), message);
    }
}
