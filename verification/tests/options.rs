use gradio_macro::options::{
    pair_credentials, parse_convention, resolve_options, Argument, CallingConvention, ConfigError,
    GenerationOptions,
};

fn text(name: &str, value: &str) -> Argument {
    Argument::Text { name: Some(name.to_string()), value: value.to_string() }
}

#[test]
fn full_declaration_resolves() {
    let args = vec![
        text("url", "hf-audio/whisper-large-v3-turbo"),
        text("option", "async"),
        text("hf_token", "t0ken"),
        text("auth_username", "user"),
        text("auth_password", "pass"),
    ];
    assert_eq!(
        resolve_options(&args),
        Ok(GenerationOptions {
            endpoint: "hf-audio/whisper-large-v3-turbo".to_string(),
            calling_convention: CallingConvention::Async,
            credential_token: Some("t0ken".to_string()),
            basic_auth: Some(("user".to_string(), "pass".to_string())),
        })
    );
}

#[test]
fn minimal_declaration_resolves() {
    let args = vec![text("url", "owner/project"), text("option", "sync")];
    assert_eq!(
        resolve_options(&args),
        Ok(GenerationOptions {
            endpoint: "owner/project".to_string(),
            calling_convention: CallingConvention::Sync,
            credential_token: None,
            basic_auth: None,
        })
    );
}

#[test]
fn missing_endpoint_is_refused() {
    assert_eq!(resolve_options(&vec![text("option", "sync")]), Err(ConfigError::MissingEndpoint));
    assert_eq!(resolve_options(&Vec::new()), Err(ConfigError::MissingEndpoint));
}

#[test]
fn missing_calling_convention_is_refused() {
    assert_eq!(
        resolve_options(&vec![text("url", "owner/project")]),
        Err(ConfigError::MissingCallingConvention)
    );
}

#[test]
fn user_name_without_password_is_refused() {
    let args = vec![text("url", "owner/project"), text("option", "sync"), text("auth_username", "u")];
    assert_eq!(resolve_options(&args), Err(ConfigError::PartialCredentials));
}

#[test]
fn password_without_user_name_is_refused() {
    let args = vec![text("url", "owner/project"), text("option", "sync"), text("auth_password", "p")];
    assert_eq!(resolve_options(&args), Err(ConfigError::PartialCredentials));
}

#[test]
fn refusals_come_in_order() {
    // no endpoint and half a pair: the endpoint is asked for first
    assert_eq!(
        resolve_options(&vec![text("auth_username", "u")]),
        Err(ConfigError::MissingEndpoint)
    );
    // half a pair and no calling convention: the pair is looked at first
    assert_eq!(
        resolve_options(&vec![text("url", "x/y"), text("auth_password", "p")]),
        Err(ConfigError::PartialCredentials)
    );
}

#[test]
fn the_last_value_of_a_key_counts() {
    let args = vec![
        text("url", "first/one"),
        text("option", "sync"),
        text("url", "second/one"),
        text("option", "async"),
    ];
    let options = resolve_options(&args).unwrap();
    assert_eq!(options.endpoint, "second/one");
    assert_eq!(options.calling_convention, CallingConvention::Async);
}

#[test]
fn other_arguments_are_passed_over() {
    let args = vec![
        Argument::Other,
        text("colour", "blue"),
        Argument::Text { name: None, value: "sync".to_string() },
        text("url", "owner/project"),
        Argument::Other,
        text("option", "sync"),
    ];
    let options = resolve_options(&args).unwrap();
    assert_eq!(options.endpoint, "owner/project");
    assert_eq!(options.calling_convention, CallingConvention::Sync);
    assert_eq!(options.credential_token, None);
}

#[test]
fn only_sync_names_the_blocking_convention() {
    assert_eq!(parse_convention(&"sync".to_string()), CallingConvention::Sync);
    assert_eq!(parse_convention(&"async".to_string()), CallingConvention::Async);
    assert_eq!(parse_convention(&"Sync".to_string()), CallingConvention::Async);
    assert_eq!(parse_convention(&"".to_string()), CallingConvention::Async);
}

#[test]
fn credentials_are_paired() {
    assert_eq!(pair_credentials(None, None), Ok(None));
    assert_eq!(
        pair_credentials(Some("u".to_string()), Some("p".to_string())),
        Ok(Some(("u".to_string(), "p".to_string())))
    );
    assert_eq!(pair_credentials(Some("u".to_string()), None), Err(ConfigError::PartialCredentials));
    assert_eq!(pair_credentials(None, Some("p".to_string())), Err(ConfigError::PartialCredentials));
}

#[test]
fn refusals_have_their_messages() {
    assert_eq!(ConfigError::MissingEndpoint.message(), "url is required");
    assert_eq!(
        ConfigError::PartialCredentials.message(),
        "Both login and password must be present!"
    );
    assert_eq!(ConfigError::MissingCallingConvention.message(), "option is required");
}
