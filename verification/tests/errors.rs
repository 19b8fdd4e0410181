use axum::body::to_bytes;
use futures::executor::block_on;
use weatherwax::ai::types::Role;
use weatherwax::error::Error;

fn all() -> Vec<Error> {
    vec![
        Error::IOError("broken pipe".to_string()),
        Error::AxumError("cannot frame".to_string()),
        Error::RequestDecodingError("expected value at line 1".to_string()),
        Error::NoModelAvailableError,
        Error::ModelNotFoundError("missing::code".to_string()),
        Error::OpenAIConversionError("No role in OAI message".to_string()),
        Error::OpenAIError("stream failed: reset".to_string()),
    ]
}

#[test]
fn status_codes_follow_the_taxonomy() {
    let codes: Vec<u16> = all().iter().map(|e| e.status_code()).collect();
    assert_eq!(codes, vec![500, 500, 400, 404, 404, 500, 500]);
}

#[test]
fn response_bodies_name_the_kind_only() {
    let bodies: Vec<&str> = all().iter().map(|e| e.reason()).collect();
    assert_eq!(
        bodies,
        vec![
            "Internal Server Error",
            "Internal Server Error",
            "Bad Request",
            "No model available",
            "Model not found",
            "Internal Server Error",
            "Internal Server Error",
        ]
    );
}

#[test]
fn messages_describe_the_failure() {
    let texts: Vec<String> = all().iter().map(|e| e.message()).collect();
    assert_eq!(
        texts,
        vec![
            "broken pipe".to_string(),
            "cannot frame".to_string(),
            "Invalid request body: expected value at line 1".to_string(),
            "No model available".to_string(),
            "Model missing::code not found".to_string(),
            "OpenAI API conversion error: No role in OAI message".to_string(),
            "stream failed: reset".to_string(),
        ]
    );
}

#[test]
fn message_of_an_empty_code() {
    assert_eq!(Error::ModelNotFoundError(String::new()).message(), "Model  not found");
}

#[test]
fn roles_are_written_in_lower_case() {
    assert_eq!(Role::System.as_str(), "system");
    assert_eq!(Role::User.as_str(), "user");
    assert_eq!(Role::Assistant.as_str(), "assistant");
    assert_eq!(Role::Function.as_str(), "function");
}

#[test]
fn roles_are_read_by_name() {
    assert_eq!(Role::parse(&"system".to_string()), Some(Role::System));
    assert_eq!(Role::parse(&"user".to_string()), Some(Role::User));
    assert_eq!(Role::parse(&"assistant".to_string()), Some(Role::Assistant));
    assert_eq!(Role::parse(&"function".to_string()), Some(Role::Function));
}

#[test]
fn tool_is_another_name_of_function() {
    assert_eq!(Role::parse(&"tool".to_string()), Some(Role::Function));
}

#[test]
fn other_names_are_no_role() {
    for name in ["", "System", "USER", "tools", "bot", " user"] {
        assert_eq!(Role::parse(&name.to_string()), None);
    }
}

#[test]
fn a_written_role_is_read_back() {
    for role in [Role::System, Role::User, Role::Assistant, Role::Function] {
        assert_eq!(Role::parse(&role.as_str().to_string()), Some(role));
    }
}

#[test]
fn responses_carry_the_status_and_the_body() {
    let expected: Vec<(u16, &str)> = vec![
        (500, "Internal Server Error"),
        (500, "Internal Server Error"),
        (400, "Bad Request"),
        (404, "No model available"),
        (404, "Model not found"),
        (500, "Internal Server Error"),
        (500, "Internal Server Error"),
    ];
    for (error, (status, body)) in all().into_iter().zip(expected) {
        let response = error.into_response();
        assert_eq!(response.status().as_u16(), status);
        assert!(response.headers().is_empty());
        let bytes = block_on(to_bytes(response.into_body(), 1024)).expect("the body is in memory");
        assert_eq!(&bytes[..], body.as_bytes());
    }
}
