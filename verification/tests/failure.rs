use plz_cli::execute::ExecutionResult;
use plz_cli::failure::Fatal;

fn every_failure() -> Vec<Fatal> {
    vec![
        Fatal::MissingCredential,
        Fatal::Transport,
        Fatal::Api(String::from("invalid key")),
        Fatal::Server(503),
        Fatal::MalformedResponse,
        Fatal::InputClosed,
        Fatal::SpawnFailed,
        Fatal::CommandFailed,
        Fatal::OutOfTurn,
    ]
}

#[test]
fn every_failure_exits_with_one() {
    for failure in every_failure() {
        assert_eq!(failure.exit_code(), 1, "{:?}", failure);
    }
}

#[test]
fn every_failure_has_a_message() {
    for failure in every_failure() {
        assert!(!failure.message().is_empty(), "{:?}", failure);
    }
}

#[test]
fn messages_of_failures() {
    assert_eq!(
        Fatal::MissingCredential.message(),
        "This program requires an OpenAI API key to run. Please set the OPENAI_API_KEY environment variable."
    );
    assert_eq!(
        Fatal::Transport.message(),
        "Failed to get a response from the completion endpoint."
    );
    assert_eq!(Fatal::Api(String::from("invalid key")).message(), "API error: \"invalid key\"");
    assert_eq!(Fatal::Api(String::new()).message(), "API error: \"\"");
    assert_eq!(
        Fatal::Server(500).message(),
        "OpenAI is currently experiencing problems. Status code: 500"
    );
    assert_eq!(
        Fatal::Server(599).message(),
        "OpenAI is currently experiencing problems. Status code: 599"
    );
    assert_eq!(Fatal::MalformedResponse.message(), "The response holds no generated command.");
    assert_eq!(Fatal::InputClosed.message(), "Couldn't ask question.");
    assert_eq!(Fatal::SpawnFailed.message(), "Failed to execute the generated program.");
    assert_eq!(Fatal::CommandFailed.message(), "The program threw an error.");
    assert_eq!(
        Fatal::OutOfTurn.message(),
        "The run was handed an event it was not waiting for."
    );
}

#[test]
fn execution_succeeds_on_status_zero_only() {
    let result = |status: Option<i32>| ExecutionResult {
        status,
        stdout: Vec::new(),
        stderr: Vec::new(),
    };
    assert!(result(Some(0)).success());
    assert!(!result(Some(1)).success());
    assert!(!result(Some(3)).success());
    assert!(!result(Some(-1)).success());
    assert!(!result(Some(i32::MIN)).success());
    assert!(!result(None).success());
}
