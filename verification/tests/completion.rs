use plz_cli::completion::{
    classify, completion_request, read_response, CompletionOutcome, CompletionRequest,
};
use plz_cli::config::Config;
use plz_cli::failure::Fatal;
use plz_cli::json::{completion_text, error_message};
use plz_cli::prompt::OsHint;

const HINT: &str = "the request was refused; check that OPENAI_API_KEY holds a valid key";

#[test]
fn request_carries_the_fixed_parameters() {
    let config = Config {
        api_key: String::from("abc123"),
        api_base: String::from("https://api.openai.com/v1"),
        shell: String::from("/bin/bash"),
    };
    let request = completion_request(&config, "list files", OsHint::Linux);
    assert_eq!(
        request,
        CompletionRequest {
            url: String::from("https://api.openai.com/v1/completions"),
            authorization: String::from("Bearer abc123"),
            model: String::from("gpt-3.5-turbo-instruct"),
            prompt: String::from("list files (on Linux):\n```bash\n#!/bin/bash\n"),
            max_tokens: 1000,
            temperature: 0,
            top_p: 1,
            stop: String::from("```"),
            suffix: String::from("\n```"),
            presence_penalty: 0,
            frequency_penalty: 0,
        }
    );
}

#[test]
fn request_goes_to_the_configured_address() {
    let config = Config {
        api_key: String::new(),
        api_base: String::from("http://localhost:8080"),
        shell: String::new(),
    };
    let request = completion_request(&config, "", OsHint::Unknown);
    assert_eq!(request.url, "http://localhost:8080/completions");
    assert_eq!(request.authorization, "Bearer ");
    assert_eq!(request.prompt, ":\n```bash\n#!/bin/bash\n");
}

#[test]
fn classify_success_trims_the_text() {
    assert_eq!(
        classify(200, None, Some(String::from("\n  echo hi \n"))),
        Ok(CompletionOutcome::Success(String::from("echo hi")))
    );
    assert_eq!(
        classify(200, Some(String::from("ignored")), Some(String::from("ls"))),
        Ok(CompletionOutcome::Success(String::from("ls")))
    );
    assert_eq!(
        classify(200, None, Some(String::from("  "))),
        Ok(CompletionOutcome::Success(String::new()))
    );
}

#[test]
fn classify_success_without_text_is_malformed() {
    assert_eq!(classify(200, None, None), Err(Fatal::MalformedResponse));
    assert_eq!(classify(200, Some(String::from("m")), None), Err(Fatal::MalformedResponse));
}

#[test]
fn classify_client_error_takes_the_message_or_the_hint() {
    assert_eq!(
        classify(401, Some(String::from("invalid key")), None),
        Ok(CompletionOutcome::ClientError(String::from("invalid key")))
    );
    assert_eq!(classify(404, None, None), Ok(CompletionOutcome::ClientError(String::from(HINT))));
    assert_eq!(
        classify(429, Some(String::from(" slow down ")), Some(String::from("ls"))),
        Ok(CompletionOutcome::ClientError(String::from(" slow down ")))
    );
}

#[test]
fn classify_server_error_carries_the_status() {
    assert_eq!(classify(500, None, None), Ok(CompletionOutcome::ServerError(500)));
    assert_eq!(
        classify(503, Some(String::from("m")), Some(String::from("t"))),
        Ok(CompletionOutcome::ServerError(503))
    );
}

#[test]
fn classify_at_the_edges_of_the_ranges() {
    assert_eq!(
        classify(399, None, Some(String::from("a"))),
        Ok(CompletionOutcome::Success(String::from("a")))
    );
    assert_eq!(classify(400, None, None), Ok(CompletionOutcome::ClientError(String::from(HINT))));
    assert_eq!(classify(499, None, None), Ok(CompletionOutcome::ClientError(String::from(HINT))));
    assert_eq!(classify(500, None, None), Ok(CompletionOutcome::ServerError(500)));
    assert_eq!(classify(599, None, None), Ok(CompletionOutcome::ServerError(599)));
    assert_eq!(classify(600, None, None), Err(Fatal::MalformedResponse));
    assert_eq!(
        classify(0, None, Some(String::from("a"))),
        Ok(CompletionOutcome::Success(String::from("a")))
    );
    assert_eq!(
        classify(u16::MAX, None, Some(String::from("a"))),
        Ok(CompletionOutcome::Success(String::from("a")))
    );
}

#[test]
fn response_with_a_completion_gives_the_trimmed_code() {
    let body = b"{\"choices\":[{\"text\":\"echo hi\"}]}";
    assert_eq!(read_response(200, body), Ok(CompletionOutcome::Success(String::from("echo hi"))));
    let padded = b"{\"id\":\"x\",\"choices\":[{\"index\":0,\"text\":\"\\n  echo hi\\n\"}]}";
    assert_eq!(
        read_response(200, padded),
        Ok(CompletionOutcome::Success(String::from("echo hi")))
    );
}

#[test]
fn response_takes_the_first_choice() {
    let body = b"{\"choices\":[{\"text\":\"first\"},{\"text\":\"second\"}]}";
    assert_eq!(read_response(200, body), Ok(CompletionOutcome::Success(String::from("first"))));
}

#[test]
fn response_without_the_text_is_malformed() {
    let bodies: Vec<&[u8]> = vec![
        b"",
        b"not json",
        b"{}",
        b"{\"choices\":[]}",
        b"{\"choices\":{}}",
        b"{\"choices\":[{}]}",
        b"{\"choices\":[{\"text\":7}]}",
        b"{\"choices\":[{\"text\":null}]}",
        b"{\"choices\":{\"0\":{\"text\":\"echo hi\"}}}",
        b"{\"choices\":[[\"text\"]]}",
        b"{\"text\":\"echo hi\"}",
        b"[{\"text\":\"echo hi\"}]",
        b"{\"choices\":[{\"text\":\"echo hi\"}]} trailing",
    ];
    for body in bodies {
        assert_eq!(read_response(200, body), Err(Fatal::MalformedResponse), "{:?}", body);
    }
}

#[test]
fn refused_request_reports_the_message_of_the_body() {
    let body = b"{\"error\":{\"message\":\"invalid key\"}}";
    assert_eq!(
        read_response(401, body),
        Ok(CompletionOutcome::ClientError(String::from("invalid key")))
    );
}

#[test]
fn refused_request_without_a_message_reports_the_hint() {
    let bodies: Vec<&[u8]> = vec![
        b"",
        b"<html>Unauthorized</html>",
        b"{}",
        b"{\"error\":\"invalid key\"}",
        b"{\"error\":{\"message\":42}}",
        b"{\"error\":{\"code\":\"invalid_api_key\"}}",
        b"{\"message\":\"invalid key\"}",
    ];
    for body in bodies {
        assert_eq!(
            read_response(401, body),
            Ok(CompletionOutcome::ClientError(String::from(HINT))),
            "{:?}",
            body
        );
    }
}

#[test]
fn refused_request_never_yields_code() {
    let body = b"{\"choices\":[{\"text\":\"echo hi\"}],\"error\":{\"message\":\"quota\"}}";
    assert_eq!(
        read_response(429, body),
        Ok(CompletionOutcome::ClientError(String::from("quota")))
    );
}

#[test]
fn server_error_reports_the_status_whatever_the_body() {
    let body = b"{\"choices\":[{\"text\":\"echo hi\"}]}";
    assert_eq!(read_response(500, body), Ok(CompletionOutcome::ServerError(500)));
    assert_eq!(read_response(502, b"Bad Gateway"), Ok(CompletionOutcome::ServerError(502)));
}

#[test]
fn error_message_reads_the_nested_string() {
    assert_eq!(
        error_message(b"{\"error\":{\"message\":\"invalid key\",\"type\":\"auth\"}}"),
        Some(String::from("invalid key"))
    );
    assert_eq!(
        error_message(b"{\"error\":{\"message\":\"caf\\u00e9 \\\"x\\\"\"}}"),
        Some(String::from("caf\u{e9} \"x\""))
    );
    assert_eq!(error_message(b"{\"error\":{\"message\":[\"invalid key\"]}}"), None);
    assert_eq!(error_message(b"{\"error\":[{\"message\":\"invalid key\"}]}"), None);
    assert_eq!(error_message(b"\"error\""), None);
    assert_eq!(error_message(b"{\"error\":{\"message\":\"x\"}"), None);
}

#[test]
fn completion_text_reads_the_first_choice() {
    assert_eq!(
        completion_text(b"{\"choices\":[{\"text\":\" ls -la \"}]}"),
        Some(String::from(" ls -la "))
    );
    assert_eq!(
        completion_text(b"  {\"choices\" : [ {\"text\" : \"a\\nb\"} , 3 ] }  "),
        Some(String::from("a\nb"))
    );
    assert_eq!(completion_text(b"{\"choices\":[3,{\"text\":\"second\"}]}"), None);
    assert_eq!(completion_text(b"{\"choices\":[{\"Text\":\"x\"}]}"), None);
    assert_eq!(completion_text(b"\xff\xfe"), None);
}

#[test]
fn outcome_into_code() {
    assert_eq!(
        CompletionOutcome::Success(String::from("ls")).into_code(),
        Ok(String::from("ls"))
    );
    assert_eq!(
        CompletionOutcome::ClientError(String::from("no")).into_code(),
        Err(Fatal::Api(String::from("no")))
    );
    assert_eq!(CompletionOutcome::ServerError(503).into_code(), Err(Fatal::Server(503)));
}
