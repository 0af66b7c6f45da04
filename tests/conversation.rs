use rlm::{
    is_function_kind, ChatError, Conversation, FunctionCall, FunctionObject, Message, Phase, Role, Step, ToolCall,
    ToolDefinition, ToolRun, Transcript,
};

fn calc_tool() -> ToolDefinition {
    ToolDefinition {
        kind: "function".to_string(),
        function: FunctionObject {
            name: "calc".to_string(),
            description: "Evaluates an arithmetic expression".to_string(),
            parameters: serde_json::Value::Object(serde_json::Map::new()),
        },
    }
}

fn call(id: &str, kind: &str, name: &str, arguments: &str) -> ToolCall {
    ToolCall {
        id: id.to_string(),
        kind: kind.to_string(),
        function: FunctionCall { name: name.to_string(), arguments: arguments.to_string() },
    }
}

fn text_reply(text: &str) -> Message {
    Message::assistant(Some(text.to_string()), None)
}

fn calls_reply(calls: Vec<ToolCall>) -> Message {
    Message::assistant(None, Some(calls))
}

fn output(text: &str) -> ToolRun {
    ToolRun { success: true, code: Some(0), stdout: text.as_bytes().to_vec() }
}

fn start(limit: usize, tool: Option<ToolDefinition>, user: &str) -> Conversation {
    Conversation::start("test-model".to_string(), limit, tool, user.to_string(), None).unwrap()
}

#[test]
fn scenario_plain_answer() {
    let mut c = start(16384, None, "Hello");
    assert_eq!(c.phase(), Phase::AwaitingReply);
    let step = c.receive_reply(text_reply("Hi there"));
    assert_eq!(step, Step::Finished("Hi there".to_string()));
    assert_eq!(c.phase(), Phase::Finished);
    assert_eq!(c.transcript().len(), 2);
}

#[test]
fn scenario_input_over_budget() {
    let user = "a".repeat(20000);
    let r = Conversation::start("m".to_string(), 16384, None, user, None);
    assert_eq!(r.err(), Some(ChatError::BudgetExceeded(20000, 16384)));
}

#[test]
fn scenario_tool_round_trip() {
    let mut c = start(16384, Some(calc_tool()), "What's 2+2?");
    let step = c.receive_reply(calls_reply(vec![call("call_1", "function", "calc", "{\"expr\":\"2+2\"}")]));
    assert_eq!(step, Step::RunTool("{\"expr\":\"2+2\"}".to_string()));
    assert_eq!(c.phase(), Phase::RunningTool);
    let step = c.receive_tool_output(output("4"));
    assert_eq!(step, Step::SendRequest);
    let step = c.receive_reply(text_reply("The answer is 4"));
    assert_eq!(step, Step::Finished("The answer is 4".to_string()));
    let messages = c.transcript().messages();
    assert_eq!(messages.len(), 4);
    let roles: Vec<Role> = messages.iter().map(|m| m.role).collect();
    assert_eq!(roles, vec![Role::User, Role::Assistant, Role::Tool, Role::Assistant]);
    assert_eq!(messages[2].content, Some("4".to_string()));
    assert_eq!(messages[2].tool_call_id, Some("call_1".to_string()));
}

#[test]
fn scenario_unknown_function() {
    let mut c = start(16384, Some(calc_tool()), "Hi");
    let step = c.receive_reply(calls_reply(vec![call("c1", "function", "unknown_fn", "{}")]));
    assert_eq!(step, Step::Failed(ChatError::UnknownFunctionRequested("unknown_fn".to_string())));
    assert_eq!(c.phase(), Phase::Failed);
    // the reply is part of the history even though it failed the exchange
    assert_eq!(c.transcript().len(), 2);
}

#[test]
fn tool_call_without_configured_tool_fails() {
    let mut c = start(16384, None, "Hi");
    let step = c.receive_reply(calls_reply(vec![call("c1", "function", "calc", "{}")]));
    assert_eq!(step, Step::Failed(ChatError::UnknownFunctionRequested("calc".to_string())));
}

#[test]
fn total_length_sums_present_contents() {
    let mut t = Transcript::new();
    t.push(Message::user("abc".to_string()));
    t.push(calls_reply(vec![call("c1", "function", "calc", "{\"x\":1}")]));
    assert_eq!(t.total_content_length(), 3);
    t.push(Message::tool_result("c1".to_string(), "de".to_string()));
    assert_eq!(t.total_content_length(), 5);
    assert_eq!(t.len(), 3);
}

#[test]
fn total_length_counts_characters_not_bytes() {
    let mut t = Transcript::new();
    t.push(Message::user("h\u{e9}llo".to_string()));
    assert_eq!(t.total_content_length(), 5);
}

#[test]
fn empty_input_fails_whatever_the_limit() {
    for limit in [0usize, 1, 16384, usize::MAX] {
        let r = Conversation::start("m".to_string(), limit, None, String::new(), None);
        assert_eq!(r.err(), Some(ChatError::EmptyInput));
        let r = Conversation::start("m".to_string(), limit, None, String::new(), Some(String::new()));
        assert_eq!(r.err(), Some(ChatError::EmptyInput));
    }
    let t = Transcript::new();
    assert_eq!(t.check(5), Err(ChatError::EmptyInput));
}

#[test]
fn input_at_the_limit_passes_one_over_fails() {
    let r = Conversation::start("m".to_string(), 10, None, "0123456789".to_string(), None);
    assert!(r.is_ok());
    let r = Conversation::start("m".to_string(), 10, None, "0123456789a".to_string(), None);
    assert_eq!(r.err(), Some(ChatError::BudgetExceeded(11, 10)));
}

#[test]
fn system_message_counts_toward_the_limit() {
    let r = Conversation::start(
        "m".to_string(),
        10,
        None,
        "hello".to_string(),
        Some("system".to_string()),
    );
    assert_eq!(r.err(), Some(ChatError::BudgetExceeded(11, 10)));
    let c = Conversation::start(
        "m".to_string(),
        11,
        None,
        "hello".to_string(),
        Some("system".to_string()),
    )
    .unwrap();
    let messages = c.transcript().messages();
    assert_eq!(messages[0].role, Role::User);
    assert_eq!(messages[1].role, Role::System);
    assert_eq!(messages[1].content, Some("system".to_string()));
    assert_eq!(c.transcript().total_content_length(), 11);
    assert_eq!(c.limit(), 11);
    assert_eq!(c.model(), "m");
}

#[test]
fn reply_with_calls_never_finishes() {
    let mut c = start(100, Some(calc_tool()), "Hi");
    let reply = Message::assistant(
        Some("let me compute".to_string()),
        Some(vec![call("c1", "function", "calc", "1+1")]),
    );
    let step = c.receive_reply(reply);
    assert_eq!(step, Step::RunTool("1+1".to_string()));
}

#[test]
fn reply_with_empty_calls_and_content_finishes() {
    let mut c = start(100, Some(calc_tool()), "Hi");
    let step = c.receive_reply(Message::assistant(Some("done".to_string()), Some(Vec::new())));
    assert_eq!(step, Step::Finished("done".to_string()));
}

#[test]
fn reply_without_content_or_calls_fails() {
    let mut c = start(100, None, "Hi");
    let step = c.receive_reply(Message::assistant(None, None));
    assert_eq!(step, Step::Failed(ChatError::EmptyModelReply));
    let mut c = start(100, None, "Hi");
    let step = c.receive_reply(Message::assistant(None, Some(Vec::new())));
    assert_eq!(step, Step::Failed(ChatError::EmptyModelReply));
}

#[test]
fn final_answer_over_budget_fails() {
    let mut c = start(10, None, "Hello");
    let step = c.receive_reply(text_reply("Hi there"));
    assert_eq!(step, Step::Failed(ChatError::BudgetExceeded(13, 10)));
    assert_eq!(c.transcript().len(), 2);
}

#[test]
fn tool_results_follow_call_order() {
    let mut c = start(100, Some(calc_tool()), "Hi");
    let reply = calls_reply(vec![
        call("first", "function", "calc", "a"),
        call("second", "function", "calc", "b"),
    ]);
    assert_eq!(c.receive_reply(reply), Step::RunTool("a".to_string()));
    assert_eq!(c.receive_tool_output(output("ra")), Step::RunTool("b".to_string()));
    assert_eq!(c.receive_tool_output(output("rb")), Step::SendRequest);
    let messages = c.transcript().messages();
    assert_eq!(messages.len(), 4);
    assert_eq!(messages[2].tool_call_id, Some("first".to_string()));
    assert_eq!(messages[2].content, Some("ra".to_string()));
    assert_eq!(messages[3].tool_call_id, Some("second".to_string()));
    assert_eq!(messages[3].content, Some("rb".to_string()));
}

#[test]
fn calls_of_other_kinds_are_skipped() {
    let mut c = start(100, Some(calc_tool()), "Hi");
    let reply = calls_reply(vec![
        call("x", "retrieval", "search", "q"),
        call("y", "function", "calc", "2*3"),
        call("z", "retrieval", "search", "r"),
    ]);
    assert_eq!(c.receive_reply(reply), Step::RunTool("2*3".to_string()));
    assert_eq!(c.receive_tool_output(output("6")), Step::SendRequest);
    assert_eq!(c.transcript().len(), 3);
    assert_eq!(c.transcript().messages()[2].tool_call_id, Some("y".to_string()));
}

#[test]
fn reply_with_only_other_kinds_asks_again() {
    let mut c = start(100, Some(calc_tool()), "Hi");
    let step = c.receive_reply(calls_reply(vec![call("x", "retrieval", "search", "q")]));
    assert_eq!(step, Step::SendRequest);
    assert_eq!(c.phase(), Phase::AwaitingReply);
}

#[test]
fn tool_output_over_budget_is_not_appended() {
    let mut c = start(10, Some(calc_tool()), "Hello");
    assert_eq!(
        c.receive_reply(calls_reply(vec![call("c1", "function", "calc", "x")])),
        Step::RunTool("x".to_string())
    );
    let step = c.receive_tool_output(output("123456"));
    assert_eq!(step, Step::Failed(ChatError::BudgetExceeded(11, 10)));
    assert_eq!(c.transcript().len(), 2);
}

#[test]
fn tool_output_at_budget_is_appended() {
    let mut c = start(10, Some(calc_tool()), "Hello");
    c.receive_reply(calls_reply(vec![call("c1", "function", "calc", "x")]));
    assert_eq!(c.receive_tool_output(output("12345")), Step::SendRequest);
    assert_eq!(c.transcript().total_content_length(), 10);
}

#[test]
fn failing_tool_fails_the_exchange() {
    let mut c = start(100, Some(calc_tool()), "Hi");
    c.receive_reply(calls_reply(vec![call("c1", "function", "calc", "x")]));
    let run = ToolRun { success: false, code: Some(2), stdout: b"partial".to_vec() };
    assert_eq!(c.receive_tool_output(run), Step::Failed(ChatError::ToolExecutionFailed(Some(2))));
    assert_eq!(c.phase(), Phase::Failed);
}

#[test]
fn tool_output_that_is_not_text_fails() {
    let mut c = start(100, Some(calc_tool()), "Hi");
    c.receive_reply(calls_reply(vec![call("c1", "function", "calc", "x")]));
    let run = ToolRun { success: true, code: Some(0), stdout: vec![0x66, 0xff, 0xfe] };
    assert_eq!(c.receive_tool_output(run), Step::Failed(ChatError::ToolOutputNotText));
}

#[test]
fn tool_output_is_decoded_as_utf8() {
    let run = ToolRun { success: true, code: Some(0), stdout: vec![0xc3, 0xa9, 0x21] };
    assert_eq!(run.output_text(), Ok("\u{e9}!".to_string()));
    let run = ToolRun { success: true, code: None, stdout: Vec::new() };
    assert_eq!(run.output_text(), Ok(String::new()));
    let run = ToolRun { success: false, code: None, stdout: Vec::new() };
    assert_eq!(run.output_text(), Err(ChatError::ToolExecutionFailed(None)));
}

#[test]
fn response_with_error_status_gives_api_error() {
    let r = Message::from_response(429, "slow down".to_string(), None);
    assert_eq!(r, Err(ChatError::ApiError(429, "slow down".to_string())));
    let r = Message::from_response(500, "oops".to_string(), Some(vec![text_reply("x")]));
    assert_eq!(r, Err(ChatError::ApiError(500, "oops".to_string())));
}

#[test]
fn undecodable_response_is_malformed() {
    let r = Message::from_response(200, "not json".to_string(), None);
    assert_eq!(r, Err(ChatError::MalformedResponse("not json".to_string())));
}

#[test]
fn response_without_choices_fails() {
    let r = Message::from_response(200, "{\"choices\":[]}".to_string(), Some(Vec::new()));
    assert_eq!(r, Err(ChatError::NoChoicesReturned));
}

#[test]
fn response_gives_first_choice() {
    let r = Message::from_response(200, "{}".to_string(), Some(vec![text_reply("one"), text_reply("two")]));
    assert_eq!(r, Ok(text_reply("one")));
}

#[test]
fn message_constructors_set_roles() {
    let m = Message::user("u".to_string());
    assert_eq!((m.role, m.content_length()), (Role::User, 1));
    let m = Message::system("sys".to_string());
    assert_eq!((m.role, m.content_length()), (Role::System, 3));
    let m = Message::tool_result("id".to_string(), "out".to_string());
    assert_eq!(m.role, Role::Tool);
    assert_eq!(m.tool_call_id, Some("id".to_string()));
    let m = calls_reply(vec![call("c", "function", "calc", "{}")]);
    assert_eq!((m.role, m.content_length()), (Role::Assistant, 0));
}

#[test]
fn tool_is_kept() {
    let c = start(100, Some(calc_tool()), "Hi");
    assert_eq!(c.tool().as_ref().map(|t| t.function.name.clone()), Some("calc".to_string()));
}

#[test]
fn only_function_kind_is_run() {
    assert!(is_function_kind(&"function".to_string()));
    assert!(!is_function_kind(&"retrieval".to_string()));
    assert!(!is_function_kind(&"Function".to_string()));
    assert!(!is_function_kind(&String::new()));
}
