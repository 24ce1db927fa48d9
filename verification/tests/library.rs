use query_db_invoke_agent::bedrock::{
    model_request, BedrockConverseStreamError, ConverseStreamErrorKind,
    ConverseStreamOutputErrorKind, MessageRole, MODEL_REGION,
};
use query_db_invoke_agent::dynamo::{
    address_from_items, address_query, AttributeValue, Item, NAME_INDEX, TABLE_NAME,
};
use query_db_invoke_agent::extract_name;
use query_db_invoke_agent::handler::{
    augmented_message, customer_query, outgoing_message, IncomingMessage,
};
use query_db_invoke_agent::stream::{
    collect_stream, get_converse_output_text, stream_step, ContentDelta, ConverseStreamOutput,
    StreamEvent, StreamOutcome, StreamStep,
};

fn text_of(v: &AttributeValue) -> Option<String> {
    match v {
        AttributeValue::S(s) => Some(s.clone()),
        AttributeValue::Other => None,
    }
}

fn item_with(entries: &[(&str, AttributeValue)]) -> Item {
    let mut item = Item::new();
    for (k, v) in entries {
        let v = match v {
            AttributeValue::S(s) => AttributeValue::S(s.clone()),
            AttributeValue::Other => AttributeValue::Other,
        };
        item.insert(k.to_string(), v);
    }
    item
}

#[test]
fn name_between_brackets() {
    assert_eq!(extract_name("Where does [John Doe] live?"), "John Doe");
}

#[test]
fn name_missing_gives_empty() {
    assert_eq!(extract_name("test"), "");
    assert_eq!(extract_name(""), "");
    assert_eq!(extract_name("open [ but never closed"), "");
    assert_eq!(extract_name("closed ] without open"), "");
}

#[test]
fn name_empty_brackets() {
    assert_eq!(extract_name("who is []?"), "");
}

#[test]
fn name_first_pair_wins() {
    assert_eq!(extract_name("[Ann] and [Bob]"), "Ann");
}

#[test]
fn name_stops_at_first_closing_bracket() {
    assert_eq!(extract_name("x[a[b]c]"), "a[b");
}

#[test]
fn name_not_across_lines() {
    assert_eq!(extract_name("[broken\nline] then [Cara]"), "Cara");
    assert_eq!(extract_name("[broken\nline]"), "");
}

#[test]
fn name_unicode() {
    assert_eq!(extract_name("[Zoë Ångström] asks"), "Zoë Ångström");
}

#[test]
fn item_insert_and_get() {
    let mut item = Item::new();
    assert!(item.get(&"address".to_string()).is_none());
    item.insert("address".to_string(), AttributeValue::S("123 Main St".to_string()));
    item.insert("name".to_string(), AttributeValue::S("John Doe".to_string()));
    let got = item.get(&"address".to_string()).unwrap();
    assert_eq!(text_of(got), Some("123 Main St".to_string()));
    item.insert("address".to_string(), AttributeValue::S("9 Elm Rd".to_string()));
    assert_eq!(text_of(item.get(&"address".to_string()).unwrap()), Some("9 Elm Rd".to_string()));
    assert_eq!(text_of(item.get(&"name".to_string()).unwrap()), Some("John Doe".to_string()));
    assert!(item.get(&"phone".to_string()).is_none());
}

#[test]
fn attribute_as_s() {
    let s = AttributeValue::S("abc".to_string());
    assert_eq!(s.as_s().unwrap(), "abc");
    assert!(AttributeValue::Other.as_s().is_err());
}

#[test]
fn address_from_first_item() {
    let items = vec![
        item_with(&[("address", AttributeValue::S("123 Main St".to_string()))]),
        item_with(&[("address", AttributeValue::S("elsewhere".to_string()))]),
    ];
    assert_eq!(address_from_items(Some(items)), "123 Main St");
}

#[test]
fn address_missing_cases() {
    assert_eq!(address_from_items(None), "");
    assert_eq!(address_from_items(Some(Vec::new())), "");
    let no_attr = vec![item_with(&[("name", AttributeValue::S("John".to_string()))])];
    assert_eq!(address_from_items(Some(no_attr)), "");
    let not_string = vec![item_with(&[("address", AttributeValue::Other)])];
    assert_eq!(address_from_items(Some(not_string)), "");
    let second_only = vec![
        item_with(&[]),
        item_with(&[("address", AttributeValue::S("late".to_string()))]),
    ];
    assert_eq!(address_from_items(Some(second_only)), "");
}

#[test]
fn query_fields() {
    let q = address_query("customers".to_string(), "John Doe".to_string());
    assert_eq!(q.table_name, "customers");
    assert_eq!(q.index_name, "name_index");
    assert_eq!(q.key_condition_expression, "#nm = :name");
    assert_eq!(q.name_placeholder, "#nm");
    assert_eq!(q.name_attribute, "name");
    assert_eq!(q.value_placeholder, ":name");
    assert_eq!(text_of(&q.value), Some("John Doe".to_string()));
    assert_eq!(q.projection_expression, "address");
    assert_eq!(TABLE_NAME, "customers");
    assert_eq!(NAME_INDEX, "name_index");
}

#[test]
fn query_for_command() {
    let q = customer_query("Where does [John Doe] live?");
    assert_eq!(q.table_name, "customers");
    assert_eq!(text_of(&q.value), Some("John Doe".to_string()));
    let q = customer_query("test");
    assert_eq!(text_of(&q.value), Some(String::new()));
}

#[test]
fn start_error_reasons() {
    let e = BedrockConverseStreamError::from_stream_error(&ConverseStreamErrorKind::ModelTimeoutException);
    assert_eq!(e.0, "Model took too long");
    let e = BedrockConverseStreamError::from_stream_error(&ConverseStreamErrorKind::ModelNotReadyException);
    assert_eq!(e.0, "Model is not ready");
    let e = BedrockConverseStreamError::from_stream_error(&ConverseStreamErrorKind::Other);
    assert_eq!(e.0, "Unknown");
}

#[test]
fn output_error_reasons() {
    let k = ConverseStreamOutputErrorKind::ValidationException(Some("bad input".to_string()));
    assert_eq!(BedrockConverseStreamError::from_stream_output_error(&k).0, "bad input");
    let k = ConverseStreamOutputErrorKind::ValidationException(None);
    assert_eq!(BedrockConverseStreamError::from_stream_output_error(&k).0, "Unknown ValidationException");
    let k = ConverseStreamOutputErrorKind::ThrottlingException(Some("slow down".to_string()));
    assert_eq!(BedrockConverseStreamError::from_stream_output_error(&k).0, "slow down");
    let k = ConverseStreamOutputErrorKind::ThrottlingException(None);
    assert_eq!(BedrockConverseStreamError::from_stream_output_error(&k).0, "Unknown ThrottlingException");
    let k = ConverseStreamOutputErrorKind::Other(Some("boom".to_string()));
    assert_eq!(BedrockConverseStreamError::from_stream_output_error(&k).0, "boom");
    let k = ConverseStreamOutputErrorKind::Other(None);
    assert_eq!(BedrockConverseStreamError::from_stream_output_error(&k).0, "Unknown StreamOutput exception");
}

#[test]
fn receive_error_reasons() {
    assert_eq!(BedrockConverseStreamError::from_receive_error(&None).0, "Unknown error receiving stream");
    let k = Some(ConverseStreamOutputErrorKind::ThrottlingException(None));
    assert_eq!(BedrockConverseStreamError::from_receive_error(&k).0, "Unknown ThrottlingException");
}

#[test]
fn error_from_reason_and_display() {
    let e = BedrockConverseStreamError::from_reason("failed to build message");
    assert_eq!(e.0, "failed to build message");
    assert_eq!(
        e.display_message("example.text-model-v1"),
        "Can't invoke 'example.text-model-v1'. Reason: failed to build message"
    );
    assert_eq!(MODEL_REGION, "eu-central-1");
}

#[test]
fn output_text_of_events() {
    let t = get_converse_output_text(ConverseStreamOutput::ContentBlockDelta(Some(ContentDelta::Text("Hello".to_string()))));
    assert_eq!(t.unwrap(), "Hello");
    let t = get_converse_output_text(ConverseStreamOutput::ContentBlockDelta(Some(ContentDelta::Other)));
    assert_eq!(t.unwrap(), "");
    let t = get_converse_output_text(ConverseStreamOutput::ContentBlockDelta(None));
    assert_eq!(t.unwrap(), "");
    let t = get_converse_output_text(ConverseStreamOutput::Other);
    assert_eq!(t.unwrap(), "");
}

fn chunk(s: &str) -> StreamEvent {
    StreamEvent::Received(ConverseStreamOutput::ContentBlockDelta(Some(ContentDelta::Text(s.to_string()))))
}

#[test]
fn stream_collects_answer() {
    let mut text = String::new();
    let events = vec![
        StreamEvent::Received(ConverseStreamOutput::Other),
        chunk("He lives "),
        chunk("at 123 Main St"),
        StreamEvent::Received(ConverseStreamOutput::ContentBlockDelta(None)),
    ];
    let mut pieces = Vec::new();
    for e in events {
        match stream_step(&mut text, e) {
            StreamStep::Continue(p) => pieces.push(p),
            _ => panic!("unexpected stop"),
        }
    }
    assert_eq!(pieces, vec!["", "He lives ", "at 123 Main St", ""]);
    assert!(matches!(stream_step(&mut text, StreamEvent::Ended), StreamStep::Finish));
    assert_eq!(text, "He lives at 123 Main St");
}

#[test]
fn stream_failure_aborts() {
    let mut text = "partial".to_string();
    let step = stream_step(&mut text, StreamEvent::Failed(Some(ConverseStreamOutputErrorKind::ValidationException(None))));
    match step {
        StreamStep::Abort(e) => assert_eq!(e.0, "Unknown ValidationException"),
        _ => panic!("expected abort"),
    }
    assert_eq!(text, "partial");
    match stream_step(&mut text, StreamEvent::Failed(None)) {
        StreamStep::Abort(e) => assert_eq!(e.0, "Unknown error receiving stream"),
        _ => panic!("expected abort"),
    }
}

#[test]
fn message_and_reply() {
    let incoming = IncomingMessage { command: "Where does [John Doe] live?".to_string() };
    let m = augmented_message(&incoming.command, "123 Main St");
    assert_eq!(m, "Question: Where does [John Doe] live? \nAugmented context: 123 Main St.");
    let reply = outgoing_message("req-1".to_string(), "He lives at 123 Main St");
    assert_eq!(reply.req_id, "req-1");
    assert_eq!(reply.msg, "He lives at 123 Main St.");
}

#[test]
fn reply_to_empty_answer() {
    let reply = outgoing_message(String::new(), "");
    assert_eq!(reply.msg, ".");
}

#[test]
fn send_error_reasons() {
    let k = Some(ConverseStreamErrorKind::ModelNotReadyException);
    assert_eq!(BedrockConverseStreamError::from_send_error(&k).0, "Model is not ready");
    assert_eq!(BedrockConverseStreamError::from_send_error(&None).0, "Unknown");
    let e = BedrockConverseStreamError::from_send_error(&Some(ConverseStreamErrorKind::ModelTimeoutException));
    assert_eq!(
        e.display_message("example.text-model-v1"),
        "Can't invoke 'example.text-model-v1'. Reason: Model took too long"
    );
}

#[test]
fn request_for_model() {
    let r = model_request("example.text-model-v1", "Question: hi".to_string());
    assert_eq!(r.model_id, "example.text-model-v1");
    assert!(matches!(r.role, MessageRole::User));
    assert_eq!(r.text, "Question: hi");
}

#[test]
fn collect_answer_until_end() {
    let events = vec![
        chunk("He lives "),
        StreamEvent::Received(ConverseStreamOutput::Other),
        chunk("at 123 Main St"),
        StreamEvent::Ended,
        chunk("never taken"),
    ];
    let run = collect_stream(events);
    assert_eq!(run.received, 3);
    assert_eq!(run.pieces, vec!["He lives ", "", "at 123 Main St"]);
    match run.outcome {
        StreamOutcome::Answer(a) => assert_eq!(a, "He lives at 123 Main St"),
        other => panic!("unexpected {:?}", other),
    }
}

#[test]
fn collect_empty_answer() {
    let run = collect_stream(vec![StreamEvent::Ended]);
    assert_eq!(run.received, 0);
    assert!(run.pieces.is_empty());
    match run.outcome {
        StreamOutcome::Answer(a) => assert_eq!(a, ""),
        other => panic!("unexpected {:?}", other),
    }
}

#[test]
fn collect_stops_at_failure() {
    let events = vec![
        chunk("partial"),
        StreamEvent::Failed(Some(ConverseStreamOutputErrorKind::ThrottlingException(Some("slow down".to_string())))),
        chunk("never taken"),
    ];
    let run = collect_stream(events);
    assert_eq!(run.received, 1);
    assert_eq!(run.pieces, vec!["partial"]);
    match run.outcome {
        StreamOutcome::Failure(e) => assert_eq!(e.0, "slow down"),
        other => panic!("unexpected {:?}", other),
    }
}

#[test]
fn collect_unfinished() {
    let run = collect_stream(vec![chunk("a"), chunk("b")]);
    assert_eq!(run.received, 2);
    match run.outcome {
        StreamOutcome::Unfinished(a) => assert_eq!(a, "ab"),
        other => panic!("unexpected {:?}", other),
    }
}
