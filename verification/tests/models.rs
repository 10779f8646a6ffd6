use anthropic::error::{DeserializationError, Field, Step};
use anthropic::json::Json;
use anthropic::models::{
    AnthropicRequest, AnthropicResponse, Content, ContentData, ContentItem, ErrorResponse,
    ImageSource, MessageParam, SuccessResponse, Usage,
};

#[test]
fn test_simple_message_deserialize() {
    let json = r#"{
            "role": "user",
            "content": [
                {
                    "type": "text",
                    "text": "Hello, world"
                }
            ] 
        }"#;
    let result = MessageParam::from_text(json).unwrap();
    assert_eq!(result, MessageParam::new("user").text("Hello, world"));
}

#[test]
fn test_complex_message_deserialize() {
    let json = r#"{
            "role": "user",
            "content": [
                {
                    "type": "image",
                    "source": {
                        "type": "base64",
                        "media_type": "image/jpeg",
                        "data": "/9j/4AAQSkZJRg..."
                    }
                },
                {
                    "type": "text",
                    "text": "What is in this image?"
                }
            ]
        }"#;
    let result: MessageParam = MessageParam::from_text(json).unwrap();
    assert_eq!(
        result,
        MessageParam::new("user")
            .image("image/jpeg", "/9j/4AAQSkZJRg...")
            .text("What is in this image?")
    );
}

#[test]
fn test_request_deserialize() {
    let json = r#"{
            "model": "sonnet-3-5-20240620",
            "max_tokens": 1024,
            "messages": [
                {
                    "role": "user",
                    "content": [
                        {
                            "type": "text",
                            "text": "Hello, world"
                        }
                    ]
                }
            ]
        }"#;
    let result = AnthropicRequest::from_text(json).unwrap();
    assert_eq!(
        result,
        AnthropicRequest {
            model: "sonnet-3-5-20240620".to_string(),
            max_tokens: 1024,
            messages: vec![MessageParam {
                role: "user".to_string(),
                content: vec![ContentItem {
                    item_type: "text".to_string(),
                    data: ContentData::Text {
                        text: "Hello, world".to_string()
                    }
                }]
            }]
        }
    );
    // create struct from new method
    assert_eq!(
        result,
        AnthropicRequest::new(
            "sonnet-3-5-20240620",
            1024,
            vec![MessageParam::new("user").text("Hello, world")]
        )
    );
}

#[test]
fn test_response_deserialize() {
    let json = r#"{
            "content": [
                {
                    "text": "Hi! My name is Sonnet.",
                    "type": "text"
                }
            ],
            "id": "msg_013Zva2CMHLNnXjNJJKqJ2EF",
            "model": "sonnet-3-5-20240620",
            "role": "assistant",
            "stop_reason": "end_turn",
            "stop_sequence": null,
            "type": "message",
            "usage": {
                "input_tokens": 2095,
                "output_tokens": 503
            }
        }"#;
    let result = SuccessResponse::from_text(json).unwrap();
    assert_eq!(
        result,
        SuccessResponse {
            content: vec![Content {
                text: "Hi! My name is Sonnet.".to_string(),
                content_type: "text".to_string()
            }],
            id: "msg_013Zva2CMHLNnXjNJJKqJ2EF".to_string(),
            model: "sonnet-3-5-20240620".to_string(),
            role: "assistant".to_string(),
            stop_reason: "end_turn".to_string(),
            stop_sequence: None,
            response_type: "message".to_string(),
            usage: Usage {
                input_tokens: 2095,
                output_tokens: 503
            }
        }
    );
}

fn sample_request() -> AnthropicRequest {
    AnthropicRequest::new("m1", 1024, Vec::new())
        .message(MessageParam::new("user").text("Hello, world"))
}

fn missing(path: Vec<Step>) -> DeserializationError {
    DeserializationError::Missing { path }
}

fn invalid(path: Vec<Step>) -> DeserializationError {
    DeserializationError::Invalid { path }
}

#[test]
fn new_message_has_no_content() {
    let message = MessageParam::new("assistant");
    assert_eq!(message.role, "assistant");
    assert!(message.content.is_empty());
}

#[test]
fn text_on_a_fresh_message_makes_the_first_block() {
    let message = MessageParam::new("user").text("A");
    assert_eq!(
        message.content,
        vec![ContentItem {
            item_type: "text".to_string(),
            data: ContentData::Text { text: "A".to_string() },
        }]
    );
}

#[test]
fn image_block_is_base64() {
    let message = MessageParam::new("user").image("image/png", "aGk=");
    assert_eq!(
        message.content,
        vec![ContentItem {
            item_type: "image".to_string(),
            data: ContentData::Image {
                source: ImageSource {
                    source_type: "base64".to_string(),
                    media_type: "image/png".to_string(),
                    data: "aGk=".to_string(),
                },
            },
        }]
    );
}

#[test]
fn builder_keeps_the_order_of_blocks() {
    let message = MessageParam::new("user").text("A").image("image/gif", "B").text("C");
    assert_eq!(message.role, "user");
    assert_eq!(message.content.len(), 3);
    assert_eq!(message.content[0], MessageParam::new("x").text("A").content[0]);
    assert_eq!(message.content[1], MessageParam::new("x").image("image/gif", "B").content[0]);
    assert_eq!(message.content[2], MessageParam::new("x").text("C").content[0]);
}

#[test]
fn request_message_appends() {
    let request = AnthropicRequest::new("m1", 7, vec![MessageParam::new("user").text("one")])
        .message(MessageParam::new("assistant").text("two"));
    assert_eq!(request.model, "m1");
    assert_eq!(request.max_tokens, 7);
    assert_eq!(
        request.messages,
        vec![MessageParam::new("user").text("one"), MessageParam::new("assistant").text("two")]
    );
}

#[test]
fn request_text_is_the_documented_shape() {
    assert_eq!(
        sample_request().to_text().unwrap(),
        r#"{"model":"m1","max_tokens":1024,"messages":[{"role":"user","content":"Hello, world"}]}"#
    );
}

#[test]
fn request_text_with_an_image_lists_the_blocks() {
    let request = AnthropicRequest::new("m1", 5, Vec::new())
        .message(MessageParam::new("user").image("image/jpeg", "/9j/").text("What?"));
    assert_eq!(
        request.to_text().unwrap(),
        concat_all(&[
            r#"{"model":"m1","max_tokens":5,"messages":[{"role":"user","content":["#,
            r#"{"type":"image","source":{"type":"base64","media_type":"image/jpeg","data":"/9j/"}},"#,
            r#"{"type":"text","text":"What?"}]}]}"#,
        ])
    );
}

fn concat_all(parts: &[&str]) -> String {
    let mut out = String::new();
    for part in parts {
        out.push_str(part);
    }
    out
}

#[test]
fn request_text_escapes_what_json_escapes() {
    let request = AnthropicRequest::new("m\"1", 1, Vec::new())
        .message(MessageParam::new("user").text("a\nb\\"));
    assert_eq!(
        request.to_text().unwrap(),
        r#"{"model":"m\"1","max_tokens":1,"messages":[{"role":"user","content":"a\nb\\"}]}"#
    );
}

#[test]
fn message_without_blocks_is_written_as_an_empty_list() {
    let request = AnthropicRequest::new("m1", 1, vec![MessageParam::new("user")]);
    assert_eq!(
        request.to_text().unwrap(),
        r#"{"model":"m1","max_tokens":1,"messages":[{"role":"user","content":[]}]}"#
    );
}

#[test]
fn two_blocks_of_text_are_written_as_a_list() {
    let message = MessageParam::new("user").text("a").text("b");
    assert_eq!(
        message.to_json(),
        Json::Object(vec![
            ("role".to_string(), Json::Text("user".to_string())),
            (
                "content".to_string(),
                Json::Array(vec![
                    Json::Object(vec![
                        ("type".to_string(), Json::Text("text".to_string())),
                        ("text".to_string(), Json::Text("a".to_string())),
                    ]),
                    Json::Object(vec![
                        ("type".to_string(), Json::Text("text".to_string())),
                        ("text".to_string(), Json::Text("b".to_string())),
                    ]),
                ])
            ),
        ])
    );
}

#[test]
fn request_to_json_is_the_documented_shape() {
    assert_eq!(
        sample_request().to_json(),
        Json::Object(vec![
            ("model".to_string(), Json::Text("m1".to_string())),
            ("max_tokens".to_string(), Json::Unsigned(1024)),
            (
                "messages".to_string(),
                Json::Array(vec![Json::Object(vec![
                    ("role".to_string(), Json::Text("user".to_string())),
                    ("content".to_string(), Json::Text("Hello, world".to_string())),
                ])])
            ),
        ])
    );
}

#[test]
fn round_trip_of_a_plain_text_request() {
    let request = AnthropicRequest::new("m1", 1024, Vec::new())
        .message(MessageParam::new("user").text("Hello, world"))
        .message(MessageParam::new("assistant").text("Hi!"))
        .message(MessageParam::new("user").text("a \"quoted\" \u{e9}\u{1F600} text"));
    let text = request.to_text().unwrap();
    assert_eq!(AnthropicRequest::from_text(&text), Ok(request.clone()));
    assert_eq!(AnthropicRequest::from_json(&request.to_json()), Ok(request));
}

#[test]
fn round_trip_of_a_request_with_images() {
    let request = AnthropicRequest::new("m2", usize::MAX, Vec::new())
        .message(MessageParam::new("user").image("image/webp", "UklGRg==").text("A").text("B"))
        .message(MessageParam::new("assistant"));
    let text = request.to_text().unwrap();
    assert_eq!(AnthropicRequest::from_text(&text), Ok(request.clone()));
    assert_eq!(AnthropicRequest::from_json(&request.to_json()), Ok(request));
}

#[test]
fn content_as_text_and_as_a_list_read_alike() {
    let short = r#"{"role":"user","content":"Hello"}"#;
    let long = r#"{"role":"user","content":[{"type":"text","text":"Hello"}]}"#;
    assert_eq!(MessageParam::from_text(short), MessageParam::from_text(long));
    assert_eq!(MessageParam::from_text(short), Ok(MessageParam::new("user").text("Hello")));
}

#[test]
fn message_with_an_unknown_role_is_refused() {
    let json = r#"{"role":"system","content":"Hello"}"#;
    assert_eq!(MessageParam::from_text(json), Err(invalid(vec![Step::Field(Field::Role)])));
}

#[test]
fn message_without_content_is_refused() {
    let json = r#"{"role":"user"}"#;
    assert_eq!(MessageParam::from_text(json), Err(missing(vec![Step::Field(Field::Content)])));
}

#[test]
fn block_of_an_unknown_type_is_refused_with_its_place() {
    let json = r#"{"model":"m","max_tokens":1,"messages":[
        {"role":"user","content":"ok"},
        {"role":"user","content":[{"type":"text","text":"a"},{"type":"video","text":"b"}]}]}"#;
    assert_eq!(
        AnthropicRequest::from_text(json),
        Err(invalid(vec![
            Step::Field(Field::Messages),
            Step::Index(1),
            Step::Field(Field::Content),
            Step::Index(1),
            Step::Field(Field::Type),
        ]))
    );
}

#[test]
fn image_source_of_another_encoding_is_refused() {
    let json = r#"{"role":"user","content":[
        {"type":"image","source":{"type":"url","media_type":"image/png","data":"x"}}]}"#;
    assert_eq!(
        MessageParam::from_text(json),
        Err(invalid(vec![
            Step::Field(Field::Content),
            Step::Index(0),
            Step::Field(Field::Source),
            Step::Field(Field::Type),
        ]))
    );
}

#[test]
fn image_block_without_data_is_refused() {
    let json = r#"{"role":"user","content":[
        {"type":"image","source":{"type":"base64","media_type":"image/png"}}]}"#;
    assert_eq!(
        MessageParam::from_text(json),
        Err(missing(vec![
            Step::Field(Field::Content),
            Step::Index(0),
            Step::Field(Field::Source),
            Step::Field(Field::Data),
        ]))
    );
}

#[test]
fn nested_type_members_do_not_decide_what_a_message_is() {
    let json = r#"{"role":"user","type":"error","content":[
        {"type":"image","source":{"type":"base64","media_type":"image/png","data":"x"}},
        {"type":"text","text":"type"}]}"#;
    assert_eq!(
        MessageParam::from_text(json),
        Ok(MessageParam::new("user").image("image/png", "x").text("type"))
    );
}

#[test]
fn max_tokens_has_to_be_a_non_negative_integer() {
    let place = vec![Step::Field(Field::MaxTokens)];
    for bad in ["-1", "1.5", "\"7\"", "null", "true", "1e2", "18446744073709551616"] {
        let json = format!(r#"{{"model":"m","max_tokens":{},"messages":[]}}"#, bad);
        assert_eq!(AnthropicRequest::from_text(&json), Err(invalid(place.clone())));
    }
    let json = r#"{"model":"m","messages":[]}"#;
    assert_eq!(AnthropicRequest::from_text(json), Err(missing(place)));
    let json = r#"{"model":"m","max_tokens":0,"messages":[]}"#;
    assert_eq!(AnthropicRequest::from_text(json), Ok(AnthropicRequest::new("m", 0, Vec::new())));
}

#[test]
fn messages_have_to_be_a_list() {
    let json = r#"{"model":"m","max_tokens":1,"messages":{}}"#;
    assert_eq!(
        AnthropicRequest::from_text(json),
        Err(invalid(vec![Step::Field(Field::Messages)]))
    );
}

#[test]
fn what_is_no_object_is_refused_where_it_stands() {
    assert_eq!(AnthropicRequest::from_text("[]"), Err(invalid(vec![])));
    assert_eq!(SuccessResponse::from_text("\"message\""), Err(invalid(vec![])));
    assert_eq!(ErrorResponse::from_text("3"), Err(invalid(vec![])));
    assert_eq!(AnthropicResponse::from_text("null"), Err(invalid(vec![])));
    let json = r#"{"model":"m","max_tokens":1,"messages":[7]}"#;
    assert_eq!(
        AnthropicRequest::from_text(json),
        Err(invalid(vec![Step::Field(Field::Messages), Step::Index(0)]))
    );
}

#[test]
fn text_that_is_no_json_is_a_syntax_error() {
    assert_eq!(
        AnthropicRequest::from_text("{\"model\": "),
        Err(DeserializationError::Syntax { line: 1, column: 10 })
    );
    assert!(matches!(MessageParam::from_text(""), Err(DeserializationError::Syntax { .. })));
    assert!(matches!(
        SuccessResponse::from_text("{} trailing"),
        Err(DeserializationError::Syntax { .. })
    ));
}

fn answer(stop_sequence: &str) -> String {
    format!(
        r#"{{"type":"message","id":"msg_1","model":"m1","role":"assistant",
            "content":[{{"type":"text","text":"Hi!"}}],"stop_reason":"end_turn"{},
            "usage":{{"input_tokens":5,"output_tokens":2}}}}"#,
        stop_sequence
    )
}

#[test]
fn stop_sequence_may_be_null_absent_or_a_text() {
    let absent = SuccessResponse::from_text(&answer("")).unwrap();
    assert_eq!(absent.stop_sequence, None);
    let null = SuccessResponse::from_text(&answer(r#","stop_sequence":null"#)).unwrap();
    assert_eq!(null, absent);
    let given = SuccessResponse::from_text(&answer(r#","stop_sequence":"END""#)).unwrap();
    assert_eq!(given.stop_sequence, Some("END".to_string()));
    assert_eq!(
        SuccessResponse::from_text(&answer(r#","stop_sequence":4"#)),
        Err(invalid(vec![Step::Field(Field::StopSequence)]))
    );
}

#[test]
fn answer_keeps_what_the_document_holds() {
    let result = SuccessResponse::from_text(&answer("")).unwrap();
    assert_eq!(result.id, "msg_1");
    assert_eq!(result.model, "m1");
    assert_eq!(result.role, "assistant");
    assert_eq!(result.stop_reason, "end_turn");
    assert_eq!(result.response_type, "message");
    assert_eq!(result.usage, Usage { input_tokens: 5, output_tokens: 2 });
    assert_eq!(
        result.content,
        vec![Content { text: "Hi!".to_string(), content_type: "text".to_string() }]
    );
}

#[test]
fn answer_passes_over_members_it_does_not_name() {
    let json = r#"{"type":"message","id":"i","model":"m","role":"assistant","content":[],
        "stop_reason":"end_turn","usage":{"input_tokens":1,"output_tokens":2,"cache":0.5},
        "extra":{"deep":[1,-2,3.5,true,null]}}"#;
    let result = SuccessResponse::from_text(json).unwrap();
    assert!(result.content.is_empty());
    assert_eq!(result.usage, Usage { input_tokens: 1, output_tokens: 2 });
}

#[test]
fn answer_with_a_faulty_part_names_the_part() {
    let json = r#"{"type":"message","id":"i","model":"m","role":"assistant",
        "content":[{"type":"text","text":"a"},{"type":"text"}],
        "stop_reason":"end_turn","usage":{"input_tokens":1,"output_tokens":2}}"#;
    assert_eq!(
        SuccessResponse::from_text(json),
        Err(missing(vec![Step::Field(Field::Content), Step::Index(1), Step::Field(Field::Text)]))
    );
    let json = r#"{"type":"message","id":"i","model":"m","role":"assistant","content":[],
        "stop_reason":"end_turn","usage":{"input_tokens":1,"output_tokens":-2}}"#;
    assert_eq!(
        SuccessResponse::from_text(json),
        Err(invalid(vec![Step::Field(Field::Usage), Step::Field(Field::OutputTokens)]))
    );
    let json = r#"{"type":"message","model":"m","role":"assistant","content":[],
        "stop_reason":"end_turn","usage":{"input_tokens":1,"output_tokens":2}}"#;
    assert_eq!(SuccessResponse::from_text(json), Err(missing(vec![Step::Field(Field::Id)])));
}

#[test]
fn refusal_keeps_type_and_message() {
    let json = r#"{"type":"error","error":{"type":"overloaded_error","message":"busy"}}"#;
    let result = ErrorResponse::from_text(json).unwrap();
    assert_eq!(result.error_type, "error");
    assert_eq!(result.error.error_type, "overloaded_error");
    assert_eq!(result.error.message, "busy");
    let json = r#"{"type":"error","error":{"type":"overloaded_error"}}"#;
    assert_eq!(
        ErrorResponse::from_text(json),
        Err(missing(vec![Step::Field(Field::Error), Step::Field(Field::Message)]))
    );
    let json = r#"{"type":"error"}"#;
    assert_eq!(ErrorResponse::from_text(json), Err(missing(vec![Step::Field(Field::Error)])));
}

#[test]
fn response_is_told_apart_by_its_own_type() {
    let message = AnthropicResponse::from_text(&answer("")).unwrap();
    assert!(matches!(message, AnthropicResponse::Success(_)));
    let json = r#"{"type":"error","error":{"type":"message","message":"message"}}"#;
    let error = AnthropicResponse::from_text(json).unwrap();
    assert!(matches!(error, AnthropicResponse::Error(_)));
    let json = r#"{"type":"ping","error":{"type":"x","message":"y"}}"#;
    assert_eq!(AnthropicResponse::from_text(json), Err(invalid(vec![Step::Field(Field::Type)])));
    let json = r#"{"error":{"type":"x","message":"y"}}"#;
    assert_eq!(AnthropicResponse::from_text(json), Err(missing(vec![Step::Field(Field::Type)])));
}

#[test]
fn message_type_with_nested_error_types_is_an_answer() {
    let json = r#"{"type":"message","id":"i","model":"m","role":"assistant",
        "content":[{"type":"error","text":"error"}],"stop_reason":"end_turn",
        "usage":{"input_tokens":1,"output_tokens":2,"type":"error"},
        "error":{"type":"error","message":"no"}}"#;
    match AnthropicResponse::from_text(json).unwrap() {
        AnthropicResponse::Success(message) => {
            assert_eq!(message.content[0].content_type, "error");
            assert_eq!(message.content[0].text, "error");
        }
        AnthropicResponse::Error(_) => panic!("a message is no refusal"),
    }
}

#[test]
fn error_under_place_comes_first() {
    let error = DeserializationError::missing(Field::Text)
        .under(Step::Index(2))
        .under(Step::Field(Field::Content));
    assert_eq!(
        error,
        missing(vec![Step::Field(Field::Content), Step::Index(2), Step::Field(Field::Text)])
    );
    assert_eq!(DeserializationError::invalid(), invalid(vec![]));
    let syntax = DeserializationError::Syntax { line: 3, column: 4 };
    assert_eq!(syntax.clone().under(Step::Index(0)), syntax);
}

#[test]
fn field_names_are_those_of_the_api() {
    let all = [
        (Field::Model, "model"),
        (Field::MaxTokens, "max_tokens"),
        (Field::Messages, "messages"),
        (Field::Role, "role"),
        (Field::Content, "content"),
        (Field::Type, "type"),
        (Field::Text, "text"),
        (Field::Source, "source"),
        (Field::MediaType, "media_type"),
        (Field::Data, "data"),
        (Field::Id, "id"),
        (Field::StopReason, "stop_reason"),
        (Field::StopSequence, "stop_sequence"),
        (Field::Usage, "usage"),
        (Field::InputTokens, "input_tokens"),
        (Field::OutputTokens, "output_tokens"),
        (Field::Error, "error"),
        (Field::Message, "message"),
    ];
    for (field, name) in all {
        assert_eq!(field.name(), name);
    }
}
