use amadeus::message::Message;
use amadeus::ollama::{join_stream, ChatResponse, MessageRes};
use amadeus::persona::Persona;
use amadeus::prompt::{format_prompt, full_system_prompt, system_prompt_with};
use amadeus::store::chronological;
use amadeus::system::{BrowserTool, FileSystemTool, InputTool, ScreenshotTool};
use amadeus::text::{same_text, trim};
use amadeus::tools::{DispatchError, RegistryError, ToolDescriptor, ToolDispatcher};
use amadeus::voice::TtsManager;
use amadeus::wire::{detect_tool_call, read_tool_call};

fn descriptor(name: &str) -> ToolDescriptor {
    ToolDescriptor {
        name: name.to_string(),
        description: format!("{} tool", name),
        parameters: serde_json::from_str(r#"{"type":"object"}"#).unwrap(),
    }
}

#[test]
fn tool_call_shapes() {
    let call = detect_tool_call(r#" {"tool":"take_screenshot","args":{}} "#).unwrap();
    assert_eq!(call.name, "take_screenshot");
    assert!(detect_tool_call("hello").is_none());
    assert!(detect_tool_call(r#"{"tool":"x"}"#).is_none());
    assert!(detect_tool_call(r#"{"tool":1,"args":{}}"#).is_none());
    assert!(detect_tool_call(r#"{"tool":"x","args":[]}"#).is_none());
    assert!(detect_tool_call(r#"{"tool":"x","args":{}} trailing"#).is_none());
    assert!(detect_tool_call(r#"{"tool":"x","args":{},"z":0}"#).is_none());
    assert!(read_tool_call(None).is_none());
    assert_eq!(read_tool_call(serde_json::from_str(r#"{"args":{"a":1},"tool":"y"}"#).ok()).unwrap().name, "y");
}

#[test]
fn duplicate_registration_is_refused() {
    let mut tools = ToolDispatcher::new();
    assert!(tools.register(descriptor("a")).is_ok());
    assert!(tools.register(descriptor("b")).is_ok());
    match tools.register(descriptor("a")) {
        Err(RegistryError::DuplicateTool(n)) => assert_eq!(n, "a"),
        Ok(()) => panic!("a second tool named a"),
    }
    assert_eq!(tools.len(), 2);
    assert_eq!(tools.position("b"), Some(1));
    assert!(tools.has("a"));
    assert!(!tools.has("c"));
    match tools.resolve("c") {
        Err(e) => assert_eq!(e.message(), "Tool not found: c"),
        Ok(_) => panic!("c is not registered"),
    }
    assert_eq!(DispatchError::ExecutionFailed("boom".to_string()).message(), "boom");
}

#[test]
fn schema_lists_tools_in_order() {
    let mut tools = ToolDispatcher::new();
    tools.register(descriptor("a")).ok().unwrap();
    tools.register(descriptor("b")).ok().unwrap();
    let schema = tools.get_tools_schema();
    let expected: serde_json::Value = serde_json::from_str(
        r#"[{"type":"function","function":{"name":"a","description":"a tool","parameters":{"type":"object"}}},
            {"type":"function","function":{"name":"b","description":"b tool","parameters":{"type":"object"}}}]"#,
    )
    .unwrap();
    assert_eq!(schema, expected);
}

#[test]
fn system_prompt_holds_persona_and_schema() {
    let empty = serde_json::Value::Array(Vec::new());
    assert_eq!(
        system_prompt_with("P", &empty),
        "P\nYou have access to the following tools: []\n\nTo use a tool, respond with a JSON object in this format ONLY:\n{ \"tool\": \"tool_name\", \"args\": { ... } }\nIf you use a tool, do not write anything else."
    );
    let persona = Persona::amadeus();
    let mut tools = ToolDispatcher::new();
    tools.register(descriptor("a")).ok().unwrap();
    let full = full_system_prompt(&persona, &tools);
    assert!(full.starts_with(&persona.system_prompt));
    assert!(full.contains(r#"[{"function":{"description":"a tool","name":"a","parameters":{"type":"object"}},"type":"function"}]"#));
}

#[test]
fn persona_opens_conversation() {
    let persona = Persona::amadeus();
    assert_eq!(persona.name, "Amadeus");
    assert!(persona.system_prompt.starts_with("You are Amadeus"));
    let m = persona.to_message();
    assert_eq!(m.role, "system");
    assert_eq!(m.content, persona.system_prompt);
    assert!(m.images.is_none());
}

#[test]
fn chat_template() {
    let msgs = vec![
        Message::system("S".to_string()),
        Message { role: "tool".to_string(), content: "ignored".to_string(), images: None },
        Message::user("hi".to_string()),
        Message::assistant("yo".to_string()),
    ];
    assert_eq!(
        format_prompt(&msgs),
        "<|im_start|>system\nS<|im_end|>\n<|im_start|>user\nhi<|im_end|>\n<|im_start|>assistant\nyo<|im_end|>\n<|im_start|>assistant\n"
    );
    assert_eq!(format_prompt(&Vec::new()), "<|im_start|>assistant\n");
}

#[test]
fn store_rows_come_back_oldest_first() {
    let rows = vec![
        Message::assistant("3".to_string()),
        Message::user("2".to_string()),
        Message::system("1".to_string()),
    ];
    let ordered: Vec<String> = chronological(rows).into_iter().map(|m| m.content).collect();
    assert_eq!(ordered, vec!["1", "2", "3"]);
    assert!(chronological(Vec::new()).is_empty());
}

#[test]
fn text_helpers() {
    assert_eq!(trim("  a b \u{3000}\n"), "a b");
    assert_eq!(trim(" \t "), "");
    assert_eq!(trim("x"), "x");
    assert!(same_text("ab", "ab"));
    assert!(!same_text("ab", "abc"));
    assert!(!same_text("ab", "ac"));
}

#[test]
fn ollama_reply_text() {
    let with = ChatResponse {
        model: None,
        created_at: None,
        message: Some(MessageRes { role: "assistant".to_string(), content: "hey".to_string() }),
        done: Some(true),
    };
    assert_eq!(with.into_reply(), Ok("hey".to_string()));
    let without = ChatResponse { model: None, created_at: None, message: None, done: None };
    assert_eq!(without.into_reply(), Err("No message in Ollama response".to_string()));
    let piece = |s: &str| {
        Some(ChatResponse {
            model: None,
            created_at: None,
            message: Some(MessageRes { role: "assistant".to_string(), content: s.to_string() }),
            done: None,
        })
    };
    assert_eq!(join_stream(vec![piece("a"), None, piece("b")]), "ab");
}

#[test]
fn system_tool_names() {
    assert_eq!(FileSystemTool.name(), "file_system");
    assert_eq!(BrowserTool.name(), "browser_automation");
    assert_eq!(InputTool.name(), "input_control");
    assert_eq!(ScreenshotTool.name(), "take_screenshot");
    assert!(FileSystemTool.description().contains("list_dir"));
    assert!(BrowserTool.description().contains("navigate"));
    assert!(InputTool.description().contains("mouse"));
    assert!(ScreenshotTool.description().contains("base64"));
    assert!(TtsManager::new().is_ok());
}

#[test]
fn message_duplicate_keeps_images() {
    let m = Message {
        role: "user".to_string(),
        content: "look".to_string(),
        images: Some(vec!["abc".to_string()]),
    };
    let d = m.duplicate();
    assert_eq!(d.images, Some(vec!["abc".to_string()]));
    assert_eq!(d.content, "look");
}
