use amadeus::agent::{Agent, Effect, Input, Phase, Step, TurnEvent};
use amadeus::message::Message;
use amadeus::tools::{ToolDescriptor, ToolDispatcher};

fn file_system_tools() -> ToolDispatcher {
    let mut tools = ToolDispatcher::new();
    let params: serde_json::Value =
        serde_json::from_str(r#"{"type":"object","properties":{},"required":[]}"#).unwrap();
    tools
        .register(ToolDescriptor {
            name: "file_system".to_string(),
            description: "files".to_string(),
            parameters: params,
        })
        .ok()
        .unwrap();
    tools
}

fn seeded(max_inferences: usize) -> Agent {
    let (mut agent, step) = Agent::new("SYS".to_string(), file_system_tools(), max_inferences, Vec::new());
    match step.effect {
        Effect::Append(m) => assert_eq!((m.role.as_str(), m.content.as_str()), ("system", "SYS")),
        _ => panic!("a fresh conversation stores its system message first"),
    }
    let step = agent.step(Input::Stored);
    assert!(matches!(step.effect, Effect::Wait));
    agent
}

fn roles_and_contents(history: &Vec<Message>) -> Vec<(String, String)> {
    history.iter().map(|m| (m.role.clone(), m.content.clone())).collect()
}

fn statuses(step: &Step) -> Vec<(String, bool)> {
    step.events
        .iter()
        .filter_map(|e| match e {
            TurnEvent::StatusChanged { label, is_busy } => Some((label.clone(), *is_busy)),
            _ => None,
        })
        .collect()
}

fn appended(step: &Step) -> Vec<(String, String)> {
    step.events
        .iter()
        .filter_map(|e| match e {
            TurnEvent::MessageAppended { role, content } => Some((role.clone(), content.clone())),
            _ => None,
        })
        .collect()
}

fn pair(a: &str, b: &str) -> (String, String) {
    (a.to_string(), b.to_string())
}

#[test]
fn hello_turn_stores_user_and_reply() {
    let mut agent = seeded(4);
    let mut busy = Vec::new();
    let step = agent.step(Input::Text("  hello \n".to_string()));
    match &step.effect {
        Effect::Append(m) => assert_eq!(m.content, "hello"),
        _ => panic!("the user message is stored first"),
    }
    let step = agent.step(Input::Stored);
    busy.extend(statuses(&step));
    match &step.effect {
        Effect::Infer(ms) => assert_eq!(
            roles_and_contents(ms),
            vec![pair("system", "SYS"), pair("user", "hello")]
        ),
        _ => panic!("the engine is asked next"),
    }
    let step = agent.step(Input::Generated("Hi, Okabe.".to_string()));
    assert!(matches!(step.effect, Effect::Append(_)));
    let step = agent.step(Input::Stored);
    busy.extend(statuses(&step));
    assert_eq!(appended(&step), vec![pair("assistant", "Hi, Okabe.")]);
    assert!(matches!(step.effect, Effect::Wait));
    assert_eq!(
        roles_and_contents(agent.history()),
        vec![pair("system", "SYS"), pair("user", "hello"), pair("assistant", "Hi, Okabe.")]
    );
    assert_eq!(busy, vec![("Thinking".to_string(), true), ("Online".to_string(), false)]);
    assert!(agent.phase() == Phase::Idle);
}

#[test]
fn registered_tool_call_runs_and_asks_again() {
    let mut agent = seeded(4);
    agent.step(Input::Text("list files".to_string()));
    agent.step(Input::Stored);
    let raw = r#"{"tool":"file_system","args":{"action":"list_dir","path":"."}}"#;
    let step = agent.step(Input::Generated(raw.to_string()));
    assert_eq!(statuses(&step), vec![("Running tool: file_system".to_string(), true)]);
    assert!(appended(&step).is_empty());
    match &step.effect {
        Effect::RunTool { index, name, args } => {
            assert_eq!(*index, 0);
            assert_eq!(name, "file_system");
            let expected: serde_json::Value =
                serde_json::from_str(r#"{"action":"list_dir","path":"."}"#).unwrap();
            assert_eq!(args, &expected);
        }
        _ => panic!("the tool is run"),
    }
    let step = agent.step(Input::ToolSucceeded("src/\n".to_string()));
    match &step.effect {
        Effect::Append(m) => assert_eq!((m.role.as_str(), m.content.as_str()), ("user", "Tool Output: src/\n")),
        _ => panic!("the observation is stored"),
    }
    let step = agent.step(Input::Stored);
    match &step.effect {
        Effect::Infer(ms) => assert_eq!(ms.len(), 3),
        _ => panic!("the engine is asked a second time"),
    }
    assert_eq!(
        roles_and_contents(agent.history()),
        vec![pair("system", "SYS"), pair("user", "list files"), pair("user", "Tool Output: src/\n")]
    );
}

#[test]
fn reset_leaves_only_system_message() {
    let mut agent = seeded(4);
    agent.step(Input::Text("hello".to_string()));
    agent.step(Input::Stored);
    agent.step(Input::Generated("hi".to_string()));
    agent.step(Input::Stored);
    let step = agent.step(Input::Text("__CLEAR__".to_string()));
    assert!(matches!(step.effect, Effect::Clear));
    let step = agent.step(Input::Stored);
    match &step.effect {
        Effect::Append(m) => assert_eq!((m.role.as_str(), m.content.as_str()), ("system", "SYS")),
        _ => panic!("the system message is stored again"),
    }
    let step = agent.step(Input::Stored);
    assert_eq!(appended(&step), vec![pair("assistant", "대화 기록이 초기화되었습니다.")]);
    assert_eq!(roles_and_contents(agent.history()), vec![pair("system", "SYS")]);
    assert!(agent.phase() == Phase::Idle);
}

#[test]
fn unknown_tool_gives_one_not_found_observation() {
    let mut agent = seeded(4);
    agent.step(Input::Text("do it".to_string()));
    agent.step(Input::Stored);
    let step = agent.step(Input::Generated(r#"{"tool":"teleport","args":{}}"#.to_string()));
    match &step.effect {
        Effect::Append(m) => assert_eq!(m.content, "Tool Error: Tool not found: teleport"),
        _ => panic!("a not-found observation is stored"),
    }
    let step = agent.step(Input::Stored);
    assert!(matches!(step.effect, Effect::Infer(_)));
    let observations: Vec<_> = agent
        .history()
        .iter()
        .filter(|m| m.content.starts_with("Tool Error"))
        .collect();
    assert_eq!(observations.len(), 1);
}

#[test]
fn endless_tool_calls_stop_at_cap() {
    let mut agent = seeded(3);
    agent.step(Input::Text("loop".to_string()));
    let mut step = agent.step(Input::Stored);
    let raw = r#"{"tool":"file_system","args":{}}"#;
    let mut inferences = 0;
    for _ in 0..20 {
        match step.effect {
            Effect::Infer(_) => {
                inferences += 1;
                step = agent.step(Input::Generated(raw.to_string()));
            }
            Effect::RunTool { .. } => step = agent.step(Input::ToolSucceeded("ok".to_string())),
            Effect::Append(_) => step = agent.step(Input::Stored),
            Effect::Wait | Effect::Clear => break,
        }
    }
    assert_eq!(inferences, 3);
    let last = agent.history().last().unwrap();
    assert_eq!(last.role, "assistant");
    assert_eq!(last.content, "I stopped here: this turn asked for too many tool calls in a row.");
    assert!(agent.phase() == Phase::Idle);
}

#[test]
fn tool_failure_becomes_error_observation() {
    let mut agent = seeded(4);
    agent.step(Input::Text("read".to_string()));
    agent.step(Input::Stored);
    agent.step(Input::Generated(r#"{"tool":"file_system","args":{"action":"read_file"}}"#.to_string()));
    let step = agent.step(Input::ToolFailed("Missing path".to_string()));
    match &step.effect {
        Effect::Append(m) => assert_eq!(m.content, "Tool Error: Missing path"),
        _ => panic!("the error observation is stored"),
    }
    let step = agent.step(Input::Stored);
    assert_eq!(appended(&step), vec![pair("user", "Tool Error: Missing path")]);
}

#[test]
fn extra_member_makes_reply_chat() {
    let mut agent = seeded(4);
    agent.step(Input::Text("x".to_string()));
    agent.step(Input::Stored);
    let raw = r#"{"tool":"file_system","args":{},"note":"hi"}"#;
    let step = agent.step(Input::Generated(raw.to_string()));
    match &step.effect {
        Effect::Append(m) => assert_eq!((m.role.as_str(), m.content.as_str()), ("assistant", raw)),
        _ => panic!("the text is chat"),
    }
}

#[test]
fn empty_input_is_ignored() {
    let mut agent = seeded(4);
    let step = agent.step(Input::Text(" \t\n".to_string()));
    assert!(matches!(step.effect, Effect::Wait));
    assert!(step.events.is_empty());
    assert_eq!(agent.history().len(), 1);
}

#[test]
fn storage_failure_aborts_turn() {
    let mut agent = seeded(4);
    agent.step(Input::Text("hello".to_string()));
    let step = agent.step(Input::StoreFailed("disk full".to_string()));
    assert_eq!(statuses(&step), vec![("Error: disk full".to_string(), false)]);
    assert_eq!(agent.history().len(), 1);
    assert!(agent.phase() == Phase::Idle);
}

#[test]
fn generation_failure_aborts_turn_only() {
    let mut agent = seeded(4);
    agent.step(Input::Text("hello".to_string()));
    agent.step(Input::Stored);
    let step = agent.step(Input::GenerationFailed("timeout".to_string()));
    assert_eq!(statuses(&step), vec![("Error: timeout".to_string(), false)]);
    let step = agent.step(Input::Text("again".to_string()));
    assert!(matches!(step.effect, Effect::Append(_)));
}

#[test]
fn unavailable_engine_degrades_for_good() {
    let mut agent = seeded(4);
    agent.step(Input::Unavailable("no model".to_string()));
    for text in ["hello", "__CLEAR__", "more"] {
        let step = agent.step(Input::Text(text.to_string()));
        assert_eq!(
            appended(&step),
            vec![pair("assistant", "LLM is not loaded. Please check model path.")]
        );
        assert!(matches!(step.effect, Effect::Wait));
    }
    assert!(agent.phase() == Phase::Degraded);
}

#[test]
fn loaded_history_is_kept() {
    let loaded = vec![Message::system("S".to_string()), Message::user("u".to_string())];
    let (agent, step) = Agent::new("S".to_string(), ToolDispatcher::new(), 2, loaded);
    assert!(matches!(step.effect, Effect::Wait));
    assert_eq!(roles_and_contents(agent.history()), vec![pair("system", "S"), pair("user", "u")]);
}

#[test]
fn zero_cap_still_allows_one_inference() {
    let mut agent = seeded(0);
    agent.step(Input::Text("go".to_string()));
    let step = agent.step(Input::Stored);
    assert!(matches!(step.effect, Effect::Infer(_)));
    let step = agent.step(Input::Generated(r#"{"tool":"file_system","args":{}}"#.to_string()));
    match &step.effect {
        Effect::Append(m) => assert_eq!(
            m.content,
            "I stopped here: this turn asked for too many tool calls in a row."
        ),
        _ => panic!("the turn ends with the fallback message"),
    }
}

#[test]
fn seed_failure_leaves_history_empty() {
    let (mut agent, _) = Agent::new("SYS".to_string(), ToolDispatcher::new(), 2, Vec::new());
    let step = agent.step(Input::StoreFailed("locked".to_string()));
    assert_eq!(statuses(&step), vec![("Error: locked".to_string(), false)]);
    assert!(agent.history().is_empty());
    assert!(agent.phase() == Phase::Idle);
}

#[test]
fn results_out_of_turn_are_ignored() {
    let mut agent = seeded(2);
    for input in [
        Input::Stored,
        Input::Generated("stray".to_string()),
        Input::ToolSucceeded("stray".to_string()),
        Input::GenerationFailed("stray".to_string()),
    ] {
        let step = agent.step(input);
        assert!(matches!(step.effect, Effect::Wait));
        assert!(step.events.is_empty());
    }
    assert_eq!(agent.history().len(), 1);
}
