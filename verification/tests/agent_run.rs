use codex_agents::agent::{
    agent_instructions, agent_item_id, agent_registry, agent_task_text, agent_tool_for,
    assistant_text, create_agent_tool,
    duration_ms, finish_agent_run, format_subagent_context_line, function_arguments,
    invalid_arguments_error, new_agent_item_id, start_agent_run, sub_agent_tools_config,
    AgentCall, AgentDefinition, AgentHandler, AgentRegistry, AgentRun, AgentRunAction,
    AgentStatus, ApplyPatchToolType, ContentItem, FunctionCallError, ResponseEvent, ResponseItem,
    Session, ToolKind, ToolPayload, ToolsConfig,
};

fn assistant(parts: &[&str]) -> ResponseItem {
    ResponseItem::Message {
        id: None,
        role: "assistant".to_string(),
        content: parts.iter().map(|t| ContentItem::OutputText { text: t.to_string() }).collect(),
    }
}

fn call(context: Option<&str>) -> AgentCall {
    AgentCall {
        name: "general".to_string(),
        task: "do something".to_string(),
        context: context.map(str::to_string),
        plan_item_id: Some("plan-1".to_string()),
    }
}

#[test]
fn assistant_text_joins_output_parts() {
    assert_eq!(assistant_text(&assistant(&["Hello, ", "world"])), Some("Hello, world".to_string()));
    assert_eq!(assistant_text(&assistant(&[])), None);
    assert_eq!(assistant_text(&assistant(&[""])), None);
    let user = ResponseItem::Message {
        id: None,
        role: "user".to_string(),
        content: vec![ContentItem::OutputText { text: "hi".to_string() }],
    };
    assert_eq!(assistant_text(&user), None);
    let mixed = ResponseItem::Message {
        id: Some("m".to_string()),
        role: "assistant".to_string(),
        content: vec![
            ContentItem::InputText { text: "ignored".to_string() },
            ContentItem::OutputText { text: "kept".to_string() },
            ContentItem::InputImage { image_url: "u".to_string() },
        ],
    };
    assert_eq!(assistant_text(&mixed), Some("kept".to_string()));
    assert_eq!(assistant_text(&ResponseItem::Other), None);
}

#[test]
fn payloads_and_argument_errors() {
    assert!(matches!(AgentHandler.kind(), ToolKind::Function));
    match function_arguments(ToolPayload::Function { arguments: "{}".to_string() }) {
        Ok(args) => assert_eq!(args, "{}"),
        Err(e) => panic!("unexpected {e:?}"),
    }
    match function_arguments(ToolPayload::Custom { input: "x".to_string() }) {
        Err(FunctionCallError::Fatal(m)) => {
            assert_eq!(m, "agent tool invoked with incompatible payload")
        }
        other => panic!("unexpected {other:?}"),
    }
    match invalid_arguments_error("missing field `task`") {
        FunctionCallError::RespondToModel(m) => {
            assert_eq!(m, "invalid agent call arguments: missing field `task`")
        }
        other => panic!("unexpected {other:?}"),
    }
}

#[test]
fn instructions_and_task_text() {
    assert_eq!(
        agent_instructions("general", "Be helpful."),
        "You are the \"general\" agent.\nBe helpful.\n\nDo not delegate to other agents. Provide the result directly."
    );
    assert_eq!(agent_task_text("do it", &None), "do it");
    assert_eq!(agent_task_text("do it", &Some(" \n\t".to_string())), "do it");
    assert_eq!(
        agent_task_text("do it", &Some(" see notes ".to_string())),
        "do it\n\nContext:\n see notes "
    );
}

#[test]
fn starting_a_run_announces_it_and_sends_two_messages() {
    let start = start_agent_run(&"call-1".to_string(), &call(Some("ctx")), "Prompt.");
    assert_eq!(start.begin.call_id, "call-1");
    assert_eq!(start.begin.agent_name, "general");
    assert_eq!(start.begin.task, "do something");
    assert_eq!(start.begin.parent_context, None);
    assert_eq!(start.begin.plan_item_id.as_deref(), Some("plan-1"));
    assert_eq!(start.input.len(), 2);
    match &start.input[1] {
        ResponseItem::Message { id, role, content } => {
            assert_eq!(id, &None);
            assert_eq!(role, "user");
            match &content[..] {
                [ContentItem::InputText { text }] => {
                    assert_eq!(text, "do something\n\nContext:\nctx")
                }
                other => panic!("unexpected {other:?}"),
            }
        }
        other => panic!("unexpected {other:?}"),
    }
}

#[test]
fn registry_finds_the_first_agent_of_a_name() {
    let session = Session {
        agent_registry: AgentRegistry {
            agents: vec![
                AgentDefinition { name: "general".to_string(), prompt: "first".to_string() },
                AgentDefinition { name: "general".to_string(), prompt: "second".to_string() },
                AgentDefinition { name: "scout".to_string(), prompt: "explore".to_string() },
            ],
        },
    };
    let registry = agent_registry(&session);
    assert_eq!(registry.get_agent("general").map(|a| a.prompt.as_str()), Some("first"));
    assert_eq!(registry.get_agent("scout").map(|a| a.prompt.as_str()), Some("explore"));
    assert!(registry.get_agent("missing").is_none());
}

#[test]
fn sub_agent_keeps_parent_tools_but_not_agent() {
    let parent = ToolsConfig {
        apply_patch_tool_type: Some(ApplyPatchToolType::Freeform),
        web_search_request: true,
        include_view_image_tool: true,
        include_agent_tool: true,
        experimental_supported_tools: vec!["shell_command".to_string()],
    };
    let child = sub_agent_tools_config(&parent);
    assert!(!child.include_agent_tool);
    assert!(matches!(child.apply_patch_tool_type, Some(ApplyPatchToolType::Freeform)));
    assert!(child.web_search_request);
    assert!(child.include_view_image_tool);
    assert_eq!(child.experimental_supported_tools, vec!["shell_command".to_string()]);
}

#[test]
fn item_ids_use_the_call_id_or_a_random_one() {
    assert_eq!(agent_item_id("call-7", 42), "call-7");
    assert_eq!(agent_item_id("", 42), "agent-call-42");
    assert_eq!(new_agent_item_id("call-7"), "call-7");
    let generated = new_agent_item_id("");
    let digits = generated.strip_prefix("agent-call-").expect("prefix");
    assert!(!digits.is_empty());
    assert!(digits.parse::<u64>().is_ok());
}

#[test]
fn a_run_forwards_deltas_and_collects_the_message() {
    let mut run = AgentRun::new("call-1".to_string());
    assert!(matches!(run.on_event(ResponseEvent::Created), AgentRunAction::Continue));
    match run.on_event(ResponseEvent::OutputTextDelta("Hel".to_string())) {
        AgentRunAction::MessageDelta { item_id, delta } => {
            assert_eq!(item_id, "call-1");
            assert_eq!(delta, "Hel");
        }
        other => panic!("unexpected {other:?}"),
    }
    run.on_event(ResponseEvent::OutputTextDelta("lo".to_string()));
    // A finished message does not replace text already collected.
    run.on_event(ResponseEvent::OutputItemDone(assistant(&["Hello"])));
    assert_eq!(run.message, "Hello");
    match run.on_event(ResponseEvent::ReasoningSummaryDelta { delta: "r".to_string(), summary_index: 2 }) {
        AgentRunAction::ReasoningSummaryDelta { item_id, delta, summary_index } => {
            assert_eq!((item_id.as_str(), delta.as_str(), summary_index), ("call-1", "r", 2));
        }
        other => panic!("unexpected {other:?}"),
    }
    assert!(matches!(
        run.on_event(ResponseEvent::ReasoningSummaryPartAdded { summary_index: 3 }),
        AgentRunAction::ReasoningSectionBreak { summary_index: 3, .. }
    ));
    assert!(matches!(
        run.on_event(ResponseEvent::ReasoningContentDelta { delta: "x".to_string(), content_index: 1 }),
        AgentRunAction::ReasoningRawDelta { content_index: 1, .. }
    ));
    assert!(matches!(run.on_event(ResponseEvent::RateLimits), AgentRunAction::UpdateRateLimits));
    assert!(matches!(run.on_event(ResponseEvent::Completed), AgentRunAction::Complete));

    let end = finish_agent_run(run, "call-1".to_string(), call(None), 1234);
    assert_eq!(end.message, "Hello");
    assert_eq!(end.end.summary, "Hello");
    assert!(end.end.status == AgentStatus::Done);
    assert_eq!(end.end.duration_ms, 1234);
    assert_eq!(end.end.plan_item_id.as_deref(), Some("plan-1"));
    assert_eq!(end.output.content, "Hello");
    assert_eq!(end.output.success, Some(true));
}

#[test]
fn a_run_takes_the_first_assistant_message_when_nothing_streamed() {
    let mut run = AgentRun::new("id".to_string());
    run.on_event(ResponseEvent::OutputItemAdded(ResponseItem::Other));
    run.on_event(ResponseEvent::OutputItemAdded(assistant(&["first"])));
    run.on_event(ResponseEvent::OutputItemDone(assistant(&["second"])));
    assert_eq!(run.message, "first");
}

#[test]
fn a_silent_run_reports_no_output() {
    let run = AgentRun::new("id".to_string());
    let end = finish_agent_run(run, "id".to_string(), call(None), u128::MAX);
    assert_eq!(end.message, "Agent completed without output.");
    assert_eq!(end.output.content, "Agent completed without output.");
    assert_eq!(end.end.duration_ms, u64::MAX);
    assert_eq!(duration_ms(5), 5);
}

#[test]
fn context_lines() {
    assert_eq!(format_subagent_context_line("agent-1", Some("Scout")), "- agent-1: Scout");
    assert_eq!(format_subagent_context_line("agent-1", Some("")), "- agent-1");
    assert_eq!(format_subagent_context_line("agent-1", None), "- agent-1");
}

#[test]
fn agent_tool_is_offered_only_when_configured() {
    let parent = ToolsConfig {
        apply_patch_tool_type: None,
        web_search_request: false,
        include_view_image_tool: false,
        include_agent_tool: true,
        experimental_supported_tools: Vec::new(),
    };
    let spec = agent_tool_for(&parent).expect("agent tool");
    assert_eq!(spec, create_agent_tool());
    assert_eq!(spec.name, "agent");
    assert_eq!(spec.required, vec!["name".to_string(), "task".to_string()]);
    let names: Vec<&str> = spec.properties.iter().map(|p| p.name.as_str()).collect();
    assert_eq!(names, vec!["context", "name", "plan_item_id", "task"]);
    assert!(spec.supports_parallel_tool_calls);
    assert!(!spec.additional_properties);
    assert!(agent_tool_for(&sub_agent_tools_config(&parent)).is_none());
}

#[test]
fn a_failed_stream_ends_the_call_with_a_fatal_error() {
    let mut run = AgentRun::new("id".to_string());
    run.on_event(ResponseEvent::OutputTextDelta("partial".to_string()));
    match run.on_event(ResponseEvent::Failed("connection reset".to_string())) {
        AgentRunAction::Fail(FunctionCallError::Fatal(message)) => {
            assert_eq!(message, "connection reset")
        }
        other => panic!("unexpected {other:?}"),
    }
    assert_eq!(run.message, "partial");
}

#[test]
fn sub_agent_request_settings() {
    let start = start_agent_run(&"call-1".to_string(), &call(None), "Prompt.");
    assert!(!start.parallel_tool_calls);
    assert_eq!(start.base_instructions_override, None);
}
