use codex_core::client_common::{
    create_reasoning_param_for_request, EnvironmentContext, InstructionTexts, NetworkAccess,
    OpenAiReasoningEffort, OpenAiReasoningSummary, Prompt, Reasoning, ResponseEvent,
    SessionSettings, USER_INSTRUCTIONS_END, USER_INSTRUCTIONS_START,
};
use codex_core::config_types::{ReasoningEffort, ReasoningSummary, SandboxMode};
use codex_core::model_family::ModelFamily;
use codex_core::models::{ContentItem, ResponseItem};
use codex_core::protocol::{AskForApproval, SandboxPolicy, TokenUsage};

const BASE_INSTRUCTIONS: &str = "You are a coding agent.\nBe precise.";
const APPLY_PATCH_TOOL_INSTRUCTIONS: &str = "## apply_patch\n\nUse the patch tool to edit files.";

fn instruction_texts() -> InstructionTexts {
    InstructionTexts {
        base: BASE_INSTRUCTIONS.to_string(),
        apply_patch: APPLY_PATCH_TOOL_INSTRUCTIONS.to_string(),
    }
}

fn find_family_for_model(slug: &str) -> Option<ModelFamily> {
    if slug.starts_with("gpt-4.1") {
        Some(ModelFamily {
            slug: slug.to_string(),
            family: "gpt-4.1".to_string(),
            needs_special_apply_patch_instructions: true,
            supports_reasoning_summaries: false,
        })
    } else if slug.starts_with("o3") {
        Some(ModelFamily {
            slug: slug.to_string(),
            family: "o3".to_string(),
            needs_special_apply_patch_instructions: false,
            supports_reasoning_summaries: true,
        })
    } else {
        None
    }
}

fn user_message(text: &str) -> ResponseItem {
    ResponseItem::Message {
        id: None,
        role: "user".to_string(),
        content: vec![ContentItem::InputText { text: text.to_string() }],
    }
}

fn history() -> Vec<ResponseItem> {
    vec![
        ResponseItem::Message {
            id: Some("msg_1".to_string()),
            role: "assistant".to_string(),
            content: vec![ContentItem::OutputText { text: "hello".to_string() }],
        },
        ResponseItem::FunctionCall {
            id: None,
            name: "shell".to_string(),
            arguments: "{\"command\":[\"ls\"]}".to_string(),
            call_id: "call_1".to_string(),
        },
        ResponseItem::FunctionCallOutput {
            call_id: "call_1".to_string(),
            output: "src\n".to_string(),
        },
        ResponseItem::Other,
        ResponseItem::Message {
            id: Some("msg_1".to_string()),
            role: "assistant".to_string(),
            content: vec![ContentItem::OutputText { text: "hello".to_string() }],
        },
    ]
}

fn context() -> EnvironmentContext {
    EnvironmentContext {
        cwd: "/home/user/project".to_string(),
        approval_policy: AskForApproval::OnRequest,
        sandbox_mode: SandboxMode::WorkspaceWrite,
        network_access: NetworkAccess::Restricted,
    }
}

const CONTEXT_XML: &str = "<environment_context>\n  <cwd>/home/user/project</cwd>\n  <approval_policy>on-request</approval_policy>\n  <sandbox_mode>workspace-write</sandbox_mode>\n  <network_access>restricted</network_access>\n</environment_context>";

#[test]
fn get_full_instructions_no_user_content() {
    let prompt = Prompt {
        user_instructions: Some("custom instruction".to_string()),
        ..Default::default()
    };
    let expected = format!("{BASE_INSTRUCTIONS}\n{APPLY_PATCH_TOOL_INSTRUCTIONS}");
    let model_family = find_family_for_model("gpt-4.1").expect("known model slug");
    let full = prompt.get_full_instructions(&model_family, &instruction_texts());
    assert_eq!(full, expected);
}

#[test]
fn full_instructions_without_patch_guidance_are_the_base_text() {
    let prompt = Prompt::default();
    let model_family = find_family_for_model("o3").expect("known model slug");
    let full = prompt.get_full_instructions(&model_family, &instruction_texts());
    assert_eq!(full, BASE_INSTRUCTIONS);
}

#[test]
fn full_instructions_start_from_the_override() {
    let prompt = Prompt {
        base_instructions_override: Some("Only answer in French.".to_string()),
        ..Default::default()
    };
    let plain = find_family_for_model("o3").expect("known model slug");
    let patching = find_family_for_model("gpt-4.1").expect("known model slug");
    assert_eq!(
        prompt.get_full_instructions(&plain, &instruction_texts()),
        "Only answer in French."
    );
    assert_eq!(
        prompt.get_full_instructions(&patching, &instruction_texts()),
        format!("Only answer in French.\n{APPLY_PATCH_TOOL_INSTRUCTIONS}")
    );
}

#[test]
fn full_instructions_ignore_everything_but_override_and_capability() {
    let bare = Prompt::default();
    let busy = Prompt {
        input: history(),
        user_instructions: Some("custom instruction".to_string()),
        store: true,
        environment_context: Some(context()),
        ..Default::default()
    };
    let one = find_family_for_model("gpt-4.1").expect("known model slug");
    let other = find_family_for_model("gpt-4.1-mini").expect("known model slug");
    let first = bare.get_full_instructions(&one, &instruction_texts());
    let second = busy.get_full_instructions(&other, &instruction_texts());
    let again = bare.get_full_instructions(&one, &instruction_texts());
    assert_eq!(first, second);
    assert_eq!(first, again);
}

#[test]
fn patch_guidance_is_separated_by_exactly_one_newline() {
    let prompt = Prompt::default();
    let patching = find_family_for_model("gpt-4.1").expect("known model slug");
    let full = prompt.get_full_instructions(&patching, &instruction_texts());
    assert_eq!(
        full.len(),
        BASE_INSTRUCTIONS.len() + 1 + APPLY_PATCH_TOOL_INSTRUCTIONS.len()
    );
    assert_eq!(&full[BASE_INSTRUCTIONS.len()..BASE_INSTRUCTIONS.len() + 1], "\n");
    assert!(full.ends_with(APPLY_PATCH_TOOL_INSTRUCTIONS));
}

#[test]
fn default_prompt_is_empty() {
    let prompt = Prompt::default();
    assert!(prompt.input.is_empty());
    assert_eq!(prompt.user_instructions, None);
    assert!(!prompt.store);
    assert_eq!(prompt.environment_context, None);
    assert!(prompt.tools.is_empty());
    assert_eq!(prompt.base_instructions_override, None);
    assert!(prompt.get_formatted_input().is_empty());
}

#[test]
fn user_instructions_are_wrapped_in_markers() {
    let prompt = Prompt {
        user_instructions: Some("custom instruction".to_string()),
        ..Default::default()
    };
    assert_eq!(USER_INSTRUCTIONS_START, "<user_instructions>\n\n");
    assert_eq!(USER_INSTRUCTIONS_END, "\n\n</user_instructions>");
    assert_eq!(
        prompt.get_formatted_user_instructions(),
        Some("<user_instructions>\n\ncustom instruction\n\n</user_instructions>".to_string())
    );
}

#[test]
fn absent_or_empty_user_instructions_give_no_message() {
    let absent = Prompt::default();
    assert_eq!(absent.get_formatted_user_instructions(), None);
    let empty = Prompt { user_instructions: Some(String::new()), ..Default::default() };
    assert_eq!(empty.get_formatted_user_instructions(), None);
    assert!(empty.get_formatted_input().is_empty());
    let blank = Prompt { user_instructions: Some(" ".to_string()), ..Default::default() };
    assert_eq!(
        blank.get_formatted_user_instructions(),
        Some("<user_instructions>\n\n \n\n</user_instructions>".to_string())
    );
}

#[test]
fn network_access_follows_the_sandbox_policy() {
    let cases = [
        (SandboxPolicy::DangerFullAccess, SandboxMode::DangerFullAccess, NetworkAccess::Enabled),
        (SandboxPolicy::ReadOnly, SandboxMode::ReadOnly, NetworkAccess::Restricted),
        (
            SandboxPolicy::WorkspaceWrite { network_access: true },
            SandboxMode::WorkspaceWrite,
            NetworkAccess::Enabled,
        ),
        (
            SandboxPolicy::WorkspaceWrite { network_access: false },
            SandboxMode::WorkspaceWrite,
            NetworkAccess::Restricted,
        ),
    ];
    for (policy, mode, access) in cases {
        let session = SessionSettings {
            cwd: "/tmp/work".to_string(),
            approval_policy: AskForApproval::Never,
            sandbox_policy: policy,
        };
        let made = EnvironmentContext::from(&session);
        assert_eq!(made.cwd, "/tmp/work");
        assert_eq!(made.approval_policy, AskForApproval::Never);
        assert_eq!(made.sandbox_mode, mode);
        assert_eq!(made.network_access, access);
    }
}

#[test]
fn labels_are_the_wire_names() {
    assert_eq!(AskForApproval::UnlessTrusted.label(), "untrusted");
    assert_eq!(AskForApproval::OnFailure.label(), "on-failure");
    assert_eq!(AskForApproval::OnRequest.label(), "on-request");
    assert_eq!(AskForApproval::Never.label(), "never");
    assert_eq!(SandboxMode::DangerFullAccess.label(), "danger-full-access");
    assert_eq!(SandboxMode::ReadOnly.label(), "read-only");
    assert_eq!(SandboxMode::WorkspaceWrite.label(), "workspace-write");
    assert_eq!(NetworkAccess::Restricted.label(), "restricted");
    assert_eq!(NetworkAccess::Enabled.label(), "enabled");
}

#[test]
fn environment_context_displays_as_four_lines() {
    assert_eq!(
        context().display_string(),
        "Current working directory: /home/user/project\nApproval policy: on-request\nSandbox mode: workspace-write\nNetwork access: restricted\n"
    );
    let open = EnvironmentContext {
        cwd: String::new(),
        approval_policy: AskForApproval::UnlessTrusted,
        sandbox_mode: SandboxMode::DangerFullAccess,
        network_access: NetworkAccess::Enabled,
    };
    assert_eq!(
        open.display_string(),
        "Current working directory: \nApproval policy: untrusted\nSandbox mode: danger-full-access\nNetwork access: enabled\n"
    );
}

#[test]
fn environment_context_is_written_as_an_indented_block() {
    assert_eq!(context().to_xml(), Some(CONTEXT_XML.to_string()));
    let prompt = Prompt { environment_context: Some(context()), ..Default::default() };
    assert_eq!(prompt.get_formatted_environment_context(), Some(CONTEXT_XML.to_string()));
    assert_eq!(Prompt::default().get_formatted_environment_context(), None);
}

#[test]
fn environment_context_block_escapes_markup_in_the_path() {
    let odd = EnvironmentContext {
        cwd: "/srv/a&b/<new>".to_string(),
        approval_policy: AskForApproval::Never,
        sandbox_mode: SandboxMode::ReadOnly,
        network_access: NetworkAccess::Restricted,
    };
    assert_eq!(
        odd.to_xml(),
        Some(
            "<environment_context>\n  <cwd>/srv/a&amp;b/&lt;new&gt;</cwd>\n  <approval_policy>never</approval_policy>\n  <sandbox_mode>read-only</sandbox_mode>\n  <network_access>restricted</network_access>\n</environment_context>"
                .to_string()
        )
    );
}

#[test]
fn environment_context_block_closes_an_empty_path_at_once() {
    let nowhere = EnvironmentContext {
        cwd: String::new(),
        approval_policy: AskForApproval::OnFailure,
        sandbox_mode: SandboxMode::DangerFullAccess,
        network_access: NetworkAccess::Enabled,
    };
    assert_eq!(
        nowhere.to_xml(),
        Some(
            "<environment_context>\n  <cwd/>\n  <approval_policy>on-failure</approval_policy>\n  <sandbox_mode>danger-full-access</sandbox_mode>\n  <network_access>enabled</network_access>\n</environment_context>"
                .to_string()
        )
    );
}

#[test]
fn input_order_with_context_and_instructions() {
    let prompt = Prompt {
        input: history(),
        user_instructions: Some("custom instruction".to_string()),
        environment_context: Some(context()),
        ..Default::default()
    };
    let mut expected = vec![
        user_message(CONTEXT_XML),
        user_message("<user_instructions>\n\ncustom instruction\n\n</user_instructions>"),
    ];
    expected.extend(history());
    assert_eq!(prompt.get_formatted_input(), expected);
}

#[test]
fn input_order_with_context_only() {
    let prompt = Prompt {
        input: history(),
        environment_context: Some(context()),
        ..Default::default()
    };
    let mut expected = vec![user_message(CONTEXT_XML)];
    expected.extend(history());
    assert_eq!(prompt.get_formatted_input(), expected);
}

#[test]
fn input_order_with_instructions_only() {
    let prompt = Prompt {
        input: history(),
        user_instructions: Some("custom instruction".to_string()),
        ..Default::default()
    };
    let mut expected =
        vec![user_message("<user_instructions>\n\ncustom instruction\n\n</user_instructions>")];
    expected.extend(history());
    assert_eq!(prompt.get_formatted_input(), expected);
}

#[test]
fn input_is_the_history_when_nothing_else_is_there() {
    let prompt = Prompt { input: history(), ..Default::default() };
    assert_eq!(prompt.get_formatted_input(), history());
    assert_eq!(prompt.input, history());
}

#[test]
fn input_without_context_block_keeps_instructions_and_history() {
    let prompt = Prompt {
        input: history(),
        user_instructions: Some("custom instruction".to_string()),
        environment_context: Some(context()),
        ..Default::default()
    };
    let mut expected =
        vec![user_message("<user_instructions>\n\ncustom instruction\n\n</user_instructions>")];
    expected.extend(history());
    assert_eq!(prompt.assemble_input(None), expected);
}

#[test]
fn input_takes_the_context_block_as_it_is_given() {
    let prompt = Prompt { input: history(), ..Default::default() };
    let mut expected = vec![user_message("<environment_context/>")];
    expected.extend(history());
    assert_eq!(prompt.assemble_input(Some("<environment_context/>".to_string())), expected);
}

#[test]
fn cloned_items_are_equal_to_what_they_copy() {
    for item in history() {
        assert_eq!(item.clone(), item);
    }
    let image = ContentItem::InputImage { image_url: "data:image/png;base64,AAAA".to_string() };
    assert_eq!(image.clone(), image);
}

#[test]
fn reasoning_is_left_out_without_effort() {
    let family = find_family_for_model("o3").expect("known model slug");
    for summary in [
        ReasoningSummary::Auto,
        ReasoningSummary::Concise,
        ReasoningSummary::Detailed,
        ReasoningSummary::Off,
    ] {
        assert_eq!(create_reasoning_param_for_request(&family, ReasoningEffort::Off, summary), None);
    }
}

#[test]
fn reasoning_is_left_out_for_a_family_without_support() {
    let family = find_family_for_model("gpt-4.1").expect("known model slug");
    for effort in [ReasoningEffort::Low, ReasoningEffort::Medium, ReasoningEffort::High] {
        assert_eq!(
            create_reasoning_param_for_request(&family, effort, ReasoningSummary::Detailed),
            None
        );
    }
}

#[test]
fn reasoning_keeps_effort_and_leaves_out_an_unwanted_summary() {
    let family = find_family_for_model("o3").expect("known model slug");
    assert_eq!(
        create_reasoning_param_for_request(&family, ReasoningEffort::High, ReasoningSummary::Off),
        Some(Reasoning { effort: OpenAiReasoningEffort::High, summary: None })
    );
    assert_eq!(
        create_reasoning_param_for_request(&family, ReasoningEffort::Low, ReasoningSummary::Off),
        Some(Reasoning { effort: OpenAiReasoningEffort::Low, summary: None })
    );
}

#[test]
fn reasoning_maps_effort_and_summary_to_their_wire_values() {
    let family = find_family_for_model("o3").expect("known model slug");
    assert_eq!(
        create_reasoning_param_for_request(&family, ReasoningEffort::Low, ReasoningSummary::Auto),
        Some(Reasoning {
            effort: OpenAiReasoningEffort::Low,
            summary: Some(OpenAiReasoningSummary::Auto)
        })
    );
    assert_eq!(
        create_reasoning_param_for_request(
            &family,
            ReasoningEffort::Medium,
            ReasoningSummary::Concise
        ),
        Some(Reasoning {
            effort: OpenAiReasoningEffort::Medium,
            summary: Some(OpenAiReasoningSummary::Concise)
        })
    );
    assert_eq!(
        create_reasoning_param_for_request(
            &family,
            ReasoningEffort::High,
            ReasoningSummary::Detailed
        ),
        Some(Reasoning {
            effort: OpenAiReasoningEffort::High,
            summary: Some(OpenAiReasoningSummary::Detailed)
        })
    );
}

#[test]
fn configuration_converts_into_optional_wire_values() {
    let effort: Option<OpenAiReasoningEffort> = ReasoningEffort::Off.into();
    assert_eq!(effort, None);
    let effort: Option<OpenAiReasoningEffort> = ReasoningEffort::Medium.into();
    assert_eq!(effort, Some(OpenAiReasoningEffort::Medium));
    let summary: Option<OpenAiReasoningSummary> = ReasoningSummary::Off.into();
    assert_eq!(summary, None);
    let summary: Option<OpenAiReasoningSummary> = ReasoningSummary::Detailed.into();
    assert_eq!(summary, Some(OpenAiReasoningSummary::Detailed));
}

#[test]
fn defaults_are_medium_effort_and_automatic_summary() {
    assert_eq!(ReasoningEffort::default(), ReasoningEffort::Medium);
    assert_eq!(ReasoningSummary::default(), ReasoningSummary::Auto);
    assert_eq!(OpenAiReasoningEffort::default(), OpenAiReasoningEffort::Medium);
    assert_eq!(OpenAiReasoningSummary::default(), OpenAiReasoningSummary::Auto);
}

#[test]
fn response_events_own_their_payload() {
    let usage = TokenUsage {
        input_tokens: 10,
        cached_input_tokens: Some(4),
        output_tokens: 7,
        reasoning_output_tokens: None,
        total_tokens: 17,
    };
    let events = vec![
        ResponseEvent::Created,
        ResponseEvent::OutputTextDelta("he".to_string()),
        ResponseEvent::ReasoningSummaryPartAdded,
        ResponseEvent::ReasoningSummaryDelta("thinking".to_string()),
        ResponseEvent::ReasoningContentDelta("step".to_string()),
        ResponseEvent::OutputItemDone(ResponseItem::Other),
        ResponseEvent::Completed { response_id: "resp_1".to_string(), token_usage: Some(usage) },
    ];
    assert_eq!(events.len(), 7);
    match &events[6] {
        ResponseEvent::Completed { response_id, token_usage } => {
            assert_eq!(response_id, "resp_1");
            assert_eq!(*token_usage, Some(usage));
        }
        other => panic!("unexpected event {other:?}"),
    }
    assert!(matches!(&events[1], ResponseEvent::OutputTextDelta(text) if text == "he"));
}
