//! The parts of a model-turn request and of its reply: the environment
//! context, the prompt with its projections, the reasoning parameter, and
//! the events of a reply.

use vstd::prelude::*;
use vstd::string::*;
use vstd::std_specs::convert::FromSpecImpl;
use crate::config_types::ReasoningEffort as ReasoningEffortConfig;
use crate::config_types::ReasoningSummary as ReasoningSummaryConfig;
use crate::config_types::SandboxMode;
use crate::model_family::ModelFamily;
use crate::models::{item_views, ContentItem, ContentItemView, ResponseItem, ResponseItemView};
use crate::openai_tools::OpenAiTool;
use crate::protocol::{AskForApproval, SandboxPolicy, TokenUsage};
use crate::text::text_of;
use crate::xml::{texts, write_record, xml_record};

verus! {

/// Opens the block that wraps user instructions, so that the model can tell
/// them from other content.
pub const USER_INSTRUCTIONS_START: &'static str = "<user_instructions>\n\n";

/// Closes the block that wraps user instructions.
pub const USER_INSTRUCTIONS_END: &'static str = "\n\n</user_instructions>";

/// Whether the agent's actions can reach the network.
#[derive(Debug, Clone, Copy, PartialEq, Eq, Structural)]
pub enum NetworkAccess {
    Restricted,
    Enabled,
}

impl NetworkAccess {
    /// The access that a sandbox policy grants: the network is open under
    /// full access, and in a writable workspace whose network flag is set.
    pub open spec fn granted_by(policy: SandboxPolicy) -> NetworkAccess {
        match policy {
            SandboxPolicy::DangerFullAccess => NetworkAccess::Enabled,
            SandboxPolicy::ReadOnly => NetworkAccess::Restricted,
            SandboxPolicy::WorkspaceWrite { network_access } => if network_access {
                NetworkAccess::Enabled
            } else {
                NetworkAccess::Restricted
            },
        }
    }

    /// The lower-case name of the value.
    pub open spec fn label_spec(self) -> Seq<char> {
        match self {
            NetworkAccess::Restricted => "restricted"@,
            NetworkAccess::Enabled => "enabled"@,
        }
    }

    /// The lower-case name of the value, as it is written in messages and on
    /// the wire.
    pub fn label(&self) -> (r: &'static str)
        ensures
            r@ == self.label_spec(),
    {
        match self {
            NetworkAccess::Restricted => "restricted",
            NetworkAccess::Enabled => "enabled",
        }
    }
}

/// The mode of a sandbox policy, without its details.
pub open spec fn mode_of(policy: SandboxPolicy) -> SandboxMode {
    match policy {
        SandboxPolicy::DangerFullAccess => SandboxMode::DangerFullAccess,
        SandboxPolicy::ReadOnly => SandboxMode::ReadOnly,
        SandboxPolicy::WorkspaceWrite { .. } => SandboxMode::WorkspaceWrite,
    }
}

/// What a request has to know about a session.
#[derive(Debug, Clone, PartialEq, Eq)]
pub struct SessionSettings {
    /// The working directory.
    pub cwd: String,
    pub approval_policy: AskForApproval,
    pub sandbox_policy: SandboxPolicy,
}

/// A snapshot of the environment a turn runs in. It is made once per turn
/// and only ever read.
#[derive(Debug, Clone, PartialEq, Eq)]
pub struct EnvironmentContext {
    /// The working directory.
    pub cwd: String,
    pub approval_policy: AskForApproval,
    pub sandbox_mode: SandboxMode,
    pub network_access: NetworkAccess,
}

impl From<&SessionSettings> for EnvironmentContext {
    fn from(session: &SessionSettings) -> (r: Self) {
        EnvironmentContext {
            cwd: session.cwd.clone(),
            approval_policy: session.approval_policy,
            sandbox_mode: match session.sandbox_policy {
                SandboxPolicy::DangerFullAccess => SandboxMode::DangerFullAccess,
                SandboxPolicy::ReadOnly => SandboxMode::ReadOnly,
                SandboxPolicy::WorkspaceWrite { .. } => SandboxMode::WorkspaceWrite,
            },
            network_access: match session.sandbox_policy {
                SandboxPolicy::DangerFullAccess => NetworkAccess::Enabled,
                SandboxPolicy::ReadOnly => NetworkAccess::Restricted,
                SandboxPolicy::WorkspaceWrite { network_access } => {
                    if network_access {
                        NetworkAccess::Enabled
                    } else {
                        NetworkAccess::Restricted
                    }
                },
            },
        }
    }
}

impl FromSpecImpl<&SessionSettings> for EnvironmentContext {
    open spec fn obeys_from_spec() -> bool {
        true
    }

    open spec fn from_spec(session: &SessionSettings) -> Self {
        EnvironmentContext::of_session(session)
    }
}

impl EnvironmentContext {
    /// The context of a session: its working directory and approval policy,
    /// the mode of its sandbox policy, and the network access that the
    /// policy grants.
    pub open spec fn of_session(session: &SessionSettings) -> EnvironmentContext {
        EnvironmentContext {
            cwd: session.cwd,
            approval_policy: session.approval_policy,
            sandbox_mode: mode_of(session.sandbox_policy),
            network_access: NetworkAccess::granted_by(session.sandbox_policy),
        }
    }

    /// The network access agrees with the sandbox mode: open under full
    /// access, closed in a read-only sandbox.
    pub open spec fn wf(&self) -> bool {
        &&& self.sandbox_mode == SandboxMode::DangerFullAccess ==> self.network_access
            == NetworkAccess::Enabled
        &&& self.sandbox_mode == SandboxMode::ReadOnly ==> self.network_access
            == NetworkAccess::Restricted
    }

    /// The context as four lines of plain text, each closed by a newline.
    pub open spec fn display_spec(&self) -> Seq<char> {
        "Current working directory: "@ + self.cwd@ + "\n"@ + "Approval policy: "@
            + self.approval_policy.label_spec() + "\n"@ + "Sandbox mode: "@
            + self.sandbox_mode.label_spec() + "\n"@ + "Network access: "@
            + self.network_access.label_spec() + "\n"@
    }

    /// The context as four lines of plain text: working directory, approval
    /// policy, sandbox mode and network access.
    pub fn display_string(&self) -> (r: String)
        ensures
            r@ == self.display_spec(),
    {
        let mut out = "Current working directory: ".to_owned();
        out.append(self.cwd.as_str());
        out.append("\n");
        out.append("Approval policy: ");
        out.append(self.approval_policy.label());
        out.append("\n");
        out.append("Sandbox mode: ");
        out.append(self.sandbox_mode.label());
        out.append("\n");
        out.append("Network access: ");
        out.append(self.network_access.label());
        out.append("\n");
        out
    }

    /// The names of the four fields of the structured block, in order.
    pub open spec fn field_names() -> Seq<Seq<char>> {
        seq!["cwd"@, "approval_policy"@, "sandbox_mode"@, "network_access"@]
    }

    /// The values of the four fields of the structured block, in order.
    pub open spec fn field_values(&self) -> Seq<Seq<char>> {
        seq![
            self.cwd@,
            self.approval_policy.label_spec(),
            self.sandbox_mode.label_spec(),
            self.network_access.label_spec(),
        ]
    }

    /// The structured block for this context: an element
    /// `environment_context` with one nested element per field, indented by
    /// two spaces; `None` where the serializer fails.
    pub open spec fn xml_spec(&self) -> Option<Seq<char>> {
        xml_record(
            "environment_context"@,
            Self::field_names(),
            self.field_values(),
            ' ',
            2,
        )
    }

    /// The structured block for this context, or `None` where it cannot be
    /// written.
    pub fn to_xml(&self) -> (r: Option<String>)
        ensures
            text_of(r) == self.xml_spec(),
    {
        let keys: [&'static str; 4] = ["cwd", "approval_policy", "sandbox_mode", "network_access"];
        let values: [&str; 4] = [
            self.cwd.as_str(),
            self.approval_policy.label(),
            self.sandbox_mode.label(),
            self.network_access.label(),
        ];
        proof {
            assert(texts(keys@) =~= Self::field_names());
            assert(texts(values@) =~= self.field_values());
        }
        match write_record("environment_context", keys, values, ' ', 2) {
            Ok(text) => Some(text),
            Err(_) => None,
        }
    }
}

/// A context made from a session is well formed, and its network access is
/// enabled exactly when the sandbox mode is full access, or is a writable
/// workspace whose network flag is set; otherwise it is restricted.
pub proof fn lemma_network_access(session: SessionSettings)
    ensures
        ({
            let context = EnvironmentContext::of_session(&session);
            &&& context.wf()
            &&& context.sandbox_mode == mode_of(session.sandbox_policy)
            &&& context.network_access == NetworkAccess::Enabled <==> (context.sandbox_mode
                == SandboxMode::DangerFullAccess || (context.sandbox_mode
                == SandboxMode::WorkspaceWrite && session.sandbox_policy
                == (SandboxPolicy::WorkspaceWrite { network_access: true })))
            &&& context.network_access == NetworkAccess::Restricted <==> !(context.sandbox_mode
                == SandboxMode::DangerFullAccess || (context.sandbox_mode
                == SandboxMode::WorkspaceWrite && session.sandbox_policy
                == (SandboxPolicy::WorkspaceWrite { network_access: true })))
        }),
{
}

/// The two fixed texts that instruction composition draws on.
#[derive(Debug, Clone, PartialEq, Eq)]
pub struct InstructionTexts {
    /// The instructions that every request starts with, unless the prompt
    /// overrides them.
    pub base: String,
    /// The guidance on the patch tool, for the models that need it.
    pub apply_patch: String,
}

/// The instruction text: the override where there is one, else the base
/// text; then, where the model needs it, one newline and the patch-tool
/// guidance.
pub open spec fn composed_instructions(
    base_override: Option<Seq<char>>,
    with_patch: bool,
    base: Seq<char>,
    apply_patch: Seq<char>,
) -> Seq<char> {
    let start = match base_override {
        Some(text) => text,
        None => base,
    };
    if with_patch {
        start + "\n"@ + apply_patch
    } else {
        start
    }
}

/// User instructions between their markers; nothing where there are none or
/// they are empty.
pub open spec fn formatted_user_instructions(instructions: Option<Seq<char>>) -> Option<
    Seq<char>,
> {
    match instructions {
        Some(text) => if text.len() > 0 {
            Some(USER_INSTRUCTIONS_START@ + text + USER_INSTRUCTIONS_END@)
        } else {
            None
        },
        None => None,
    }
}

/// A message of the user that holds one piece of text.
pub open spec fn user_message_view(text: Seq<char>) -> ResponseItemView {
    ResponseItemView::Message {
        id: None,
        role: "user"@,
        content: seq![ContentItemView::InputText { text }],
    }
}

/// The message for a text, where there is one.
pub open spec fn optional_message(text: Option<Seq<char>>) -> Seq<ResponseItemView> {
    match text {
        Some(t) => seq![user_message_view(t)],
        None => seq![],
    }
}

/// The input of a turn: the environment context, the user instructions,
/// then the history.
pub open spec fn input_sequence(
    environment_context: Option<Seq<char>>,
    user_instructions: Option<Seq<char>>,
    history: Seq<ResponseItemView>,
) -> Seq<ResponseItemView> {
    optional_message(environment_context) + optional_message(user_instructions) + history
}

/// A message of the user that holds `text`.
fn user_message(text: String) -> (r: ResponseItem)
    ensures
        r@ == user_message_view(text@),
{
    let mut content: Vec<ContentItem> = Vec::new();
    content.push(ContentItem::InputText { text });
    let item = ResponseItem::Message { id: None, role: "user".to_owned(), content };
    assert(item@->Message_content =~= seq![ContentItemView::InputText { text: text@ }]);
    item
}

/// What a single model turn is built from. The fields are set once; the
/// methods only read them.
#[derive(Debug, Clone)]
pub struct Prompt {
    /// The conversation so far.
    pub input: Vec<ResponseItem>,
    /// Instructions of the user, to be added to the built-in ones.
    pub user_instructions: Option<String>,
    /// Whether the service may keep the response.
    pub store: bool,
    /// The environment the turn runs in.
    pub environment_context: Option<EnvironmentContext>,
    /// The tools that the model may call.
    pub tools: Vec<OpenAiTool>,
    /// Replaces the base instructions where it is set.
    pub base_instructions_override: Option<String>,
}

impl Default for Prompt {
    fn default() -> (r: Self)
        ensures
            r.input@.len() == 0,
            r.user_instructions is None,
            !r.store,
            r.environment_context is None,
            r.tools@.len() == 0,
            r.base_instructions_override is None,
    {
        Prompt {
            input: Vec::new(),
            user_instructions: None,
            store: false,
            environment_context: None,
            tools: Vec::new(),
            base_instructions_override: None,
        }
    }
}

impl Prompt {
    /// The instruction text of this prompt for `model`.
    pub open spec fn full_instructions_spec(
        &self,
        model: &ModelFamily,
        texts: &InstructionTexts,
    ) -> Seq<char> {
        composed_instructions(
            text_of(self.base_instructions_override),
            model.needs_special_apply_patch_instructions,
            texts.base@,
            texts.apply_patch@,
        )
    }

    /// The structured block for the environment context; `None` where the
    /// prompt has no context or the block cannot be written.
    pub open spec fn environment_context_spec(&self) -> Option<Seq<char>> {
        match self.environment_context {
            Some(context) => context.xml_spec(),
            None => None,
        }
    }

    /// The input of this prompt, given the text of the environment-context
    /// block.
    pub open spec fn input_spec(&self, environment_context: Option<Seq<char>>) -> Seq<
        ResponseItemView,
    > {
        input_sequence(
            environment_context,
            formatted_user_instructions(text_of(self.user_instructions)),
            item_views(self.input@),
        )
    }

    /// The instruction text that is sent to `model`: the override of this
    /// prompt, or the base text, followed by the patch-tool guidance where
    /// the model needs it.
    pub fn get_full_instructions(&self, model: &ModelFamily, texts: &InstructionTexts) -> (r:
        String)
        ensures
            r@ == self.full_instructions_spec(model, texts),
    {
        let mut out = match &self.base_instructions_override {
            Some(text) => text.clone(),
            None => texts.base.clone(),
        };
        if model.needs_special_apply_patch_instructions {
            out.append("\n");
            out.append(texts.apply_patch.as_str());
        }
        out
    }

    /// The user instructions between their markers; `None` where the prompt
    /// has none or they are empty.
    pub fn get_formatted_user_instructions(&self) -> (r: Option<String>)
        ensures
            text_of(r) == formatted_user_instructions(text_of(self.user_instructions)),
    {
        match &self.user_instructions {
            Some(text) => {
                if text.as_str().is_empty() {
                    None
                } else {
                    let mut out = USER_INSTRUCTIONS_START.to_owned();
                    out.append(text.as_str());
                    out.append(USER_INSTRUCTIONS_END);
                    Some(out)
                }
            },
            None => None,
        }
    }

    /// The structured block for the environment context. Failing to write
    /// it is not an error of the request: the block is then left out.
    pub fn get_formatted_environment_context(&self) -> (r: Option<String>)
        ensures
            text_of(r) == self.environment_context_spec(),
    {
        match &self.environment_context {
            Some(context) => context.to_xml(),
            None => None,
        }
    }

    /// The input of the turn, given the text of the environment-context
    /// block: that block as a message of the user where there is one, then
    /// the user instructions where there are any, then the history as it
    /// is, item by item.
    pub fn assemble_input(&self, environment_context: Option<String>) -> (r: Vec<ResponseItem>)
        ensures
            item_views(r@) == self.input_spec(text_of(environment_context)),
    {
        let mut out: Vec<ResponseItem> = Vec::new();
        if let Some(text) = environment_context {
            out.push(user_message(text));
        }
        if let Some(text) = self.get_formatted_user_instructions() {
            out.push(user_message(text));
        }
        let ghost head = item_views(out@);
        assert(head =~= optional_message(text_of(environment_context)) + optional_message(
            formatted_user_instructions(text_of(self.user_instructions)),
        ));
        let mut i: usize = 0;
        while i < self.input.len()
            invariant
                i <= self.input.len(),
                item_views(out@) =~= head + item_views(self.input@.take(i as int)),
            decreases self.input.len() - i,
        {
            let ghost before = out@;
            out.push(self.input[i].clone());
            assert(item_views(out@) =~= item_views(before).push(self.input@[i as int]@));
            assert(item_views(self.input@.take(i + 1)) =~= item_views(
                self.input@.take(i as int),
            ).push(self.input@[i as int]@));
            i += 1;
        }
        assert(self.input@.take(i as int) =~= self.input@);
        out
    }

    /// The input of the turn: the environment context, then the user
    /// instructions, then the history.
    pub fn get_formatted_input(&self) -> (r: Vec<ResponseItem>)
        ensures
            item_views(r@) == self.input_spec(self.environment_context_spec()),
    {
        self.assemble_input(self.get_formatted_environment_context())
    }
}

/// The instruction text depends on nothing but the override and on whether
/// the model needs the patch-tool guidance: two prompts that agree on the
/// first, for two models that agree on the second, get the same text.
pub proof fn lemma_instructions_deterministic(
    first: Prompt,
    second: Prompt,
    first_model: ModelFamily,
    second_model: ModelFamily,
    texts: InstructionTexts,
)
    requires
        text_of(first.base_instructions_override) == text_of(second.base_instructions_override),
        first_model.needs_special_apply_patch_instructions
            == second_model.needs_special_apply_patch_instructions,
    ensures
        first.full_instructions_spec(&first_model, &texts) == second.full_instructions_spec(
            &second_model,
            &texts,
        ),
{
}

/// The patch-tool guidance is appended exactly when the model needs it, and
/// exactly one newline stands between it and what comes before.
pub proof fn lemma_patch_instructions_appended(
    base_override: Option<Seq<char>>,
    with_patch: bool,
    base: Seq<char>,
    apply_patch: Seq<char>,
)
    ensures
        ({
            let start = composed_instructions(base_override, false, base, apply_patch);
            let text = composed_instructions(base_override, with_patch, base, apply_patch);
            &&& start == if base_override is Some {
                base_override->0
            } else {
                base
            }
            &&& with_patch ==> text == start + seq!['\n'] + apply_patch
            &&& !with_patch ==> text == start
            &&& with_patch <==> text.len() == start.len() + 1 + apply_patch.len()
        }),
{
    reveal_strlit("\n");
    assert("\n"@ =~= seq!['\n']);
}

/// The environment-context message, where there is one, is the first item;
/// the user-instructions message, where there is one, comes right after it;
/// the history follows, unchanged and in its order. This holds whichever of
/// the two messages are there.
pub proof fn lemma_input_order(
    environment_context: Option<Seq<char>>,
    user_instructions: Option<Seq<char>>,
    history: Seq<ResponseItemView>,
)
    ensures
        ({
            let input = input_sequence(environment_context, user_instructions, history);
            let context_count: int = if environment_context is Some {
                1
            } else {
                0
            };
            let instructions_count: int = if user_instructions is Some {
                1
            } else {
                0
            };
            &&& input.len() == context_count + instructions_count + history.len()
            &&& environment_context is Some ==> input[0] == user_message_view(
                environment_context->0,
            )
            &&& user_instructions is Some ==> input[context_count] == user_message_view(
                user_instructions->0,
            )
            &&& input.subrange(context_count + instructions_count, input.len() as int)
                == history
        }),
{
    let input = input_sequence(environment_context, user_instructions, history);
    let head = optional_message(environment_context) + optional_message(user_instructions);
    assert(input.subrange(head.len() as int, input.len() as int) =~= history);
}

/// Where the environment-context block cannot be written, the input is the
/// user instructions, where there are any, and the history.
pub proof fn lemma_input_without_context(prompt: Prompt)
    ensures
        prompt.input_spec(None) == optional_message(
            formatted_user_instructions(text_of(prompt.user_instructions)),
        ) + item_views(prompt.input@),
{
    assert(prompt.input_spec(None) =~= optional_message(
        formatted_user_instructions(text_of(prompt.user_instructions)),
    ) + item_views(prompt.input@));
}

/// One event of a reply, as the reader of the transport decodes it.
#[derive(Debug)]
pub enum ResponseEvent {
    Created,
    OutputItemDone(ResponseItem),
    Completed { response_id: String, token_usage: Option<TokenUsage> },
    OutputTextDelta(String),
    ReasoningSummaryDelta(String),
    ReasoningContentDelta(String),
    ReasoningSummaryPartAdded,
}

/// Reasoning effort as the wire format knows it.
#[derive(Debug, Clone, Copy, PartialEq, Eq, Structural)]
pub enum OpenAiReasoningEffort {
    Low,
    Medium,
    High,
}

impl Default for OpenAiReasoningEffort {
    fn default() -> (r: Self)
        ensures
            r == OpenAiReasoningEffort::Medium,
    {
        OpenAiReasoningEffort::Medium
    }
}

impl From<ReasoningEffortConfig> for Option<OpenAiReasoningEffort> {
    fn from(effort: ReasoningEffortConfig) -> (r: Self) {
        match effort {
            ReasoningEffortConfig::Low => Some(OpenAiReasoningEffort::Low),
            ReasoningEffortConfig::Medium => Some(OpenAiReasoningEffort::Medium),
            ReasoningEffortConfig::High => Some(OpenAiReasoningEffort::High),
            ReasoningEffortConfig::Off => None,
        }
    }
}

impl FromSpecImpl<ReasoningEffortConfig> for Option<OpenAiReasoningEffort> {
    open spec fn obeys_from_spec() -> bool {
        true
    }

    open spec fn from_spec(effort: ReasoningEffortConfig) -> Self {
        wire_effort(effort)
    }
}

/// Reasoning summary as the wire format knows it.
#[derive(Debug, Clone, Copy, PartialEq, Eq, Structural)]
pub enum OpenAiReasoningSummary {
    Auto,
    Concise,
    Detailed,
}

impl Default for OpenAiReasoningSummary {
    fn default() -> (r: Self)
        ensures
            r == OpenAiReasoningSummary::Auto,
    {
        OpenAiReasoningSummary::Auto
    }
}

impl From<ReasoningSummaryConfig> for Option<OpenAiReasoningSummary> {
    fn from(summary: ReasoningSummaryConfig) -> (r: Self) {
        match summary {
            ReasoningSummaryConfig::Auto => Some(OpenAiReasoningSummary::Auto),
            ReasoningSummaryConfig::Concise => Some(OpenAiReasoningSummary::Concise),
            ReasoningSummaryConfig::Detailed => Some(OpenAiReasoningSummary::Detailed),
            ReasoningSummaryConfig::Off => None,
        }
    }
}

impl FromSpecImpl<ReasoningSummaryConfig> for Option<OpenAiReasoningSummary> {
    open spec fn obeys_from_spec() -> bool {
        true
    }

    open spec fn from_spec(summary: ReasoningSummaryConfig) -> Self {
        wire_summary(summary)
    }
}

/// The wire value of a configured effort; none where reasoning is switched
/// off.
pub open spec fn wire_effort(effort: ReasoningEffortConfig) -> Option<OpenAiReasoningEffort> {
    match effort {
        ReasoningEffortConfig::Low => Some(OpenAiReasoningEffort::Low),
        ReasoningEffortConfig::Medium => Some(OpenAiReasoningEffort::Medium),
        ReasoningEffortConfig::High => Some(OpenAiReasoningEffort::High),
        ReasoningEffortConfig::Off => None,
    }
}

/// The wire value of a configured summary; none where no summary is asked
/// for.
pub open spec fn wire_summary(summary: ReasoningSummaryConfig) -> Option<
    OpenAiReasoningSummary,
> {
    match summary {
        ReasoningSummaryConfig::Auto => Some(OpenAiReasoningSummary::Auto),
        ReasoningSummaryConfig::Concise => Some(OpenAiReasoningSummary::Concise),
        ReasoningSummaryConfig::Detailed => Some(OpenAiReasoningSummary::Detailed),
        ReasoningSummaryConfig::Off => None,
    }
}

/// The reasoning block of a request.
#[derive(Debug, Clone, Copy, PartialEq, Eq, Structural)]
pub struct Reasoning {
    pub effort: OpenAiReasoningEffort,
    /// Left out of the request where it is `None`.
    pub summary: Option<OpenAiReasoningSummary>,
}

/// The reasoning block for a request: none where the model family cannot
/// report reasoning summaries or the effort is switched off; else the wire
/// effort with the wire summary, which itself may be none.
pub open spec fn selected_reasoning(
    supports_reasoning_summaries: bool,
    effort: ReasoningEffortConfig,
    summary: ReasoningSummaryConfig,
) -> Option<Reasoning> {
    if supports_reasoning_summaries {
        match wire_effort(effort) {
            Some(e) => Some(Reasoning { effort: e, summary: wire_summary(summary) }),
            None => None,
        }
    } else {
        None
    }
}

/// The reasoning block to send to a model of `model_family` under the
/// configured effort and summary, if any.
pub fn create_reasoning_param_for_request(
    model_family: &ModelFamily,
    effort: ReasoningEffortConfig,
    summary: ReasoningSummaryConfig,
) -> (r: Option<Reasoning>)
    ensures
        r == selected_reasoning(model_family.supports_reasoning_summaries, effort, summary),
{
    if model_family.supports_reasoning_summaries {
        let effort: Option<OpenAiReasoningEffort> = effort.into();
        match effort {
            Some(effort) => Some(Reasoning { effort, summary: summary.into() }),
            None => None,
        }
    } else {
        None
    }
}

/// Without an effort there is no reasoning block, whatever summary was asked
/// for; nor is there one for a family that does not support it. With an
/// effort and a family that supports it there is a block, and it has no
/// summary exactly when none was asked for.
pub proof fn lemma_reasoning_selection(
    supports_reasoning_summaries: bool,
    effort: ReasoningEffortConfig,
    summary: ReasoningSummaryConfig,
)
    ensures
        ({
            let block = selected_reasoning(supports_reasoning_summaries, effort, summary);
            &&& effort == ReasoningEffortConfig::Off ==> block is None
            &&& !supports_reasoning_summaries ==> block is None
            &&& effort != ReasoningEffortConfig::Off && supports_reasoning_summaries ==> block
                == Some(
                Reasoning { effort: wire_effort(effort)->0, summary: wire_summary(summary) },
            )
            &&& block is Some && summary == ReasoningSummaryConfig::Off
                ==> block->0.summary is None
            &&& block is Some && summary != ReasoningSummaryConfig::Off
                ==> block->0.summary is Some
        }),
{
}

} // verus!
