use vstd::prelude::*;
use crate::message::{
    Message, MessageView, assistant_role, copy_messages, system_role, text_message, user_role,
    views,
};
use crate::text::{same_text, trim, trimmed};
use crate::tools::{ToolDescriptorView, ToolDispatcher, has_tool, names_unique, not_found_text};
use crate::wire::{ToolCall, detect_tool_call, tool_call_of};

verus! {

/// The input that asks for a fresh conversation.
pub const RESET_SENTINEL: &'static str = "__CLEAR__";

pub const BUSY_LABEL: &'static str = "Thinking";

pub const IDLE_LABEL: &'static str = "Online";

pub const RUNNING_PREFIX: &'static str = "Running tool: ";

pub const ERROR_PREFIX: &'static str = "Error: ";

pub const OUTPUT_PREFIX: &'static str = "Tool Output: ";

pub const TOOL_ERROR_PREFIX: &'static str = "Tool Error: ";

pub const RESET_NOTICE: &'static str = "대화 기록이 초기화되었습니다.";

pub const UNAVAILABLE_REPLY: &'static str = "LLM is not loaded. Please check model path.";

pub const FALLBACK_REPLY: &'static str = "I stopped here: this turn asked for too many tool calls in a row.";

/// Where the orchestrator stands in a turn.
#[derive(Clone, Copy, PartialEq, Eq, Structural)]
pub enum Phase {
    /// Waiting for the next input.
    Idle,
    /// Waiting for the store to take the pending message; then as said.
    Saving(AfterWrite),
    /// Waiting for the store to drop every message.
    Clearing,
    /// Waiting for the inference engine.
    Inferring,
    /// Waiting for a tool.
    RunningTool,
    /// The inference engine cannot be used: every input gets a fixed reply.
    Degraded,
}

/// What follows once the pending message is stored.
#[derive(Clone, Copy, PartialEq, Eq, Structural)]
pub enum AfterWrite {
    /// The first system message of a new conversation: wait for input.
    Seeded,
    /// A user message: ask the engine.
    Infer,
    /// A tool's observation: report it and ask the engine again.
    Observed,
    /// The assistant's answer: report it and end the turn.
    Finish,
    /// The system message after a reset: report the reset.
    Reseeded,
}

/// What the orchestrator reports to the presentation surface.
pub enum TurnEvent {
    StatusChanged { label: String, is_busy: bool },
    MessageAppended { role: String, content: String },
}

pub enum TurnEventView {
    StatusChanged { label: Seq<char>, is_busy: bool },
    MessageAppended { role: Seq<char>, content: Seq<char> },
}

impl View for TurnEvent {
    type V = TurnEventView;

    open spec fn view(&self) -> TurnEventView {
        match self {
            TurnEvent::StatusChanged { label, is_busy } => TurnEventView::StatusChanged {
                label: label@,
                is_busy: *is_busy,
            },
            TurnEvent::MessageAppended { role, content } => TurnEventView::MessageAppended {
                role: role@,
                content: content@,
            },
        }
    }
}

/// What reaches the orchestrator: text from the user, or the outcome of the
/// work it asked for last.
pub enum Input {
    Text(String),
    /// The store took the last write (an append or a clear).
    Stored,
    StoreFailed(String),
    /// The engine's complete response.
    Generated(String),
    GenerationFailed(String),
    /// The engine cannot be used in this process.
    Unavailable(String),
    ToolSucceeded(String),
    ToolFailed(String),
}

pub enum InputView {
    Text(Seq<char>),
    Stored,
    StoreFailed(Seq<char>),
    Generated(Seq<char>),
    GenerationFailed(Seq<char>),
    Unavailable(Seq<char>),
    ToolSucceeded(Seq<char>),
    ToolFailed(Seq<char>),
}

impl View for Input {
    type V = InputView;

    open spec fn view(&self) -> InputView {
        match self {
            Input::Text(t) => InputView::Text(t@),
            Input::Stored => InputView::Stored,
            Input::StoreFailed(d) => InputView::StoreFailed(d@),
            Input::Generated(t) => InputView::Generated(t@),
            Input::GenerationFailed(d) => InputView::GenerationFailed(d@),
            Input::Unavailable(d) => InputView::Unavailable(d@),
            Input::ToolSucceeded(t) => InputView::ToolSucceeded(t@),
            Input::ToolFailed(d) => InputView::ToolFailed(d@),
        }
    }
}

/// The work that the orchestrator asks of its collaborators.
pub enum Effect {
    /// Nothing: wait for the next input.
    Wait,
    /// Store this message durably, then answer `Stored` or `StoreFailed`.
    Append(Message),
    /// Remove every stored message, then answer `Stored` or `StoreFailed`.
    Clear,
    /// Run the engine on these messages, then answer with its outcome.
    Infer(Vec<Message>),
    /// Run the registered tool at this position with these arguments.
    RunTool { index: usize, name: String, args: serde_json::Value },
}

pub enum EffectView {
    Wait,
    Append(MessageView),
    Clear,
    Infer(Seq<MessageView>),
    RunTool { index: int, name: Seq<char>, args: serde_json::Value },
}

impl View for Effect {
    type V = EffectView;

    open spec fn view(&self) -> EffectView {
        match self {
            Effect::Wait => EffectView::Wait,
            Effect::Append(m) => EffectView::Append(m@),
            Effect::Clear => EffectView::Clear,
            Effect::Infer(ms) => EffectView::Infer(views(ms@)),
            Effect::RunTool { index, name, args } => EffectView::RunTool {
                index: *index as int,
                name: name@,
                args: *args,
            },
        }
    }
}

/// The answer to one input: the events to report, in order, and the work to do next.
pub struct Step {
    pub events: Vec<TurnEvent>,
    pub effect: Effect,
}

pub struct StepView {
    pub events: Seq<TurnEventView>,
    pub effect: EffectView,
}

impl View for Step {
    type V = StepView;

    open spec fn view(&self) -> StepView {
        StepView { events: self.events@.map_values(|e: TurnEvent| e@), effect: self.effect@ }
    }
}

/// The orchestrator, mathematically. `stored` is what the store holds, as its
/// acknowledgements have told.
pub struct AgentView {
    pub phase: Phase,
    pub history: Seq<MessageView>,
    pub stored: Seq<MessageView>,
    pub pending: Option<MessageView>,
    pub system_prompt: Seq<char>,
    pub tools: Seq<ToolDescriptorView>,
    pub max_inferences: nat,
    pub inferences: nat,
}

/// The most inference calls that one turn makes.
pub open spec fn turn_cap(s: AgentView) -> nat {
    if s.max_inferences == 0 {
        1
    } else {
        s.max_inferences
    }
}

/// What holds of the orchestrator between any two inputs.
pub open spec fn agent_inv(s: AgentView) -> bool {
    &&& s.history == s.stored
    &&& names_unique(s.tools)
    &&& (s.phase is Saving <==> s.pending is Some)
    &&& s.inferences <= turn_cap(s)
    &&& (s.phase == Phase::RunningTool || s.phase == Phase::Saving(AfterWrite::Observed))
        ==> s.inferences < s.max_inferences
    &&& s.phase == Phase::Saving(AfterWrite::Infer) ==> s.inferences == 0
}

pub open spec fn status(label: Seq<char>, is_busy: bool) -> TurnEventView {
    TurnEventView::StatusChanged { label, is_busy }
}

pub open spec fn appended(m: MessageView) -> TurnEventView {
    TurnEventView::MessageAppended { role: m.role, content: m.content }
}

pub open spec fn step_view(events: Seq<TurnEventView>, effect: EffectView) -> StepView {
    StepView { events, effect }
}

/// Nothing changes and nothing is reported.
pub open spec fn quiet(s: AgentView) -> (AgentView, StepView) {
    (s, step_view(Seq::empty(), EffectView::Wait))
}

/// The position of the tool of this name.
pub open spec fn tool_index(tools: Seq<ToolDescriptorView>, name: Seq<char>) -> int {
    choose|i: int| 0 <= i < tools.len() && tools[i].name == name
}

/// Asks the store to take a message, and goes on as `then` says once it has.
pub open spec fn write(s: AgentView, m: MessageView, then: AfterWrite) -> (AgentView, StepView) {
    (
        AgentView { phase: Phase::Saving(then), pending: Some(m), ..s },
        step_view(Seq::empty(), EffectView::Append(m)),
    )
}

/// The turn stops with an error report.
pub open spec fn abort(s: AgentView, detail: Seq<char>) -> (AgentView, StepView) {
    (
        AgentView { phase: Phase::Idle, pending: None, inferences: 0, ..s },
        step_view(seq![status(ERROR_PREFIX@ + detail, false)], EffectView::Wait),
    )
}

pub open spec fn on_text(s: AgentView, t: Seq<char>) -> (AgentView, StepView) {
    let u = trimmed(t);
    match s.phase {
        Phase::Idle => if u.len() == 0 {
            quiet(s)
        } else if u == RESET_SENTINEL@ {
            (AgentView { phase: Phase::Clearing, ..s }, step_view(Seq::empty(), EffectView::Clear))
        } else {
            write(AgentView { inferences: 0, ..s }, text_message(user_role(), u), AfterWrite::Infer)
        },
        Phase::Degraded => (
            s,
            step_view(
                seq![appended(text_message(assistant_role(), UNAVAILABLE_REPLY@))],
                EffectView::Wait,
            ),
        ),
        _ => quiet(s),
    }
}

pub open spec fn on_stored(s: AgentView) -> (AgentView, StepView) {
    match s.phase {
        Phase::Saving(then) => {
            let m = s.pending.unwrap();
            let s1 = AgentView {
                phase: Phase::Idle,
                history: s.history.push(m),
                stored: s.stored.push(m),
                pending: None,
                ..s
            };
            match then {
                AfterWrite::Seeded => (s1, step_view(Seq::empty(), EffectView::Wait)),
                AfterWrite::Infer => (
                    AgentView { phase: Phase::Inferring, inferences: s.inferences + 1, ..s1 },
                    step_view(seq![status(BUSY_LABEL@, true)], EffectView::Infer(s1.history)),
                ),
                AfterWrite::Observed => (
                    AgentView { phase: Phase::Inferring, inferences: s.inferences + 1, ..s1 },
                    step_view(
                        seq![appended(m), status(BUSY_LABEL@, true)],
                        EffectView::Infer(s1.history),
                    ),
                ),
                AfterWrite::Finish => (
                    AgentView { inferences: 0, ..s1 },
                    step_view(seq![appended(m), status(IDLE_LABEL@, false)], EffectView::Wait),
                ),
                AfterWrite::Reseeded => (
                    AgentView { inferences: 0, ..s1 },
                    step_view(
                        seq![appended(text_message(assistant_role(), RESET_NOTICE@))],
                        EffectView::Wait,
                    ),
                ),
            }
        },
        Phase::Clearing => write(
            AgentView { history: Seq::empty(), stored: Seq::empty(), ..s },
            text_message(system_role(), s.system_prompt),
            AfterWrite::Reseeded,
        ),
        _ => quiet(s),
    }
}

pub open spec fn on_generated(s: AgentView, raw: Seq<char>) -> (AgentView, StepView) {
    match s.phase {
        Phase::Inferring => match tool_call_of(raw) {
            None => write(s, text_message(assistant_role(), raw), AfterWrite::Finish),
            Some((name, args)) => if s.inferences >= s.max_inferences {
                write(s, text_message(assistant_role(), FALLBACK_REPLY@), AfterWrite::Finish)
            } else if has_tool(s.tools, name) {
                (
                    AgentView { phase: Phase::RunningTool, ..s },
                    step_view(
                        seq![status(RUNNING_PREFIX@ + name, true)],
                        EffectView::RunTool { index: tool_index(s.tools, name), name, args },
                    ),
                )
            } else {
                write(
                    s,
                    text_message(user_role(), TOOL_ERROR_PREFIX@ + not_found_text(name)),
                    AfterWrite::Observed,
                )
            },
        },
        _ => quiet(s),
    }
}

/// How the orchestrator answers one input.
pub open spec fn next(s: AgentView, input: InputView) -> (AgentView, StepView) {
    match input {
        InputView::Text(t) => on_text(s, t),
        InputView::Stored => on_stored(s),
        InputView::StoreFailed(d) => match s.phase {
            Phase::Saving(_) | Phase::Clearing => abort(s, d),
            _ => quiet(s),
        },
        InputView::Generated(raw) => on_generated(s, raw),
        InputView::GenerationFailed(d) => match s.phase {
            Phase::Inferring => abort(s, d),
            _ => quiet(s),
        },
        InputView::Unavailable(d) => (
            AgentView { phase: Phase::Degraded, pending: None, inferences: 0, ..s },
            step_view(seq![status(ERROR_PREFIX@ + d, false)], EffectView::Wait),
        ),
        InputView::ToolSucceeded(out) => match s.phase {
            Phase::RunningTool => write(
                s,
                text_message(user_role(), OUTPUT_PREFIX@ + out),
                AfterWrite::Observed,
            ),
            _ => quiet(s),
        },
        InputView::ToolFailed(d) => match s.phase {
            Phase::RunningTool => write(
                s,
                text_message(user_role(), TOOL_ERROR_PREFIX@ + d),
                AfterWrite::Observed,
            ),
            _ => quiet(s),
        },
    }
}

/// The orchestrator at start: with a stored conversation it waits for input;
/// with none it first stores the system message.
pub open spec fn start(
    system_prompt: Seq<char>,
    tools: Seq<ToolDescriptorView>,
    max_inferences: nat,
    loaded: Seq<MessageView>,
) -> (AgentView, StepView) {
    let s = AgentView {
        phase: Phase::Idle,
        history: loaded,
        stored: loaded,
        pending: None,
        system_prompt,
        tools,
        max_inferences,
        inferences: 0,
    };
    if loaded.len() == 0 {
        write(s, text_message(system_role(), system_prompt), AfterWrite::Seeded)
    } else {
        quiet(s)
    }
}

/// The turn state machine that drives one conversation.
pub struct Agent {
    phase: Phase,
    history: Vec<Message>,
    stored: Ghost<Seq<MessageView>>,
    pending: Option<Message>,
    system_prompt: String,
    tools: ToolDispatcher,
    max_inferences: usize,
    inferences: usize,
}

impl View for Agent {
    type V = AgentView;

    closed spec fn view(&self) -> AgentView {
        AgentView {
            phase: self.phase,
            history: views(self.history@),
            stored: self.stored@,
            pending: match self.pending {
                Some(m) => Some(m@),
                None => None,
            },
            system_prompt: self.system_prompt@,
            tools: self.tools@,
            max_inferences: self.max_inferences as nat,
            inferences: self.inferences as nat,
        }
    }
}

fn status_event(label: String, is_busy: bool) -> (r: TurnEvent)
    ensures
        r@ == status(label@, is_busy),
{
    TurnEvent::StatusChanged { label, is_busy }
}

fn appended_event(m: &Message) -> (r: TurnEvent)
    ensures
        r@ == appended(m@),
{
    TurnEvent::MessageAppended { role: m.role.clone(), content: m.content.clone() }
}

fn joined(a: &str, b: &str) -> (r: String)
    ensures
        r@ == a@ + b@,
{
    let mut s = String::from_str(a);
    s.append(b);
    s
}

fn wait_step(events: Vec<TurnEvent>) -> (r: Step)
    ensures
        r@ == step_view(events@.map_values(|e: TurnEvent| e@), EffectView::Wait),
{
    Step { events, effect: Effect::Wait }
}

impl Agent {
    pub open spec fn wf(&self) -> bool {
        agent_inv(self@)
    }

    /// A new orchestrator over a conversation loaded from the store, oldest first.
    pub fn new(system_prompt: String, tools: ToolDispatcher, max_inferences: usize, loaded: Vec<Message>) -> (r: (Agent, Step))
        requires
            tools.wf(),
        ensures
            r.0.wf(),
            (r.0@, r.1@) == start(system_prompt@, tools@, max_inferences as nat, views(loaded@)),
    {
        let ghost l = views(loaded@);
        let empty = loaded.len() == 0;
        let mut a = Agent {
            phase: Phase::Idle,
            history: loaded,
            stored: Ghost(l),
            pending: None,
            system_prompt,
            tools,
            max_inferences,
            inferences: 0,
        };
        if empty {
            let step = a.write(Message::system(a.system_prompt.clone()), AfterWrite::Seeded);
            (a, step)
        } else {
            let step = wait_step(Vec::new());
            assert(step@.events =~= Seq::<TurnEventView>::empty());
            (a, step)
        }
    }

    /// The conversation as it stands, oldest message first.
    pub fn history(&self) -> (r: &Vec<Message>)
        ensures
            views(r@) == self@.history,
    {
        &self.history
    }

    pub fn phase(&self) -> (r: Phase)
        ensures
            r == self@.phase,
    {
        self.phase
    }

    fn write(&mut self, m: Message, then: AfterWrite) -> (r: Step)
        ensures
            (final(self)@, r@) == write(old(self)@, m@, then),
    {
        let copy = m.duplicate();
        self.phase = Phase::Saving(then);
        self.pending = Some(m);
        let r = Step { events: Vec::new(), effect: Effect::Append(copy) };
        assert(r@.events =~= Seq::<TurnEventView>::empty());
        r
    }

    fn abort(&mut self, detail: String) -> (r: Step)
        ensures
            (final(self)@, r@) == abort(old(self)@, detail@),
    {
        self.phase = Phase::Idle;
        self.pending = None;
        self.inferences = 0;
        let mut events: Vec<TurnEvent> = Vec::new();
        events.push(status_event(joined(ERROR_PREFIX, detail.as_str()), false));
        let r = wait_step(events);
        assert(r@.events =~= seq![status(ERROR_PREFIX@ + detail@, false)]);
        r
    }

    fn quiet(&self) -> (r: Step)
        ensures
            r@ == quiet(self@).1,
    {
        let r = wait_step(Vec::new());
        assert(r@.events =~= Seq::<TurnEventView>::empty());
        r
    }
}


impl Agent {
    fn on_text(&mut self, t: String) -> (r: Step)
        requires
            old(self).wf(),
        ensures
            (final(self)@, r@) == on_text(old(self)@, t@),
    {
        match self.phase {
            Phase::Idle => {
                let u = trim(t.as_str());
                if u.unicode_len() == 0 {
                    self.quiet()
                } else if same_text(u.as_str(), RESET_SENTINEL) {
                    self.phase = Phase::Clearing;
                    let r = Step { events: Vec::new(), effect: Effect::Clear };
                    assert(r@.events =~= Seq::<TurnEventView>::empty());
                    r
                } else {
                    self.inferences = 0;
                    self.write(Message::user(u), AfterWrite::Infer)
                }
            },
            Phase::Degraded => {
                let reply = Message::assistant(String::from_str(UNAVAILABLE_REPLY));
                let mut events: Vec<TurnEvent> = Vec::new();
                events.push(appended_event(&reply));
                let r = wait_step(events);
                assert(r@.events =~= seq![appended(text_message(assistant_role(), UNAVAILABLE_REPLY@))]);
                r
            },
            _ => self.quiet(),
        }
    }

    fn on_stored(&mut self) -> (r: Step)
        requires
            old(self).wf(),
        ensures
            (final(self)@, r@) == on_stored(old(self)@),
    {
        match self.phase {
            Phase::Saving(then) => {
                let m = self.pending.take().unwrap();
                let copy = m.duplicate();
                let ghost before = views(self.history@);
                self.history.push(m);
                self.stored = Ghost(self.stored@.push(copy@));
                assert(views(self.history@) =~= before.push(copy@));
                self.phase = Phase::Idle;
                match then {
                    AfterWrite::Seeded => self.quiet(),
                    AfterWrite::Infer => {
                        self.phase = Phase::Inferring;
                        self.inferences = self.inferences + 1;
                        let mut events: Vec<TurnEvent> = Vec::new();
                        events.push(status_event(String::from_str(BUSY_LABEL), true));
                        let r = Step { events, effect: Effect::Infer(copy_messages(&self.history)) };
                        assert(r@.events =~= seq![status(BUSY_LABEL@, true)]);
                        r
                    },
                    AfterWrite::Observed => {
                        self.phase = Phase::Inferring;
                        self.inferences = self.inferences + 1;
                        let mut events: Vec<TurnEvent> = Vec::new();
                        events.push(appended_event(&copy));
                        events.push(status_event(String::from_str(BUSY_LABEL), true));
                        let r = Step { events, effect: Effect::Infer(copy_messages(&self.history)) };
                        assert(r@.events =~= seq![appended(copy@), status(BUSY_LABEL@, true)]);
                        r
                    },
                    AfterWrite::Finish => {
                        self.inferences = 0;
                        let mut events: Vec<TurnEvent> = Vec::new();
                        events.push(appended_event(&copy));
                        events.push(status_event(String::from_str(IDLE_LABEL), false));
                        let r = wait_step(events);
                        assert(r@.events =~= seq![appended(copy@), status(IDLE_LABEL@, false)]);
                        r
                    },
                    AfterWrite::Reseeded => {
                        self.inferences = 0;
                        let notice = Message::assistant(String::from_str(RESET_NOTICE));
                        let mut events: Vec<TurnEvent> = Vec::new();
                        events.push(appended_event(&notice));
                        let r = wait_step(events);
                        assert(r@.events =~= seq![appended(text_message(assistant_role(), RESET_NOTICE@))]);
                        r
                    },
                }
            },
            Phase::Clearing => {
                self.history = Vec::new();
                self.stored = Ghost(Seq::empty());
                assert(views(self.history@) =~= Seq::<MessageView>::empty());
                let sys = Message::system(self.system_prompt.clone());
                self.write(sys, AfterWrite::Reseeded)
            },
            _ => self.quiet(),
        }
    }

    fn on_generated(&mut self, raw: String) -> (r: Step)
        requires
            old(self).wf(),
        ensures
            (final(self)@, r@) == on_generated(old(self)@, raw@),
    {
        match self.phase {
            Phase::Inferring => match detect_tool_call(raw.as_str()) {
                None => self.write(Message::assistant(raw), AfterWrite::Finish),
                Some(ToolCall { name, args }) => {
                    if self.inferences >= self.max_inferences {
                        self.write(Message::assistant(String::from_str(FALLBACK_REPLY)), AfterWrite::Finish)
                    } else {
                        match self.tools.position(name.as_str()) {
                            Some(index) => {
                                proof {
                                    let i = tool_index(self@.tools, name@);
                                    assert(0 <= index < self@.tools.len() && self@.tools[index as int].name == name@);
                                    assert(0 <= i < self@.tools.len() && self@.tools[i].name == name@);
                                    assert(i == index);
                                }
                                self.phase = Phase::RunningTool;
                                let mut events: Vec<TurnEvent> = Vec::new();
                                events.push(status_event(joined(RUNNING_PREFIX, name.as_str()), true));
                                let r = Step { events, effect: Effect::RunTool { index, name, args } };
                                assert(r@.events =~= seq![status(RUNNING_PREFIX@ + name@, true)]);
                                r
                            },
                            None => {
                                let missing = crate::tools::DispatchError::NotFound(name);
                                let text = joined(TOOL_ERROR_PREFIX, missing.message().as_str());
                                self.write(Message::user(text), AfterWrite::Observed)
                            },
                        }
                    }
                },
            },
            _ => self.quiet(),
        }
    }

    /// Answers one input: the events to report and the work to do next.
    pub fn step(&mut self, input: Input) -> (r: Step)
        requires
            old(self).wf(),
        ensures
            final(self).wf(),
            (final(self)@, r@) == next(old(self)@, input@),
    {
        let r = match input {
            Input::Text(t) => self.on_text(t),
            Input::Stored => self.on_stored(),
            Input::StoreFailed(d) => match self.phase {
                Phase::Saving(_) | Phase::Clearing => self.abort(d),
                _ => self.quiet(),
            },
            Input::Generated(raw) => self.on_generated(raw),
            Input::GenerationFailed(d) => match self.phase {
                Phase::Inferring => self.abort(d),
                _ => self.quiet(),
            },
            Input::Unavailable(d) => {
                self.phase = Phase::Degraded;
                self.pending = None;
                self.inferences = 0;
                let mut events: Vec<TurnEvent> = Vec::new();
                events.push(status_event(joined(ERROR_PREFIX, d.as_str()), false));
                let r = wait_step(events);
                assert(r@.events =~= seq![status(ERROR_PREFIX@ + d@, false)]);
                r
            },
            Input::ToolSucceeded(out) => match self.phase {
                Phase::RunningTool => self.write(Message::user(joined(OUTPUT_PREFIX, out.as_str())), AfterWrite::Observed),
                _ => self.quiet(),
            },
            Input::ToolFailed(d) => match self.phase {
                Phase::RunningTool => self.write(Message::user(joined(TOOL_ERROR_PREFIX, d.as_str())), AfterWrite::Observed),
                _ => self.quiet(),
            },
        };
        proof { lemma_next_keeps_inv(old(self)@, input@); }
        r
    }
}

/// Every input keeps what holds of the orchestrator.
pub proof fn lemma_next_keeps_inv(s: AgentView, input: InputView)
    requires
        agent_inv(s),
    ensures
        agent_inv(next(s, input).0),
{
}

} // verus!
