use vstd::prelude::*;
use crate::agent::{
    AfterWrite, AgentView, EffectView, FALLBACK_REPLY, IDLE_LABEL, InputView, Phase, RESET_NOTICE,
    RESET_SENTINEL, TOOL_ERROR_PREFIX, agent_inv, appended, next, start, status, tool_index,
    turn_cap,
};
use crate::message::{MessageView, assistant_role, system_role, text_message, user_role};
use crate::text::trimmed;
use crate::tools::{ToolDescriptorView, has_tool, names_unique, not_found_text};
use crate::wire::tool_call_of;

verus! {

/// The orchestrator after a sequence of inputs, one at a time.
pub open spec fn run(s: AgentView, inputs: Seq<InputView>) -> AgentView
    decreases inputs.len(),
{
    if inputs.len() == 0 {
        s
    } else {
        run(next(s, inputs[0]).0, inputs.drop_first())
    }
}

proof fn lemma_run_keeps_inv(s: AgentView, inputs: Seq<InputView>)
    requires
        agent_inv(s),
    ensures
        agent_inv(run(s, inputs)),
    decreases inputs.len(),
{
    if inputs.len() > 0 {
        crate::agent::lemma_next_keeps_inv(s, inputs[0]);
        lemma_run_keeps_inv(next(s, inputs[0]).0, inputs.drop_first());
    }
}

/// After any sequence of inputs, from the start of a session, the conversation
/// held in memory is exactly the sequence that the store holds.
pub proof fn memory_mirrors_store(
    system_prompt: Seq<char>,
    tools: Seq<ToolDescriptorView>,
    max_inferences: nat,
    loaded: Seq<MessageView>,
    inputs: Seq<InputView>,
)
    requires
        names_unique(tools),
    ensures
        run(start(system_prompt, tools, max_inferences, loaded).0, inputs).history
            == run(start(system_prompt, tools, max_inferences, loaded).0, inputs).stored,
{
    let s = start(system_prompt, tools, max_inferences, loaded).0;
    assert(agent_inv(s));
    lemma_run_keeps_inv(s, inputs);
}

/// A reset input, once the store has cleared and taken the new system message,
/// leaves exactly one message, the system prompt, in the store and in memory,
/// and reports the reset.
pub proof fn reset_leaves_system_prompt(s: AgentView, t: Seq<char>)
    requires
        agent_inv(s),
        s.phase == Phase::Idle,
        trimmed(t) == RESET_SENTINEL@,
    ensures
        next(s, InputView::Text(t)).1.effect == EffectView::Clear,
        next(next(s, InputView::Text(t)).0, InputView::Stored).1.effect
            == EffectView::Append(text_message(system_role(), s.system_prompt)),
        ({
            let s3 = next(next(next(s, InputView::Text(t)).0, InputView::Stored).0, InputView::Stored);
            &&& s3.0.stored == seq![text_message(system_role(), s.system_prompt)]
            &&& s3.0.history == s3.0.stored
            &&& s3.0.phase == Phase::Idle
            &&& s3.1.events == seq![appended(text_message(assistant_role(), RESET_NOTICE@))]
        }),
{
    reveal_strlit("__CLEAR__");
    assert(seq![text_message(system_role(), s.system_prompt)] =~= Seq::<MessageView>::empty().push(
        text_message(system_role(), s.system_prompt),
    ));
}

/// A response that is no tool call is stored and reported verbatim as the
/// assistant's message, and ends the turn.
pub proof fn chat_is_reported_verbatim(s: AgentView, raw: Seq<char>)
    requires
        agent_inv(s),
        s.phase == Phase::Inferring,
        tool_call_of(raw) is None,
    ensures
        next(s, InputView::Generated(raw)).1.effect
            == EffectView::Append(text_message(assistant_role(), raw)),
        ({
            let done = next(next(s, InputView::Generated(raw)).0, InputView::Stored);
            &&& done.0.history == s.history.push(text_message(assistant_role(), raw))
            &&& done.1.events == seq![
                appended(text_message(assistant_role(), raw)),
                status(IDLE_LABEL@, false),
            ]
            &&& done.0.phase == Phase::Idle
        }),
{
}

/// A response that is a call of a registered tool is never stored or reported
/// as chat: the tool runs with the call's arguments, and the conversation is
/// left as it was.
pub proof fn tool_call_is_not_chat(s: AgentView, raw: Seq<char>, name: Seq<char>, args: serde_json::Value)
    requires
        agent_inv(s),
        s.phase == Phase::Inferring,
        tool_call_of(raw) == Some((name, args)),
        has_tool(s.tools, name),
        s.inferences < s.max_inferences,
    ensures
        next(s, InputView::Generated(raw)).1.effect == (EffectView::RunTool {
            index: tool_index(s.tools, name),
            name,
            args,
        }),
        next(s, InputView::Generated(raw)).0.history == s.history,
        next(s, InputView::Generated(raw)).0.pending is None,
        forall|i: int|
            0 <= i < next(s, InputView::Generated(raw)).1.events.len() ==> !(
            #[trigger] next(s, InputView::Generated(raw)).1.events[i] is MessageAppended),
{
}

/// A call of a tool that is not registered is answered with one observation
/// that names the missing tool, and the engine is asked again.
pub proof fn unknown_tool_is_observed(s: AgentView, raw: Seq<char>, name: Seq<char>, args: serde_json::Value)
    requires
        agent_inv(s),
        s.phase == Phase::Inferring,
        tool_call_of(raw) == Some((name, args)),
        !has_tool(s.tools, name),
        s.inferences < s.max_inferences,
    ensures
        next(s, InputView::Generated(raw)).1.effect == EffectView::Append(
            text_message(user_role(), TOOL_ERROR_PREFIX@ + not_found_text(name)),
        ),
        ({
            let after = next(next(s, InputView::Generated(raw)).0, InputView::Stored);
            &&& after.0.history == s.history.push(
                text_message(user_role(), TOOL_ERROR_PREFIX@ + not_found_text(name)),
            )
            &&& after.1.effect == EffectView::Infer(after.0.history)
            &&& after.0.phase == Phase::Inferring
        }),
{
}

/// How many more inference calls the turn under way may still make.
pub open spec fn turn_budget(s: AgentView) -> nat {
    match s.phase {
        Phase::Inferring | Phase::RunningTool | Phase::Saving(AfterWrite::Infer) | Phase::Saving(
            AfterWrite::Observed,
        ) => (turn_cap(s) - s.inferences) as nat,
        _ => 0,
    }
}

/// How many of the steps taken on these inputs ask the engine for a response.
pub open spec fn inference_calls(s: AgentView, inputs: Seq<InputView>) -> nat
    decreases inputs.len(),
{
    if inputs.len() == 0 {
        0
    } else {
        (if next(s, inputs[0]).1.effect is Infer {
            1nat
        } else {
            0nat
        }) + inference_calls(next(s, inputs[0]).0, inputs.drop_first())
    }
}

/// A user input that starts a turn gives it the full budget of `turn_cap` inference calls.
pub proof fn turn_starts_with_full_budget(s: AgentView, t: Seq<char>)
    requires
        agent_inv(s),
        s.phase == Phase::Idle,
        trimmed(t).len() > 0,
        trimmed(t) != RESET_SENTINEL@,
    ensures
        turn_budget(next(s, InputView::Text(t)).0) == turn_cap(s),
        next(s, InputView::Text(t)).1.effect == EffectView::Append(text_message(user_role(), trimmed(t))),
{
}

/// Whatever the engine answers and whatever the tools return, a turn makes no
/// more inference calls than its budget: with a cap of `K`, at most `K` (and at
/// least one is always allowed).
pub proof fn turn_makes_bounded_inference_calls(s: AgentView, inputs: Seq<InputView>)
    requires
        agent_inv(s),
        forall|i: int| 0 <= i < inputs.len() ==> !(#[trigger] inputs[i] is Text),
    ensures
        inference_calls(s, inputs) <= turn_budget(s),
    decreases inputs.len(),
{
    if inputs.len() > 0 {
        let s1 = next(s, inputs[0]).0;
        crate::agent::lemma_next_keeps_inv(s, inputs[0]);
        assert(next(s, inputs[0]).1.effect is Infer ==> turn_budget(s1) + 1 <= turn_budget(s));
        assert(turn_budget(s1) <= turn_budget(s));
        let rest = inputs.drop_first();
        assert forall|i: int| 0 <= i < rest.len() implies !(#[trigger] rest[i] is Text) by {
            assert(rest[i] == inputs[i + 1]);
        }
        turn_makes_bounded_inference_calls(s1, rest);
    }
}

/// Once a turn has used its inference calls, a further tool call ends the turn
/// with the fallback message instead of running a tool.
pub proof fn cap_ends_turn(s: AgentView, raw: Seq<char>)
    requires
        agent_inv(s),
        s.phase == Phase::Inferring,
        tool_call_of(raw) is Some,
        s.inferences >= s.max_inferences,
    ensures
        next(s, InputView::Generated(raw)).1.effect
            == EffectView::Append(text_message(assistant_role(), FALLBACK_REPLY@)),
        next(s, InputView::Generated(raw)).0.phase == Phase::Saving(AfterWrite::Finish),
        ({
            let done = next(next(s, InputView::Generated(raw)).0, InputView::Stored);
            &&& done.0.phase == Phase::Idle
            &&& done.1.effect == EffectView::Wait
            &&& done.1.events == seq![
                appended(text_message(assistant_role(), FALLBACK_REPLY@)),
                status(IDLE_LABEL@, false),
            ]
        }),
{
}

/// A session that finds the store empty stores the system prompt first, and
/// then holds exactly that one message.
pub proof fn fresh_conversation_starts_with_system_prompt(
    system_prompt: Seq<char>,
    tools: Seq<ToolDescriptorView>,
    max_inferences: nat,
)
    requires
        names_unique(tools),
    ensures
        start(system_prompt, tools, max_inferences, Seq::empty()).1.effect
            == EffectView::Append(text_message(system_role(), system_prompt)),
        ({
            let s = next(start(system_prompt, tools, max_inferences, Seq::empty()).0, InputView::Stored).0;
            &&& s.history == seq![text_message(system_role(), system_prompt)]
            &&& s.stored == s.history
            &&& s.phase == Phase::Idle
        }),
{
    assert(seq![text_message(system_role(), system_prompt)] =~= Seq::<MessageView>::empty().push(
        text_message(system_role(), system_prompt),
    ));
}

/// Once the engine is unavailable it stays so: no input leaves the degraded
/// phase, and no step asks anything of the store, the engine or the tools.
pub proof fn degraded_is_permanent(s: AgentView, inputs: Seq<InputView>)
    requires
        s.phase == Phase::Degraded,
    ensures
        run(s, inputs).phase == Phase::Degraded,
        forall|i: int| 0 <= i < inputs.len() ==> #[trigger] next(
            run(s, inputs.take(i)),
            inputs[i],
        ).1.effect == EffectView::Wait,
    decreases inputs.len(),
{
    if inputs.len() > 0 {
        let s1 = next(s, inputs[0]).0;
        let rest = inputs.drop_first();
        degraded_is_permanent(s1, rest);
        assert forall|i: int| 0 <= i < inputs.len() implies #[trigger] next(
            run(s, inputs.take(i)),
            inputs[i],
        ).1.effect == EffectView::Wait by {
            if i == 0 {
                assert(inputs.take(0) =~= Seq::<InputView>::empty());
            } else {
                assert(inputs.take(i).drop_first() =~= rest.take(i - 1));
                assert(inputs.take(i)[0] == inputs[0]);
                assert(run(s, inputs.take(i)) == run(s1, rest.take(i - 1)));
                assert(inputs[i] == rest[i - 1]);
            }
        }
    }
}

} // verus!
