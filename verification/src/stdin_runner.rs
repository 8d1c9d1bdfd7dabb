//! The decisions of the interactive loop. The loop itself, which prompts,
//! reads, hands source text to the evaluator and prints, belongs to the
//! program around this library: it feeds each thing that happened to `step`
//! and does what `step` answers.

use crate::text::{chars_of, trimmed, trimmed_is};
use vstd::prelude::*;

verus! {

/// Where the loop stands.
#[derive(Clone, Copy, PartialEq, Eq, Debug, Structural)]
pub enum ReplState {
    /// A line is being read, or is about to be.
    Reading,
    /// Source text is with the evaluator, which has not answered yet.
    Evaluating,
    /// The loop has ended.
    Closed,
}

/// What happened.
#[derive(Clone, PartialEq, Eq, Debug)]
pub enum ReplEvent {
    /// A read returned: `bytes_read` is `0` at the end of input.
    Line { bytes_read: usize, text: String },
    /// The evaluator answered with the rendered result.
    Rendered { text: String },
}

/// What to do next.
#[derive(Clone, PartialEq, Eq, Debug)]
pub enum ReplAction {
    /// Hand `source` to the evaluator and come back with its answer.
    Evaluate { source: String },
    /// Print `text` and a newline, then prompt and read.
    Print { text: String },
    /// Print nothing; prompt and read.
    Continue,
    /// End the loop.
    Stop,
}

/// A `ReplEvent` as plain values.
pub enum Event {
    Line { bytes_read: nat, text: Seq<char> },
    Rendered { text: Seq<char> },
}

/// A `ReplAction` as plain values.
pub enum Action {
    Evaluate { source: Seq<char> },
    Print { text: Seq<char> },
    Continue,
    Stop,
}

impl View for ReplEvent {
    type V = Event;

    open spec fn view(&self) -> Event {
        match *self {
            ReplEvent::Line { bytes_read, text } => Event::Line {
                bytes_read: bytes_read as nat,
                text: text@,
            },
            ReplEvent::Rendered { text } => Event::Rendered { text: text@ },
        }
    }
}

impl View for ReplAction {
    type V = Action;

    open spec fn view(&self) -> Action {
        match *self {
            ReplAction::Evaluate { source } => Action::Evaluate { source: source@ },
            ReplAction::Print { text } => Action::Print { text: text@ },
            ReplAction::Continue => Action::Continue,
            ReplAction::Stop => Action::Stop,
        }
    }
}

/// The line that ends the loop.
pub open spec fn quit_word() -> Seq<char> {
    ":q"@
}

/// The line that asks for help.
pub open spec fn help_word() -> Seq<char> {
    ":help"@
}

/// The help that the loop prints.
pub open spec fn help_text() -> Seq<char> {
    "\n  - ctrl-v + ctrl-j makes a newline\n  - :q quits\n  - :help shows this text again\n"@
}

/// What is done with a rendered result: an empty one is not printed.
pub open spec fn shown(text: Seq<char>) -> Action {
    if text.len() == 0 {
        Action::Continue
    } else {
        Action::Print { text }
    }
}

/// The next state and the action for `event` in `state`. A line is
/// expected while reading and an answer while evaluating; anything out of
/// turn ends the loop.
pub open spec fn step(state: ReplState, event: Event) -> (ReplState, Action) {
    match (state, event) {
        (ReplState::Reading, Event::Line { bytes_read, text }) => {
            if bytes_read == 0 || trimmed(text) == quit_word() {
                (ReplState::Closed, Action::Stop)
            } else if trimmed(text) == help_word() {
                (ReplState::Reading, Action::Print { text: help_text() })
            } else {
                (ReplState::Evaluating, Action::Evaluate { source: text })
            }
        },
        (ReplState::Evaluating, Event::Rendered { text }) => (ReplState::Reading, shown(text)),
        _ => (ReplState::Closed, Action::Stop),
    }
}

/// The prompt that precedes each read.
pub fn prompt() -> (text: &'static str)
    ensures
        text@ == "> "@,
{
    "> "
}

/// What to do with a rendered result.
pub fn show(text: String) -> (action: ReplAction)
    ensures
        action@ == shown(text@),
{
    if text.as_str().unicode_len() == 0 {
        ReplAction::Continue
    } else {
        ReplAction::Print { text }
    }
}

/// One step of the loop.
pub fn repl_step(state: ReplState, event: ReplEvent) -> (next: (ReplState, ReplAction))
    ensures
        next.0 == step(state, event@).0,
        next.1@ == step(state, event@).1,
{
    match event {
        ReplEvent::Line { bytes_read, text } => {
            if state != ReplState::Reading {
                return (ReplState::Closed, ReplAction::Stop);
            }
            if bytes_read == 0 {
                return (ReplState::Closed, ReplAction::Stop);
            }
            let chars = chars_of(text.as_str());
            let quit = chars_of(":q");
            if trimmed_is(&chars, &quit) {
                return (ReplState::Closed, ReplAction::Stop);
            }
            let help = chars_of(":help");
            if trimmed_is(&chars, &help) {
                let text = String::from_str(
                    "\n  - ctrl-v + ctrl-j makes a newline\n  - :q quits\n  - :help shows this text again\n",
                );
                return (ReplState::Reading, ReplAction::Print { text });
            }
            (ReplState::Evaluating, ReplAction::Evaluate { source: text })
        },
        ReplEvent::Rendered { text } => {
            if state != ReplState::Evaluating {
                return (ReplState::Closed, ReplAction::Stop);
            }
            (ReplState::Reading, show(text))
        },
    }
}

/// The state after `events`, taken in order from `state`.
pub open spec fn state_after(state: ReplState, events: Seq<Event>) -> ReplState
    decreases events.len(),
{
    if events.len() == 0 {
        state
    } else {
        state_after(step(state, events[0]).0, events.drop_first())
    }
}

/// The actions that `events`, taken in order from `state`, give.
pub open spec fn actions_for(state: ReplState, events: Seq<Event>) -> Seq<Action>
    decreases events.len(),
{
    if events.len() == 0 {
        Seq::empty()
    } else {
        seq![step(state, events[0]).1] + actions_for(
            step(state, events[0]).0,
            events.drop_first(),
        )
    }
}

/// Whether `event` is a line of source text: a read that returned bytes and
/// that is neither of the two commands.
pub open spec fn is_source_line(event: Event) -> bool {
    &&& event matches Event::Line { bytes_read, text }
    &&& bytes_read > 0
    &&& trimmed(text) != quit_word()
    &&& trimmed(text) != help_word()
}

/// The events of a session in which each of `lines` is read and then
/// answered by the evaluator with the entry of `answers` at the same place.
pub open spec fn dialogue(lines: Seq<Event>, answers: Seq<Seq<char>>) -> Seq<Event>
    decreases lines.len(),
{
    if lines.len() == 0 || answers.len() == 0 {
        Seq::empty()
    } else {
        seq![lines[0], Event::Rendered { text: answers[0] }] + dialogue(
            lines.drop_first(),
            answers.drop_first(),
        )
    }
}

/// For each line in turn: its text goes to the evaluator, then the answer
/// is shown.
pub open spec fn evaluations(lines: Seq<Event>, answers: Seq<Seq<char>>) -> Seq<Action>
    decreases lines.len(),
{
    if lines.len() == 0 || answers.len() == 0 {
        Seq::empty()
    } else {
        seq![Action::Evaluate { source: lines[0]->Line_text }, shown(answers[0])] + evaluations(
            lines.drop_first(),
            answers.drop_first(),
        )
    }
}

/// At the end of input and on the quit command the loop stops; on the help
/// command it prints the help text, hands nothing to the evaluator and goes
/// on reading.
pub proof fn lemma_commands(bytes_read: nat, text: Seq<char>)
    ensures
        bytes_read == 0 ==> step(ReplState::Reading, Event::Line { bytes_read, text }) == (
            ReplState::Closed,
            Action::Stop,
        ),
        trimmed(text) == quit_word() ==> step(ReplState::Reading, Event::Line { bytes_read, text })
            == (ReplState::Closed, Action::Stop),
        bytes_read > 0 && trimmed(text) == help_word() ==> step(
            ReplState::Reading,
            Event::Line { bytes_read, text },
        ) == (ReplState::Reading, Action::Print { text: help_text() }),
{
    reveal_strlit(":q");
    reveal_strlit(":help");
    if trimmed(text) == help_word() {
        assert(help_word().len() == 5);
        assert(quit_word().len() == 2);
    }
}

/// A session of source lines hands every line to the evaluator, in the order
/// read, and each only after the answer to the one before has been shown.
/// What the answers are makes no difference: after each the loop reads on.
pub proof fn lemma_session_in_order(lines: Seq<Event>, answers: Seq<Seq<char>>)
    requires
        lines.len() == answers.len(),
        forall|i: int| 0 <= i < lines.len() ==> is_source_line(#[trigger] lines[i]),
    ensures
        actions_for(ReplState::Reading, dialogue(lines, answers)) == evaluations(lines, answers),
        state_after(ReplState::Reading, dialogue(lines, answers)) == ReplState::Reading,
    decreases lines.len(),
{
    if lines.len() > 0 {
        let rest = dialogue(lines.drop_first(), answers.drop_first());
        let all = dialogue(lines, answers);
        let answer = Event::Rendered { text: answers[0] };
        assert(is_source_line(lines[0]));
        assert forall|i: int| 0 <= i < lines.drop_first().len() implies is_source_line(
            #[trigger] lines.drop_first()[i],
        ) by {
            assert(lines.drop_first()[i] == lines[i + 1]);
        }
        lemma_session_in_order(lines.drop_first(), answers.drop_first());
        assert(all[0] == lines[0]);
        assert(all.drop_first() =~= seq![answer] + rest);
        assert((seq![answer] + rest)[0] == answer);
        assert((seq![answer] + rest).drop_first() =~= rest);
        assert(step(ReplState::Reading, lines[0]) == (
            ReplState::Evaluating,
            Action::Evaluate { source: lines[0]->Line_text },
        ));
        assert(step(ReplState::Evaluating, answer) == (ReplState::Reading, shown(answers[0])));
        assert(actions_for(ReplState::Evaluating, seq![answer] + rest) == seq![shown(answers[0])]
            + actions_for(ReplState::Reading, rest));
        assert(actions_for(ReplState::Reading, all) =~= evaluations(lines, answers));
        assert(state_after(ReplState::Evaluating, seq![answer] + rest) == state_after(
            ReplState::Reading,
            rest,
        ));
        assert(state_after(ReplState::Reading, all) == state_after(
            ReplState::Evaluating,
            all.drop_first(),
        ));
    }
}

/// In a session of source lines the evaluator gets line `i` as its `i`-th
/// input, and the action after it shows answer `i`.
pub proof fn lemma_evaluations_at(lines: Seq<Event>, answers: Seq<Seq<char>>, i: int)
    requires
        lines.len() == answers.len(),
        0 <= i < lines.len(),
    ensures
        evaluations(lines, answers).len() == 2 * lines.len(),
        evaluations(lines, answers)[2 * i] == (Action::Evaluate { source: lines[i]->Line_text }),
        evaluations(lines, answers)[2 * i + 1] == shown(answers[i]),
    decreases lines.len(),
{
    lemma_evaluations_len(lines, answers);
    lemma_evaluations_len(lines.drop_first(), answers.drop_first());
    if i > 0 {
        lemma_evaluations_at(lines.drop_first(), answers.drop_first(), i - 1);
    }
}

/// A session of `n` lines has `2 * n` actions.
pub proof fn lemma_evaluations_len(lines: Seq<Event>, answers: Seq<Seq<char>>)
    requires
        lines.len() == answers.len(),
    ensures
        evaluations(lines, answers).len() == 2 * lines.len(),
    decreases lines.len(),
{
    if lines.len() > 0 {
        lemma_evaluations_len(lines.drop_first(), answers.drop_first());
    }
}

} // verus!
