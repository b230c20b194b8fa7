//! The command actor: what it receives, what it answers, and when the
//! user's program runs.
//!
//! The actor owns the script environment. Everything that wants something
//! evaluated sends it a [`VMMessage`] over one queue. For each message
//! [`Preflight::receive`] says what is to be done with it and whether the
//! user's program is to be evaluated afterwards. The program is held back
//! until the bus and the timers have reported ready, and runs once.

use vstd::prelude::*;
use std::sync::mpsc::{channel, Receiver, Sender};
use rumqttc::Client;
use crate::channel::send_or_return;
use crate::timer::TimedEvent;

verus! {

/// The event hook that is registered under `#` before anything else: it
/// prints the message and its topic.
pub const DEFAULT_EVENT_HOOK: &'static str =
    "(lambda (topic msg) (displayln (string-append \"Got message '\" msg \"' on topic '\" topic \"'.\")))";

/// The definitions through which scripts reach the two hook tables:
/// `handle-event` and `handle-timer` call the hook that is found, and
/// `register-event!` and `register-timer!` add one.
pub const HOOK_DEFINITIONS: &'static str =
    "(define (handle-event topic msg) ((find-hook event-hooks topic) topic msg)) (define (handle-timer id) ((find-hook timer-hooks id))) (define (register-event! topic f) (add-hook! event-hooks topic f)) (define (register-timer! id f) (add-hook! timer-hooks id f))";

/// `rumqttc::Client`, the handle through which requests are queued for the
/// message bus. It is only carried through.
#[verifier::external_type_specification]
#[verifier::external_body]
pub struct ExClient(Client);

/// The answer to one command. Every command gets exactly one.
#[derive(Debug)]
pub enum ReplResponse {
    /// The evaluation produced no value.
    Empty,
    /// The evaluation produced a value, given here as text.
    Return(String),
    /// The evaluation failed with this message.
    Error(String),
}

/// Code to evaluate, and the channel on which its one response is awaited.
pub struct ReplCommand {
    pub cmd: String,
    pub response_tx: Sender<ReplResponse>,
}

/// What arrives on the actor's queue.
pub enum VMMessage {
    /// Code to evaluate.
    Command(ReplCommand),
    /// The bus is connected; this is its client.
    MqttConnect(Client),
    /// The timer subsystem runs; triggers are registered through this channel.
    TimersReady(Sender<TimedEvent>),
}

/// A message without what it carries.
#[derive(Clone, Copy, Debug, PartialEq, Eq, Structural)]
pub enum MessageKind {
    Command,
    MqttConnect,
    TimersReady,
}

/// What the script environment made of a piece of code.
#[derive(Debug)]
pub enum Evaluation {
    /// It ran and left no value at all.
    Nothing,
    /// Its last value is the void value.
    Void,
    /// Its last value is this string.
    Text(String),
    /// Its last value is something else, which the environment's own
    /// `to-string` renders as this text.
    Other(String),
    /// It failed with this message.
    Failed(String),
}

/// What the actor is to do with a message.
pub enum Work {
    /// Evaluate the command's code and send the response on its channel.
    Evaluate(ReplCommand),
    /// Offer `send-simple`, `send-retain` and `subscribe` to scripts, backed
    /// by this client.
    ConnectBus(Client),
    /// Offer `set-timer` to scripts, backed by this channel.
    ConnectTimers(Sender<TimedEvent>),
}

/// The outcome of [`Preflight::receive`].
pub struct Step {
    pub work: Work,
    /// After the work, and before the next message, evaluate the user's
    /// program. A failure of that evaluation is fatal.
    pub run_program: bool,
}

/// What the actor remembers between messages.
#[derive(Clone, Copy, Debug, PartialEq, Eq, Structural)]
pub struct Preflight {
    /// The bus has reported ready.
    pub mqtt: bool,
    /// The timer subsystem has reported ready.
    pub timers: bool,
    /// The user's program has been evaluated.
    pub program_run: bool,
}

/// The response that an evaluation is answered with.
pub open spec fn response_to(outcome: Evaluation) -> ReplResponse {
    match outcome {
        Evaluation::Nothing => ReplResponse::Empty,
        Evaluation::Void => ReplResponse::Empty,
        Evaluation::Text(s) => ReplResponse::Return(s),
        Evaluation::Other(rendered) => ReplResponse::Return(rendered),
        Evaluation::Failed(message) => ReplResponse::Error(message),
    }
}

/// The work that a message asks for. It depends on the message alone.
pub open spec fn work_for(msg: VMMessage) -> Work {
    match msg {
        VMMessage::Command(cmd) => Work::Evaluate(cmd),
        VMMessage::MqttConnect(client) => Work::ConnectBus(client),
        VMMessage::TimersReady(tx) => Work::ConnectTimers(tx),
    }
}

/// The kinds of a queue of messages.
pub open spec fn kinds_of(msgs: Seq<VMMessage>) -> Seq<MessageKind> {
    Seq::new(msgs.len(), |i: int| msgs[i].kind())
}

/// The commands among `msgs`, in their order of arrival.
pub open spec fn commands(msgs: Seq<VMMessage>) -> Seq<ReplCommand>
    decreases msgs.len(),
{
    if msgs.len() == 0 {
        Seq::empty()
    } else {
        match msgs.last() {
            VMMessage::Command(cmd) => commands(msgs.drop_last()).push(cmd),
            _ => commands(msgs.drop_last()),
        }
    }
}

/// The commands that `steps` ask to evaluate, in the order of the steps.
pub open spec fn evaluated(steps: Seq<Step>) -> Seq<ReplCommand>
    decreases steps.len(),
{
    if steps.len() == 0 {
        Seq::empty()
    } else {
        match steps.last().work {
            Work::Evaluate(cmd) => evaluated(steps.drop_last()).push(cmd),
            _ => evaluated(steps.drop_last()),
        }
    }
}

/// The steps that [`Preflight::receive`] returns when the queue `msgs` is
/// fed to it message by message, starting in state `state`.
pub open spec fn steps(state: Preflight, msgs: Seq<VMMessage>) -> Seq<Step>
    decreases msgs.len(),
{
    if msgs.len() == 0 {
        Seq::empty()
    } else {
        let before = state.after_all(kinds_of(msgs.drop_last()));
        steps(state, msgs.drop_last()).push(
            Step {
                work: work_for(msgs.last()),
                run_program: before.launches(msgs.last().kind()),
            },
        )
    }
}

impl VMMessage {
    pub open spec fn kind(&self) -> MessageKind {
        match self {
            VMMessage::Command(_) => MessageKind::Command,
            VMMessage::MqttConnect(_) => MessageKind::MqttConnect,
            VMMessage::TimersReady(_) => MessageKind::TimersReady,
        }
    }
}

impl ReplCommand {
    /// A command that answers on `response_tx`.
    pub fn new(cmd: String, response_tx: Sender<ReplResponse>) -> (command: ReplCommand)
        ensures
            command.cmd == cmd,
            command.response_tx == response_tx,
    {
        ReplCommand { cmd, response_tx }
    }

    /// A command with a reply channel of its own, and the end of that
    /// channel on which the response is awaited.
    pub fn create(cmd: String) -> (made: (ReplCommand, Receiver<ReplResponse>))
        ensures
            made.0.cmd == cmd,
    {
        let (resp_tx, resp_rx) = channel();
        let repl_cmd = ReplCommand::new(cmd, resp_tx);
        (repl_cmd, resp_rx)
    }

    /// Answers the command with the response that `outcome` calls for and
    /// uses the command up, so that it cannot be answered twice. Where
    /// nobody waits for the response any more, that response comes back.
    pub fn answer(self, outcome: Evaluation) -> (sent: Result<(), ReplResponse>)
        ensures
            sent matches Err(response) ==> response == response_to(outcome),
    {
        send_or_return(&self.response_tx, respond(outcome))
    }
}

/// The response to a command whose evaluation ended in `outcome`: `Empty`
/// where there is no value, the text of a string value, the environment's
/// rendering of any other value, or the message of a failure.
pub fn respond(outcome: Evaluation) -> (response: ReplResponse)
    ensures
        response == response_to(outcome),
{
    match outcome {
        Evaluation::Nothing => ReplResponse::Empty,
        Evaluation::Void => ReplResponse::Empty,
        Evaluation::Text(s) => ReplResponse::Return(s),
        Evaluation::Other(rendered) => ReplResponse::Return(rendered),
        Evaluation::Failed(message) => ReplResponse::Error(message),
    }
}

impl Preflight {
    /// Nothing is ready and the program has not run.
    pub open spec fn initial() -> Preflight {
        Preflight { mqtt: false, timers: false, program_run: false }
    }

    /// The state with the readiness that a message reports taken note of.
    pub open spec fn noted(self, kind: MessageKind) -> Preflight {
        match kind {
            MessageKind::Command => self,
            MessageKind::MqttConnect => Preflight { mqtt: true, ..self },
            MessageKind::TimersReady => Preflight { timers: true, ..self },
        }
    }

    /// Both subsystems are ready and the program has not run yet.
    pub open spec fn due(self) -> bool {
        !self.program_run && self.mqtt && self.timers
    }

    /// Whether the program is evaluated right after a message of this kind.
    pub open spec fn launches(self, kind: MessageKind) -> bool {
        self.noted(kind).due()
    }

    /// The state after a message of this kind.
    pub open spec fn after(self, kind: MessageKind) -> Preflight {
        let noted = self.noted(kind);
        Preflight { program_run: noted.program_run || noted.due(), ..noted }
    }

    /// The state after a queue of messages of these kinds.
    pub open spec fn after_all(self, kinds: Seq<MessageKind>) -> Preflight
        decreases kinds.len(),
    {
        if kinds.len() == 0 {
            self
        } else {
            self.after_all(kinds.drop_last()).after(kinds.last())
        }
    }

    /// How often the program is evaluated while a queue of messages of
    /// these kinds is handled.
    pub open spec fn launch_count(self, kinds: Seq<MessageKind>) -> nat
        decreases kinds.len(),
    {
        if kinds.len() == 0 {
            0
        } else {
            self.launch_count(kinds.drop_last()) + if self.after_all(kinds.drop_last()).launches(
                kinds.last(),
            ) {
                1nat
            } else {
                0nat
            }
        }
    }

    /// The state in which the actor starts.
    pub fn new() -> (state: Preflight)
        ensures
            state == Preflight::initial(),
    {
        Preflight { mqtt: false, timers: false, program_run: false }
    }

    /// Takes the next message from the queue into account.
    ///
    /// A command is always evaluated, whatever is ready. A readiness
    /// message is noted. The moment both subsystems are ready and the
    /// program has not yet run, the step asks for it, and it counts as run
    /// from then on.
    pub fn receive(&mut self, msg: VMMessage) -> (step: Step)
        ensures
            *final(self) == old(self).after(msg.kind()),
            step.work == work_for(msg),
            step.run_program == old(self).launches(msg.kind()),
    {
        let work = match msg {
            VMMessage::Command(cmd) => Work::Evaluate(cmd),
            VMMessage::MqttConnect(client) => {
                self.mqtt = true;
                Work::ConnectBus(client)
            },
            VMMessage::TimersReady(tx) => {
                self.timers = true;
                Work::ConnectTimers(tx)
            },
        };
        let run_program = !self.program_run && self.mqtt && self.timers;
        if run_program {
            self.program_run = true;
        }
        Step { work, run_program }
    }
}

/// What a queue of messages leaves behind: a subsystem is ready if it was
/// ready before or reported ready in the queue; the program has run if it
/// had run before or if, with at least one message handled, both subsystems
/// are ready. The program is evaluated during the queue exactly if it had
/// not run before and has run afterwards, and then once.
pub proof fn lemma_after_all(state: Preflight, kinds: Seq<MessageKind>)
    ensures
        state.after_all(kinds).mqtt == (state.mqtt || kinds.contains(MessageKind::MqttConnect)),
        state.after_all(kinds).timers == (state.timers || kinds.contains(
            MessageKind::TimersReady,
        )),
        state.after_all(kinds).program_run == (state.program_run || (kinds.len() > 0
            && state.after_all(kinds).mqtt && state.after_all(kinds).timers)),
        state.launch_count(kinds) == if !state.program_run && state.after_all(kinds).program_run {
            1nat
        } else {
            0nat
        },
    decreases kinds.len(),
{
    if kinds.len() > 0 {
        let front = kinds.drop_last();
        lemma_after_all(state, front);
        assert(forall|k: MessageKind|
            kinds.contains(k) <==> front.contains(k) || kinds.last() == k) by {
            assert forall|k: MessageKind| kinds.contains(k) implies front.contains(k)
                || kinds.last() == k by {
                let i = choose|i: int| 0 <= i < kinds.len() && kinds[i] == k;
                if i < front.len() {
                    assert(front[i] == k);
                }
            }
            assert forall|k: MessageKind| front.contains(k) || kinds.last() == k implies (
            #[trigger] kinds.contains(k)) by {
                if front.contains(k) {
                    let i = choose|i: int| 0 <= i < front.len() && front[i] == k;
                    assert(kinds[i] == k);
                } else {
                    assert(kinds[kinds.len() - 1] == k);
                }
            }
        }
    }
}

/// The user's program runs exactly once.
///
/// Starting from the initial state, the program is evaluated once if the
/// queue holds both readiness messages, in whatever order and however often
/// each is repeated, and not at all if one of them is missing.
pub proof fn lemma_program_runs_once(kinds: Seq<MessageKind>)
    ensures
        Preflight::initial().launch_count(kinds) == if kinds.contains(MessageKind::MqttConnect)
            && kinds.contains(MessageKind::TimersReady) {
            1nat
        } else {
            0nat
        },
{
    lemma_after_all(Preflight::initial(), kinds);
}

/// Once the program has run, no message makes it run again.
pub proof fn lemma_program_never_runs_again(state: Preflight, kinds: Seq<MessageKind>)
    requires
        state.program_run,
    ensures
        state.launch_count(kinds) == 0,
        state.after_all(kinds).program_run,
{
    lemma_after_all(state, kinds);
}

/// Messages are handled strictly in their order of arrival.
///
/// Fed a queue message by message, the actor takes one step per message,
/// the step at each place is for the message at that place whatever the
/// state, and the commands it evaluates are the commands of the queue in
/// the order in which they arrived.
pub proof fn lemma_arrival_order(state: Preflight, msgs: Seq<VMMessage>)
    ensures
        steps(state, msgs).len() == msgs.len(),
        forall|i: int| 0 <= i < msgs.len() ==> (#[trigger] steps(state, msgs)[i]).work == work_for(
            msgs[i],
        ),
        evaluated(steps(state, msgs)) == commands(msgs),
    decreases msgs.len(),
{
    if msgs.len() > 0 {
        let front = msgs.drop_last();
        lemma_arrival_order(state, front);
        let all = steps(state, msgs);
        assert(all.drop_last() =~= steps(state, front));
    }
}

} // verus!
