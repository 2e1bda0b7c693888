//! The live debug session over one socket: the handshake, the periodic
//! keep-alive commands and the relay of inbound runtime events, as a state
//! machine that the caller drives with what happens on the socket.

use vstd::prelude::*;

use crate::text::decimal;

verus! {

/// Seconds between two keep-alive commands.
pub const KEEP_ALIVE_INTERVAL: u64 = 10;

/// `chrome_devtools::runtime::Event`, a runtime event as the protocol
/// crate decoded it, carried through as an opaque value.
#[verifier::external_type_specification]
#[verifier::external_body]
pub struct ExRuntimeEvent(chrome_devtools::runtime::Event);

/// The commands that a session sends.
#[derive(Clone, Copy, Debug, PartialEq, Eq, Structural)]
pub enum Method {
    /// Enables the runtime domain: the handshake.
    Enable,
    /// Asks for the isolate's id: the keep-alive.
    GetIsolateId,
}

/// An inbound frame, decoded.
#[derive(Debug)]
pub enum Frame {
    /// A runtime event.
    Notification(chrome_devtools::runtime::Event),
    /// A well-formed envelope that is no event, such as the answer to a
    /// command.
    Other,
    /// Text that is no envelope of the protocol, or a payload that is no
    /// text; `reason` says what is wrong with it.
    Malformed { reason: String },
}

/// The protocol's name of a command.
pub open spec fn method_name(method: Method) -> Seq<char> {
    match method {
        Method::Enable => "Runtime.enable"@,
        Method::GetIsolateId => "Runtime.getIsolateId"@,
    }
}

/// The text frame of a command: a JSON object with the command's name
/// under `method` and its number under `id`, without white space.
pub open spec fn frame_text(method: Method, id: u64) -> Seq<char> {
    "{\"method\":\""@ + method_name(method) + "\",\"id\":"@ + decimal(id as nat) + "}"@
}

/// The frame that the inbound text `text` decodes to: the event, another
/// envelope, or the decoder's complaint.
pub uninterp spec fn frame_of(text: Seq<char>) -> Frame;

/// `serde_json::to_string` on the protocol crate's `SendMethod`, built from
/// the command and its number. Serialising fails only where a value's own
/// `Serialize` fails or a map has keys that are no strings; `SendMethod`
/// derives `Serialize` over a name and a number, so a text always comes.
/// It is the compact JSON object that `SendMethod` is declared to
/// serialise as: the tag `method` with the variant's name, then the field
/// `id`.
#[verifier::external_body]
fn encode(method: Method, id: u64) -> (r: Option<String>)
    ensures
        r is Some,
        r matches Some(text) ==> text@ == frame_text(method, id),
{
    let message = match method {
        Method::Enable => chrome_devtools::runtime::SendMethod::Enable(id.into()),
        Method::GetIsolateId => chrome_devtools::runtime::SendMethod::GetIsolateId(id.into()),
    };
    serde_json::to_string(&message).ok()
}

/// `serde_json::from_str` into the protocol crate's `Runtime`. The frame
/// is the decoder's result, which depends on the text alone: the event,
/// another envelope, or the error as text.
#[verifier::external_body]
fn decode(text: &str) -> (frame: Frame)
    ensures
        frame == frame_of(text@),
{
    match serde_json::from_str::<chrome_devtools::Runtime>(text) {
        Ok(chrome_devtools::Runtime::Event(event)) => Frame::Notification(event),
        Ok(chrome_devtools::Runtime::Method(_)) => Frame::Other,
        Err(e) => Frame::Malformed { reason: e.to_string() },
    }
}

/// The life of a session. There is no way back from `Terminated`.
#[derive(Clone, Copy, Debug, PartialEq, Eq, Structural)]
pub enum Phase {
    Connecting,
    Active,
    Terminated,
}

/// The two activities that share the socket of an active session.
#[derive(Clone, Copy, Debug, PartialEq, Eq, Structural)]
pub enum Activity {
    /// The emitter of keep-alive commands.
    KeepAlive,
    /// The relay of inbound events.
    Relay,
}

/// Why a session ended other than by the socket closing.
#[derive(Debug)]
pub enum SessionError {
    /// The socket could not be opened. The session never started.
    Connect { reason: String },
    /// Reading or writing failed while the session was active.
    Transport { reason: String },
    /// A command could not be put into text. The commands of a session
    /// always can, so no session ends this way.
    Encoding,
    /// Every command number has been used.
    IdsExhausted,
}

/// A session: its phase and the number of the last command it sent.
#[derive(Debug)]
pub struct Session {
    pub phase: Phase,
    pub last_id: u64,
}

/// What happened, with an inbound frame already decoded.
#[derive(Debug)]
pub enum Signal {
    Connected,
    ConnectFailed { reason: String },
    /// The keep-alive period has passed.
    Tick,
    Frame(Frame),
    /// One of the two activities has finished: the socket is closed, or
    /// the writer takes no more.
    Ended(Activity),
    Failed { reason: String },
}

/// What happened, with an inbound frame as it came.
#[derive(Debug)]
pub enum Input {
    Connected,
    ConnectFailed { reason: String },
    Tick,
    /// An inbound frame with this text.
    Text(String),
    /// An inbound frame whose payload is no text; `reason` says why.
    Unreadable { reason: String },
    Ended(Activity),
    Failed { reason: String },
}

/// What a session decides on a signal.
#[derive(Debug)]
pub enum Decision {
    /// Send the command `method` with the number `id`.
    Emit { method: Method, id: u64 },
    /// Hand the event to the observer.
    Surface(chrome_devtools::runtime::Event),
    /// Note that a frame could not be decoded, and go on.
    Discard { reason: String },
    Nothing,
    /// The session is over.
    Stop(Result<(), SessionError>),
}

/// What the caller is to do for a session.
#[derive(Debug)]
pub enum Action {
    /// Write this text frame to the socket.
    Send(String),
    Surface(chrome_devtools::runtime::Event),
    Discard { reason: String },
    Nothing,
    Stop(Result<(), SessionError>),
}

/// The session and the decision that follow `signal` in `session`.
///
/// A terminated session stays so and decides nothing. A connecting one
/// becomes active with the handshake, command number 1, or ends on a
/// failure. An active one sends a keep-alive with the next number on each
/// tick, surfaces events, notes malformed frames, drops other frames, and
/// ends as soon as either activity has finished or failed.
pub open spec fn decision(session: Session, signal: Signal) -> (Session, Decision) {
    let over = Session { phase: Phase::Terminated, last_id: session.last_id };
    match session.phase {
        Phase::Terminated => (session, Decision::Nothing),
        Phase::Connecting => match signal {
            Signal::Connected => (
                Session { phase: Phase::Active, last_id: 1 },
                Decision::Emit { method: Method::Enable, id: 1 },
            ),
            Signal::ConnectFailed { reason } => (
                over,
                Decision::Stop(Err(SessionError::Connect { reason })),
            ),
            Signal::Failed { reason } => (
                over,
                Decision::Stop(Err(SessionError::Connect { reason })),
            ),
            Signal::Ended(_) => (over, Decision::Stop(Ok(()))),
            _ => (session, Decision::Nothing),
        },
        Phase::Active => match signal {
            Signal::Tick => if session.last_id < u64::MAX {
                (
                    Session { phase: Phase::Active, last_id: (session.last_id + 1) as u64 },
                    Decision::Emit {
                        method: Method::GetIsolateId,
                        id: (session.last_id + 1) as u64,
                    },
                )
            } else {
                (over, Decision::Stop(Err(SessionError::IdsExhausted)))
            },
            Signal::Frame(Frame::Notification(event)) => (session, Decision::Surface(event)),
            Signal::Frame(Frame::Other) => (session, Decision::Nothing),
            Signal::Frame(Frame::Malformed { reason }) => (session, Decision::Discard { reason }),
            Signal::Ended(_) => (over, Decision::Stop(Ok(()))),
            Signal::Failed { reason } => (
                over,
                Decision::Stop(Err(SessionError::Transport { reason })),
            ),
            _ => (session, Decision::Nothing),
        },
    }
}

impl Session {
    /// A session that has not connected yet and has sent nothing.
    pub fn new() -> (session: Session)
        ensures
            session.phase == Phase::Connecting,
            session.last_id == 0,
    {
        Session { phase: Phase::Connecting, last_id: 0 }
    }

    /// Decides on a signal.
    pub fn decide(self, signal: Signal) -> (r: (Session, Decision))
        ensures
            r == decision(self, signal),
    {
        let last_id = self.last_id;
        match self.phase {
            Phase::Terminated => (self, Decision::Nothing),
            Phase::Connecting => match signal {
                Signal::Connected => (
                    Session { phase: Phase::Active, last_id: 1 },
                    Decision::Emit { method: Method::Enable, id: 1 },
                ),
                Signal::ConnectFailed { reason } => (
                    Session { phase: Phase::Terminated, last_id },
                    Decision::Stop(Err(SessionError::Connect { reason })),
                ),
                Signal::Failed { reason } => (
                    Session { phase: Phase::Terminated, last_id },
                    Decision::Stop(Err(SessionError::Connect { reason })),
                ),
                Signal::Ended(_) => (
                    Session { phase: Phase::Terminated, last_id },
                    Decision::Stop(Ok(())),
                ),
                _ => (self, Decision::Nothing),
            },
            Phase::Active => match signal {
                Signal::Tick => {
                    if last_id < u64::MAX {
                        (
                            Session { phase: Phase::Active, last_id: last_id + 1 },
                            Decision::Emit { method: Method::GetIsolateId, id: last_id + 1 },
                        )
                    } else {
                        (
                            Session { phase: Phase::Terminated, last_id },
                            Decision::Stop(Err(SessionError::IdsExhausted)),
                        )
                    }
                },
                Signal::Frame(Frame::Notification(event)) => (self, Decision::Surface(event)),
                Signal::Frame(Frame::Other) => (self, Decision::Nothing),
                Signal::Frame(Frame::Malformed { reason }) => (self, Decision::Discard { reason }),
                Signal::Ended(_) => (
                    Session { phase: Phase::Terminated, last_id },
                    Decision::Stop(Ok(())),
                ),
                Signal::Failed { reason } => (
                    Session { phase: Phase::Terminated, last_id },
                    Decision::Stop(Err(SessionError::Transport { reason })),
                ),
                _ => (self, Decision::Nothing),
            },
        }
    }
}

/// The signal that an input stands for: an inbound text is the frame that
/// it decodes to, and a frame whose payload is no text is a malformed
/// frame.
pub open spec fn signal_of(input: Input) -> Signal {
    match input {
        Input::Connected => Signal::Connected,
        Input::ConnectFailed { reason } => Signal::ConnectFailed { reason },
        Input::Tick => Signal::Tick,
        Input::Text(text) => Signal::Frame(frame_of(text@)),
        Input::Unreadable { reason } => Signal::Frame(Frame::Malformed { reason }),
        Input::Ended(activity) => Signal::Ended(activity),
        Input::Failed { reason } => Signal::Failed { reason },
    }
}

/// Whether `done` carries out `decided`: a command is sent as its text
/// frame, and every other decision is passed on as it is.
pub open spec fn carries_out(decided: (Session, Decision), done: (Session, Action)) -> bool {
    match decided.1 {
        Decision::Emit { method, id } => {
            &&& done.0 == decided.0
            &&& done.1 matches Action::Send(text)
            &&& text@ == frame_text(method, id)
        },
        Decision::Surface(event) => done == (decided.0, Action::Surface(event)),
        Decision::Discard { reason } => done == (decided.0, Action::Discard { reason }),
        Decision::Nothing => done == (decided.0, Action::Nothing),
        Decision::Stop(result) => done == (decided.0, Action::Stop(result)),
    }
}

/// The session that follows a sequence of signals, taken one by one.
pub open spec fn after(session: Session, signals: Seq<Signal>) -> Session
    decreases signals.len(),
{
    if signals.len() == 0 {
        session
    } else {
        after(decision(session, signals[0]).0, signals.drop_first())
    }
}

/// The decisions taken on a sequence of signals, one for each.
pub open spec fn decisions(session: Session, signals: Seq<Signal>) -> Seq<Decision>
    decreases signals.len(),
{
    if signals.len() == 0 {
        Seq::empty()
    } else {
        let (then, decided) = decision(session, signals[0]);
        seq![decided] + decisions(then, signals.drop_first())
    }
}

/// How many of the decisions send a command.
pub open spec fn emitted(decided: Seq<Decision>) -> nat
    decreases decided.len(),
{
    if decided.len() == 0 {
        0
    } else {
        (if decided[0] is Emit {
            1nat
        } else {
            0nat
        }) + emitted(decided.drop_first())
    }
}

/// A session whose count of commands fits its phase: none before it is
/// connected.
pub open spec fn counted(session: Session) -> bool {
    session.phase == Phase::Connecting ==> session.last_id == 0
}

/// The text that notes a frame that could not be decoded.
pub open spec fn discard_text(reason: Seq<char>) -> Seq<char> {
    "this event could not be parsed:\n"@ + reason
}

/// The note for a frame that could not be decoded, from the decoder's
/// complaint.
pub fn discard_note(reason: &String) -> (note: String)
    ensures
        note@ == discard_text(reason@),
{
    let mut note = String::from_str("this event could not be parsed:\n");
    note.append(reason.as_str());
    note
}

impl Session {
    /// Takes what happened on the socket and says what to do: decodes an
    /// inbound text, decides, and puts a command to send into text.
    ///
    /// Every input is decided on as the signal that it stands for. So an
    /// inbound frame leaves the session as it is: an active session
    /// surfaces the event of a text that decodes to one, notes a text that
    /// does not decode and a payload that is no text, and drops the rest.
    pub fn step(self, input: Input) -> (r: (Session, Action))
        ensures
            carries_out(decision(self, signal_of(input)), r),
            input is Text || input is Unreadable ==> r.0 == self,
    {
        let signal = match input {
            Input::Connected => Signal::Connected,
            Input::ConnectFailed { reason } => Signal::ConnectFailed { reason },
            Input::Tick => Signal::Tick,
            Input::Text(text) => Signal::Frame(decode(text.as_str())),
            Input::Unreadable { reason } => Signal::Frame(Frame::Malformed { reason }),
            Input::Ended(activity) => Signal::Ended(activity),
            Input::Failed { reason } => Signal::Failed { reason },
        };
        let (session, decided) = self.decide(signal);
        match decided {
            Decision::Emit { method, id } => match encode(method, id) {
                Some(text) => (session, Action::Send(text)),
                None => (
                    Session { phase: Phase::Terminated, last_id: session.last_id },
                    Action::Stop(Err(SessionError::Encoding)),
                ),
            },
            Decision::Surface(event) => (session, Action::Surface(event)),
            Decision::Discard { reason } => (session, Action::Discard { reason }),
            Decision::Nothing => (session, Action::Nothing),
            Decision::Stop(result) => (session, Action::Stop(result)),
        }
    }
}

proof fn lemma_decisions_len(session: Session, signals: Seq<Signal>)
    ensures
        decisions(session, signals).len() == signals.len(),
    decreases signals.len(),
{
    if signals.len() > 0 {
        lemma_decisions_len(decision(session, signals[0]).0, signals.drop_first());
    }
}

/// A terminated session decides nothing, whatever is signalled.
pub proof fn lemma_terminated_decides_nothing(session: Session, signals: Seq<Signal>, k: int)
    requires
        session.phase == Phase::Terminated,
        0 <= k < signals.len(),
    ensures
        decisions(session, signals).len() == signals.len(),
        decisions(session, signals)[k] == Decision::Nothing,
    decreases signals.len(),
{
    lemma_decisions_len(session, signals);
    if k > 0 {
        lemma_terminated_decides_nothing(session, signals.drop_first(), k - 1);
    }
}

/// Command numbers count up from 1: wherever a session decides to send a
/// command, its number is one more than the number of the last command
/// sent before, and so one more than the count of commands sent before. The
/// command with number 1 is the handshake, every later one a keep-alive.
pub proof fn lemma_ids_count_up(session: Session, signals: Seq<Signal>, k: int)
    requires
        counted(session),
        0 <= k < signals.len(),
        decisions(session, signals)[k] is Emit,
    ensures
        decisions(session, signals).len() == signals.len(),
        decisions(session, signals)[k] matches Decision::Emit { method, id } && {
            &&& id == session.last_id + emitted(decisions(session, signals).take(k)) + 1
            &&& method == Method::Enable <==> session.phase == Phase::Connecting && emitted(
                decisions(session, signals).take(k),
            ) == 0
        },
    decreases signals.len(),
{
    let all = decisions(session, signals);
    let (then, decided) = decision(session, signals[0]);
    let rest = signals.drop_first();
    lemma_decisions_len(session, signals);
    lemma_decisions_len(then, rest);
    if k == 0 {
        assert(all.take(0) =~= Seq::<Decision>::empty());
    } else {
        assert(all[k] == decisions(then, rest)[k - 1]);
        if then.phase == Phase::Terminated {
            lemma_terminated_decides_nothing(then, rest, k - 1);
        }
        lemma_ids_count_up(then, rest, k - 1);
        assert(all.take(k).drop_first() =~= decisions(then, rest).take(k - 1));
        assert(all.take(k)[0] == decided);
        assert(emitted(all.take(k)) == (if decided is Emit {
            1nat
        } else {
            0nat
        }) + emitted(decisions(then, rest).take(k - 1)));
    }
}

/// A new session sends the handshake with number 1 first, then
/// keep-alives with 2, 3, 4 and so on: the `n`-th command that it decides
/// to send has the number `n`, and is the handshake exactly for `n` = 1.
pub proof fn lemma_new_session_numbers(signals: Seq<Signal>, k: int)
    requires
        0 <= k < signals.len(),
        decisions(Session { phase: Phase::Connecting, last_id: 0 }, signals)[k] is Emit,
    ensures
        ({
            let all = decisions(Session { phase: Phase::Connecting, last_id: 0 }, signals);
            all[k] matches Decision::Emit { method, id } && {
                &&& id == emitted(all.take(k)) + 1
                &&& method == Method::Enable <==> id == 1
            }
        }),
{
    lemma_ids_count_up(Session { phase: Phase::Connecting, last_id: 0 }, signals, k);
}

/// A terminated session stays terminated, whatever follows.
pub proof fn lemma_terminated_is_final(session: Session, signals: Seq<Signal>)
    requires
        session.phase == Phase::Terminated,
    ensures
        after(session, signals) == session,
    decreases signals.len(),
{
    if signals.len() > 0 {
        lemma_terminated_is_final(session, signals.drop_first());
    }
}

/// A session is over as soon as either activity has finished: after a
/// signal that the keep-alive emitter or the relay has ended, whichever
/// it is and whatever came before or comes after, the session is
/// terminated.
pub proof fn lemma_ends_with_either_activity(session: Session, signals: Seq<Signal>, k: int)
    requires
        0 <= k < signals.len(),
        signals[k] is Ended,
    ensures
        after(session, signals).phase == Phase::Terminated,
    decreases signals.len(),
{
    let then = decision(session, signals[0]).0;
    if k == 0 {
        lemma_terminated_is_final(then, signals.drop_first());
    } else {
        lemma_ends_with_either_activity(then, signals.drop_first(), k - 1);
    }
}

/// A malformed frame leaves the session as it is, and so does a frame that
/// is no event; only an event that reaches an active session is surfaced.
pub proof fn lemma_relay_goes_on(session: Session, frame: Frame)
    ensures
        !(frame is Notification) ==> decision(session, Signal::Frame(frame)).0 == session,
        decision(session, Signal::Frame(frame)).1 is Surface <==> session.phase == Phase::Active
            && frame is Notification,
        decision(session, Signal::Frame(frame)).1 is Discard <==> session.phase == Phase::Active
            && frame is Malformed,
        !(decision(session, Signal::Frame(frame)).1 is Stop),
{
}

} // verus!
