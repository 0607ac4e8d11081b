//! The per-message state machine. One inbound message is handled by a run of
//! this machine: each step consumes the outcome of the previous effect (an
//! [`Event`]) and decides the next effect (an [`Action`]). The caller performs
//! the effects — network calls, the transcoder process, file removal — and
//! feeds the outcomes back in; the decisions themselves are verified here.
//!
//! The protocol of one run: start with [`Event::MessageArrived`], perform each
//! returned action, answer it with its event, stop at [`Action::Finish`].

use vstd::prelude::*;
use crate::message::{AudioAttachment, AudioAttachmentView, IncomingMessage, IncomingMessageView};
use crate::naming::{input_name, output_name, input_filename, output_filename};

verus! {

/// Fixed reply sent when a message carries no audio attachment.
pub open spec fn ask_text() -> Seq<char> {
    "Please send me an audio file."@
}

/// Fixed reply sent when the transcoder exits with a non-zero status.
pub open spec fn failure_text() -> Seq<char> {
    "Failed to convert audio file."@
}

/// The reply asking the sender for an audio file.
pub fn ask_reply() -> (r: String)
    ensures
        r@ == ask_text(),
{
    "Please send me an audio file.".to_owned()
}

/// The reply reporting a failed conversion.
pub fn failure_reply() -> (r: String)
    ensures
        r@ == failure_text(),
{
    "Failed to convert audio file.".to_owned()
}

/// Where a run stands: which effect's outcome it is waiting for.
#[derive(Clone, Copy, PartialEq, Eq, Structural, Debug)]
pub enum Phase {
    /// No event consumed yet.
    Start,
    /// The request-for-audio reply is being sent.
    AwaitingAskSent,
    /// The remote storage path of the attachment is being resolved.
    AwaitingRemotePath,
    /// The attachment is being downloaded.
    AwaitingDownload,
    /// The transcoder is running.
    AwaitingTranscode,
    /// The converted voice note is being uploaded.
    AwaitingVoiceSent,
    /// The conversion-failed reply is being sent.
    AwaitingFailureSent,
    /// The downloaded input file is being removed.
    AwaitingInputRemoval,
    /// The transcoded output file is being removed.
    AwaitingOutputRemoval,
    /// The run is over; no further event is accepted.
    Done,
}

/// The outcome of one performed effect, fed back into the machine.
#[derive(PartialEq, Debug)]
pub enum Event {
    /// A fresh message is ready to be handled.
    MessageArrived,
    /// A text reply was delivered.
    TextSent,
    /// The bot backend resolved the attachment's remote storage path.
    RemotePathResolved { remote_path: String },
    /// The attachment was fully written to its local file.
    DownloadFinished,
    /// The transcoder exited; `success` is true exactly on exit status zero.
    TranscoderExited { success: bool },
    /// The voice note was delivered.
    VoiceSent,
    /// A local file was removed.
    FileRemoved,
}

/// Mathematical image of an [`Event`].
pub enum EventView {
    MessageArrived,
    TextSent,
    RemotePathResolved { remote_path: Seq<char> },
    DownloadFinished,
    TranscoderExited { success: bool },
    VoiceSent,
    FileRemoved,
}

impl View for Event {
    type V = EventView;

    open spec fn view(&self) -> EventView {
        match self {
            Event::MessageArrived => EventView::MessageArrived,
            Event::TextSent => EventView::TextSent,
            Event::RemotePathResolved { remote_path } => EventView::RemotePathResolved {
                remote_path: remote_path@,
            },
            Event::DownloadFinished => EventView::DownloadFinished,
            Event::TranscoderExited { success } => EventView::TranscoderExited {
                success: *success,
            },
            Event::VoiceSent => EventView::VoiceSent,
            Event::FileRemoved => EventView::FileRemoved,
        }
    }
}

/// The next effect the caller must perform.
#[derive(PartialEq, Debug)]
pub enum Action {
    /// Ask the bot backend where the blob named `file_id` is stored.
    ResolveRemotePath { file_id: String },
    /// Stream the blob at `remote_path` into the local file `local_path`.
    DownloadTo { remote_path: String, local_path: String },
    /// Run the transcoder from `input_path` to `output_path` and wait for it.
    RunTranscoder { input_path: String, output_path: String },
    /// Send a plain-text reply to the chat.
    SendText { chat_id: i64, text: String },
    /// Upload the file at `path` to the chat as a voice note.
    SendVoice { chat_id: i64, path: String },
    /// Remove the local file at `path`.
    RemoveFile { path: String },
    /// Nothing is left to do for this message.
    Finish,
}

/// Mathematical image of an [`Action`].
pub enum ActionView {
    ResolveRemotePath { file_id: Seq<char> },
    DownloadTo { remote_path: Seq<char>, local_path: Seq<char> },
    RunTranscoder { input_path: Seq<char>, output_path: Seq<char> },
    SendText { chat_id: int, text: Seq<char> },
    SendVoice { chat_id: int, path: Seq<char> },
    RemoveFile { path: Seq<char> },
    Finish,
}

impl View for Action {
    type V = ActionView;

    open spec fn view(&self) -> ActionView {
        match self {
            Action::ResolveRemotePath { file_id } => ActionView::ResolveRemotePath {
                file_id: file_id@,
            },
            Action::DownloadTo { remote_path, local_path } => ActionView::DownloadTo {
                remote_path: remote_path@,
                local_path: local_path@,
            },
            Action::RunTranscoder { input_path, output_path } => ActionView::RunTranscoder {
                input_path: input_path@,
                output_path: output_path@,
            },
            Action::SendText { chat_id, text } => ActionView::SendText {
                chat_id: *chat_id as int,
                text: text@,
            },
            Action::SendVoice { chat_id, path } => ActionView::SendVoice {
                chat_id: *chat_id as int,
                path: path@,
            },
            Action::RemoveFile { path } => ActionView::RemoveFile { path: path@ },
            Action::Finish => ActionView::Finish,
        }
    }
}

/// The state of one run: the message's fixed data and the current phase.
pub struct Handler {
    chat_id: i64,
    audio: Option<AudioAttachment>,
    phase: Phase,
}

/// Mathematical image of a [`Handler`].
pub struct HandlerView {
    pub chat_id: int,
    pub audio: Option<AudioAttachmentView>,
    pub phase: Phase,
}

impl View for Handler {
    type V = HandlerView;

    closed spec fn view(&self) -> HandlerView {
        HandlerView {
            chat_id: self.chat_id as int,
            audio: match self.audio {
                Some(a) => Some(a@),
                None => None,
            },
            phase: self.phase,
        }
    }
}

/// The state a fresh handler for this message is in.
pub open spec fn init(msg: IncomingMessageView) -> HandlerView {
    HandlerView { chat_id: msg.chat_id, audio: msg.audio, phase: Phase::Start }
}

/// Every phase of the conversion pipeline presupposes an attachment; the
/// phases reachable without one do not.
pub open spec fn wf(m: HandlerView) -> bool {
    match m.phase {
        Phase::Start => true,
        Phase::AwaitingAskSent => true,
        Phase::Done => true,
        _ => m.audio is Some,
    }
}

/// Which event the machine accepts in this state: exactly the outcome of the
/// effect it is waiting for. A finished run accepts none.
pub open spec fn awaits(m: HandlerView, ev: EventView) -> bool {
    match m.phase {
        Phase::Start => ev is MessageArrived,
        Phase::AwaitingAskSent => ev is TextSent,
        Phase::AwaitingRemotePath => ev is RemotePathResolved,
        Phase::AwaitingDownload => ev is DownloadFinished,
        Phase::AwaitingTranscode => ev is TranscoderExited,
        Phase::AwaitingVoiceSent => ev is VoiceSent,
        Phase::AwaitingFailureSent => ev is TextSent,
        Phase::AwaitingInputRemoval => ev is FileRemoved,
        Phase::AwaitingOutputRemoval => ev is FileRemoved,
        Phase::Done => false,
    }
}

/// The same state with another phase.
pub open spec fn with_phase(m: HandlerView, phase: Phase) -> HandlerView {
    HandlerView { chat_id: m.chat_id, audio: m.audio, phase: phase }
}

/// The transition function: from a state and the event it awaits, the next
/// state and the next effect. On an event the state does not await (never
/// reached under the protocol) the state is kept and nothing is asked for.
pub open spec fn next(m: HandlerView, ev: EventView) -> (HandlerView, ActionView)
    recommends
        wf(m),
{
    if !awaits(m, ev) {
        (m, ActionView::Finish)
    } else {
        match m.phase {
            Phase::Start => match m.audio {
                Some(a) => (
                    with_phase(m, Phase::AwaitingRemotePath),
                    ActionView::ResolveRemotePath { file_id: a.file_id },
                ),
                None => (
                    with_phase(m, Phase::AwaitingAskSent),
                    ActionView::SendText { chat_id: m.chat_id, text: ask_text() },
                ),
            },
            Phase::AwaitingAskSent => (with_phase(m, Phase::Done), ActionView::Finish),
            Phase::AwaitingRemotePath => (
                with_phase(m, Phase::AwaitingDownload),
                ActionView::DownloadTo {
                    remote_path: ev->remote_path,
                    local_path: input_name(m.audio->0.file_unique_id),
                },
            ),
            Phase::AwaitingDownload => (
                with_phase(m, Phase::AwaitingTranscode),
                ActionView::RunTranscoder {
                    input_path: input_name(m.audio->0.file_unique_id),
                    output_path: output_name(m.audio->0.file_unique_id),
                },
            ),
            Phase::AwaitingTranscode => if ev->success {
                (
                    with_phase(m, Phase::AwaitingVoiceSent),
                    ActionView::SendVoice {
                        chat_id: m.chat_id,
                        path: output_name(m.audio->0.file_unique_id),
                    },
                )
            } else {
                (
                    with_phase(m, Phase::AwaitingFailureSent),
                    ActionView::SendText { chat_id: m.chat_id, text: failure_text() },
                )
            },
            Phase::AwaitingVoiceSent => (
                with_phase(m, Phase::AwaitingInputRemoval),
                ActionView::RemoveFile { path: input_name(m.audio->0.file_unique_id) },
            ),
            Phase::AwaitingInputRemoval => (
                with_phase(m, Phase::AwaitingOutputRemoval),
                ActionView::RemoveFile { path: output_name(m.audio->0.file_unique_id) },
            ),
            Phase::AwaitingOutputRemoval => (with_phase(m, Phase::Done), ActionView::Finish),
            Phase::AwaitingFailureSent => (with_phase(m, Phase::Done), ActionView::Finish),
            Phase::Done => (m, ActionView::Finish),
        }
    }
}

impl Handler {
    /// A fresh handler for one inbound message.
    pub fn new(msg: IncomingMessage) -> (h: Handler)
        ensures
            h@ == init(msg@),
            wf(h@),
    {
        Handler { chat_id: msg.chat_id, audio: msg.audio, phase: Phase::Start }
    }

    /// Whether the run is over.
    pub fn is_done(&self) -> (r: bool)
        ensures
            r == (self@.phase is Done),
    {
        match self.phase {
            Phase::Done => true,
            _ => false,
        }
    }

    /// Whether this is the event the handler is waiting for, so a caller can
    /// check before stepping that it keeps to the protocol.
    pub fn accepts_event(&self, ev: &Event) -> (r: bool)
        ensures
            r == awaits(self@, ev@),
    {
        match self.phase {
            Phase::Start => matches!(ev, Event::MessageArrived),
            Phase::AwaitingAskSent => matches!(ev, Event::TextSent),
            Phase::AwaitingRemotePath => matches!(ev, Event::RemotePathResolved { .. }),
            Phase::AwaitingDownload => matches!(ev, Event::DownloadFinished),
            Phase::AwaitingTranscode => matches!(ev, Event::TranscoderExited { .. }),
            Phase::AwaitingVoiceSent => matches!(ev, Event::VoiceSent),
            Phase::AwaitingFailureSent => matches!(ev, Event::TextSent),
            Phase::AwaitingInputRemoval => matches!(ev, Event::FileRemoved),
            Phase::AwaitingOutputRemoval => matches!(ev, Event::FileRemoved),
            Phase::Done => false,
        }
    }

    /// Consumes the outcome of the last effect and decides the next one,
    /// exactly as the transition function [`next`] says.
    pub fn step(&mut self, ev: &Event) -> (a: Action)
        requires
            wf(old(self)@),
            awaits(old(self)@, ev@),
        ensures
            wf(final(self)@),
            final(self)@ == next(old(self)@, ev@).0,
            a@ == next(old(self)@, ev@).1,
    {
        match self.phase {
            Phase::Start => match &self.audio {
                Some(att) => {
                    let file_id = att.file_id.clone();
                    self.phase = Phase::AwaitingRemotePath;
                    Action::ResolveRemotePath { file_id }
                },
                None => {
                    self.phase = Phase::AwaitingAskSent;
                    Action::SendText { chat_id: self.chat_id, text: ask_reply() }
                },
            },
            Phase::AwaitingAskSent => {
                self.phase = Phase::Done;
                Action::Finish
            },
            Phase::AwaitingRemotePath => {
                let remote_path = match ev {
                    Event::RemotePathResolved { remote_path } => remote_path.clone(),
                    _ => String::new(),  // no other event is awaited in this phase
                };
                let local_path = match &self.audio {
                    Some(att) => input_filename(att.file_unique_id.as_str()),
                    None => String::new(),  // this phase is only reached with an attachment
                };
                self.phase = Phase::AwaitingDownload;
                Action::DownloadTo { remote_path, local_path }
            },
            Phase::AwaitingDownload => {
                let (input_path, output_path) = match &self.audio {
                    Some(att) => (
                        input_filename(att.file_unique_id.as_str()),
                        output_filename(att.file_unique_id.as_str()),
                    ),
                    None => (String::new(), String::new()),
                };
                self.phase = Phase::AwaitingTranscode;
                Action::RunTranscoder { input_path, output_path }
            },
            Phase::AwaitingTranscode => {
                let success = match ev {
                    Event::TranscoderExited { success } => *success,
                    _ => false,  // no other event is awaited in this phase
                };
                if success {
                    let path = match &self.audio {
                        Some(att) => output_filename(att.file_unique_id.as_str()),
                        None => String::new(),
                    };
                    self.phase = Phase::AwaitingVoiceSent;
                    Action::SendVoice { chat_id: self.chat_id, path }
                } else {
                    self.phase = Phase::AwaitingFailureSent;
                    Action::SendText { chat_id: self.chat_id, text: failure_reply() }
                }
            },
            Phase::AwaitingVoiceSent => {
                let path = match &self.audio {
                    Some(att) => input_filename(att.file_unique_id.as_str()),
                    None => String::new(),
                };
                self.phase = Phase::AwaitingInputRemoval;
                Action::RemoveFile { path }
            },
            Phase::AwaitingInputRemoval => {
                let path = match &self.audio {
                    Some(att) => output_filename(att.file_unique_id.as_str()),
                    None => String::new(),
                };
                self.phase = Phase::AwaitingOutputRemoval;
                Action::RemoveFile { path }
            },
            Phase::AwaitingOutputRemoval => {
                self.phase = Phase::Done;
                Action::Finish
            },
            Phase::AwaitingFailureSent => {
                self.phase = Phase::Done;
                Action::Finish
            },
            Phase::Done => Action::Finish,
        }
    }
}

} // verus!
