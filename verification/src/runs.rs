//! Whole runs of the handler, and what they observably do. A run is the fold
//! of the transition function over a sequence of events; its trace is the
//! sequence of effects it asks the caller to perform. The laws here pin down
//! the trace of every run: one for messages without audio, one for each
//! outcome of the transcoder.

use vstd::prelude::*;
use crate::handler::{
    ActionView, EventView, HandlerView, ask_text, awaits, failure_text, init, next,
};
use crate::message::IncomingMessageView;
use crate::naming::{input_name, output_name};

verus! {

/// The final state and the trace of effects of feeding `evs`, from index `i`
/// on, to a handler in state `m`.
pub open spec fn run_from(m: HandlerView, evs: Seq<EventView>, i: int) -> (
    HandlerView,
    Seq<ActionView>,
)
    decreases evs.len() - i,
{
    if i < 0 || i >= evs.len() {
        (m, Seq::empty())
    } else {
        let first = next(m, evs[i]);
        let rest = run_from(first.0, evs, i + 1);
        (rest.0, seq![first.1] + rest.1)
    }
}

/// The final state and the trace of effects of feeding `evs`, in order, to a
/// handler in state `m`.
pub open spec fn run(m: HandlerView, evs: Seq<EventView>) -> (HandlerView, Seq<ActionView>) {
    run_from(m, evs, 0)
}

/// Whether a handler in state `m` awaits the events of `evs` from index `i`
/// on, each one in the state the one before leaves behind.
pub open spec fn accepts_from(m: HandlerView, evs: Seq<EventView>, i: int) -> bool
    decreases evs.len() - i,
{
    i >= evs.len() || (awaits(m, evs[i]) && accepts_from(next(m, evs[i]).0, evs, i + 1))
}

/// Whether a handler in state `m` awaits exactly these events, each one in
/// the state the one before leaves behind: the caller's side of the protocol.
pub open spec fn accepts(m: HandlerView, evs: Seq<EventView>) -> bool {
    accepts_from(m, evs, 0)
}

/// The events of a run that handles a message without audio: the reply is
/// sent, nothing else happens.
pub open spec fn no_audio_events() -> Seq<EventView> {
    seq![EventView::MessageArrived, EventView::TextSent]
}

/// The events of a run whose transcoder exits with status zero.
pub open spec fn success_events(remote_path: Seq<char>) -> Seq<EventView> {
    seq![
        EventView::MessageArrived,
        EventView::RemotePathResolved { remote_path },
        EventView::DownloadFinished,
        EventView::TranscoderExited { success: true },
        EventView::VoiceSent,
        EventView::FileRemoved,
        EventView::FileRemoved,
    ]
}

/// The events of a run whose transcoder exits with a non-zero status: the
/// failure reply is then sent, and nothing else happens.
pub open spec fn failure_events(remote_path: Seq<char>) -> Seq<EventView> {
    seq![
        EventView::MessageArrived,
        EventView::RemotePathResolved { remote_path },
        EventView::DownloadFinished,
        EventView::TranscoderExited { success: false },
        EventView::TextSent,
    ]
}

/// A message without an audio attachment is answered with exactly one text
/// reply, the fixed request for an audio file, and nothing else: its run
/// consists of that reply, ends done, and a done handler accepts no further
/// event, so no other effect can follow.
pub proof fn law_no_audio_single_reply(msg: IncomingMessageView)
    requires
        msg.audio is None,
    ensures
        accepts(init(msg), no_audio_events()),
        run(init(msg), no_audio_events()).1 =~= seq![
            ActionView::SendText { chat_id: msg.chat_id, text: ask_text() },
            ActionView::Finish,
        ],
        run(init(msg), no_audio_events()).0.phase is Done,
        forall|ev: EventView| !awaits(run(init(msg), no_audio_events()).0, ev),
{
    reveal_with_fuel(run_from, 4);
    reveal_with_fuel(accepts_from, 4);
}

/// A message with an audio attachment whose transcoder exits with status
/// zero causes exactly: one resolution of the remote path, one download to
/// the id-derived input file, one transcoder invocation from that file to
/// the id-derived output file, one voice-note upload of the output file, and
/// the removal of first the input file, then the output file. The run ends
/// done; nothing further is accepted.
pub proof fn law_success_pipeline(msg: IncomingMessageView, remote_path: Seq<char>)
    requires
        msg.audio is Some,
    ensures
        accepts(init(msg), success_events(remote_path)),
        run(init(msg), success_events(remote_path)).1 =~= seq![
            ActionView::ResolveRemotePath { file_id: msg.audio->0.file_id },
            ActionView::DownloadTo {
                remote_path,
                local_path: input_name(msg.audio->0.file_unique_id),
            },
            ActionView::RunTranscoder {
                input_path: input_name(msg.audio->0.file_unique_id),
                output_path: output_name(msg.audio->0.file_unique_id),
            },
            ActionView::SendVoice {
                chat_id: msg.chat_id,
                path: output_name(msg.audio->0.file_unique_id),
            },
            ActionView::RemoveFile { path: input_name(msg.audio->0.file_unique_id) },
            ActionView::RemoveFile { path: output_name(msg.audio->0.file_unique_id) },
            ActionView::Finish,
        ],
        run(init(msg), success_events(remote_path)).0.phase is Done,
        forall|ev: EventView| !awaits(run(init(msg), success_events(remote_path)).0, ev),
{
    reveal_with_fuel(run_from, 9);
    reveal_with_fuel(accepts_from, 9);
}

/// A message with an audio attachment whose transcoder exits with a non-zero
/// status causes exactly: one resolution, one download, one transcoder
/// invocation, and one fixed-text failure reply. No voice note is uploaded
/// and no file is removed, so both temporary files remain. The run ends
/// done; nothing further is accepted.
pub proof fn law_failure_pipeline(msg: IncomingMessageView, remote_path: Seq<char>)
    requires
        msg.audio is Some,
    ensures
        accepts(init(msg), failure_events(remote_path)),
        run(init(msg), failure_events(remote_path)).1 =~= seq![
            ActionView::ResolveRemotePath { file_id: msg.audio->0.file_id },
            ActionView::DownloadTo {
                remote_path,
                local_path: input_name(msg.audio->0.file_unique_id),
            },
            ActionView::RunTranscoder {
                input_path: input_name(msg.audio->0.file_unique_id),
                output_path: output_name(msg.audio->0.file_unique_id),
            },
            ActionView::SendText { chat_id: msg.chat_id, text: failure_text() },
            ActionView::Finish,
        ],
        forall|i: int|
            0 <= i < run(init(msg), failure_events(remote_path)).1.len() ==> !(run(
                init(msg),
                failure_events(remote_path),
            ).1[i] is SendVoice),
        forall|i: int|
            0 <= i < run(init(msg), failure_events(remote_path)).1.len() ==> !(run(
                init(msg),
                failure_events(remote_path),
            ).1[i] is RemoveFile),
        run(init(msg), failure_events(remote_path)).0.phase is Done,
        forall|ev: EventView| !awaits(run(init(msg), failure_events(remote_path)).0, ev),
{
    reveal_with_fuel(run_from, 7);
    reveal_with_fuel(accepts_from, 7);
    assert forall|i: int| 0 <= i < run(init(msg), failure_events(remote_path)).1.len() implies !(
    run(init(msg), failure_events(remote_path)).1[i] is SendVoice) && !(run(
        init(msg),
        failure_events(remote_path),
    ).1[i] is RemoveFile) by {
        let tr = run(init(msg), failure_events(remote_path)).1;
        assert(tr =~= seq![
            ActionView::ResolveRemotePath { file_id: msg.audio->0.file_id },
            ActionView::DownloadTo {
                remote_path,
                local_path: input_name(msg.audio->0.file_unique_id),
            },
            ActionView::RunTranscoder {
                input_path: input_name(msg.audio->0.file_unique_id),
                output_path: output_name(msg.audio->0.file_unique_id),
            },
            ActionView::SendText { chat_id: msg.chat_id, text: failure_text() },
            ActionView::Finish,
        ]);
    }
}

} // verus!
