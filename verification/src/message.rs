//! The inbound data the handler works from: one conversation event, reduced
//! to its chat identifier and, when present, its audio attachment.

use vstd::prelude::*;

verus! {

/// An audio attachment as the bot protocol describes it: `file_id` names the
/// remotely stored blob for download requests, `file_unique_id` is a stable
/// identifier of the blob's content, used to derive local filenames.
pub struct AudioAttachment {
    pub file_id: String,
    pub file_unique_id: String,
}

/// Mathematical image of an [`AudioAttachment`].
pub struct AudioAttachmentView {
    pub file_id: Seq<char>,
    pub file_unique_id: Seq<char>,
}

impl View for AudioAttachment {
    type V = AudioAttachmentView;

    open spec fn view(&self) -> AudioAttachmentView {
        AudioAttachmentView { file_id: self.file_id@, file_unique_id: self.file_unique_id@ }
    }
}

/// One inbound message, as far as the handler cares: where to reply, and
/// whether an audio attachment came with it.
pub struct IncomingMessage {
    pub chat_id: i64,
    pub audio: Option<AudioAttachment>,
}

/// Mathematical image of an [`IncomingMessage`].
pub struct IncomingMessageView {
    pub chat_id: int,
    pub audio: Option<AudioAttachmentView>,
}

impl View for IncomingMessage {
    type V = IncomingMessageView;

    open spec fn view(&self) -> IncomingMessageView {
        IncomingMessageView {
            chat_id: self.chat_id as int,
            audio: match self.audio {
                Some(a) => Some(a@),
                None => None,
            },
        }
    }
}

} // verus!
