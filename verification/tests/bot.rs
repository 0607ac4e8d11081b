use voicebot::config::{require_token, ConfigError};
use voicebot::handler::{Action, Event, Handler};
use voicebot::message::{AudioAttachment, IncomingMessage};
use voicebot::naming::{input_filename, output_filename};
use voicebot::transcode::{transcoder_command_args, transcoder_program_name};

fn audio_message(chat_id: i64, file_id: &str, unique_id: &str) -> IncomingMessage {
    IncomingMessage {
        chat_id,
        audio: Some(AudioAttachment {
            file_id: file_id.to_string(),
            file_unique_id: unique_id.to_string(),
        }),
    }
}

#[test]
fn no_audio_gets_exactly_one_ask_reply() {
    let mut h = Handler::new(IncomingMessage { chat_id: 42, audio: None });
    assert!(!h.is_done());
    let a = h.step(&Event::MessageArrived);
    assert_eq!(
        a,
        Action::SendText { chat_id: 42, text: "Please send me an audio file.".to_string() }
    );
    let a = h.step(&Event::TextSent);
    assert_eq!(a, Action::Finish);
    assert!(h.is_done());
}

#[test]
fn successful_conversion_runs_the_whole_pipeline() {
    let mut h = Handler::new(audio_message(7, "blob-1", "abc123"));
    let a = h.step(&Event::MessageArrived);
    assert_eq!(a, Action::ResolveRemotePath { file_id: "blob-1".to_string() });
    let a = h.step(&Event::RemotePathResolved { remote_path: "music/file_42.mp3".to_string() });
    assert_eq!(
        a,
        Action::DownloadTo {
            remote_path: "music/file_42.mp3".to_string(),
            local_path: "abc123.mp3".to_string(),
        }
    );
    let a = h.step(&Event::DownloadFinished);
    assert_eq!(
        a,
        Action::RunTranscoder {
            input_path: "abc123.mp3".to_string(),
            output_path: "abc123.ogg".to_string(),
        }
    );
    let a = h.step(&Event::TranscoderExited { success: true });
    assert_eq!(a, Action::SendVoice { chat_id: 7, path: "abc123.ogg".to_string() });
    let a = h.step(&Event::VoiceSent);
    assert_eq!(a, Action::RemoveFile { path: "abc123.mp3".to_string() });
    let a = h.step(&Event::FileRemoved);
    assert_eq!(a, Action::RemoveFile { path: "abc123.ogg".to_string() });
    let a = h.step(&Event::FileRemoved);
    assert_eq!(a, Action::Finish);
    assert!(h.is_done());
}

#[test]
fn failed_conversion_replies_and_leaves_files_alone() {
    let mut h = Handler::new(audio_message(9, "blob-2", "xyz"));
    let a = h.step(&Event::MessageArrived);
    assert_eq!(a, Action::ResolveRemotePath { file_id: "blob-2".to_string() });
    let a = h.step(&Event::RemotePathResolved { remote_path: "music/f.mp3".to_string() });
    assert_eq!(
        a,
        Action::DownloadTo {
            remote_path: "music/f.mp3".to_string(),
            local_path: "xyz.mp3".to_string(),
        }
    );
    let a = h.step(&Event::DownloadFinished);
    assert_eq!(
        a,
        Action::RunTranscoder {
            input_path: "xyz.mp3".to_string(),
            output_path: "xyz.ogg".to_string(),
        }
    );
    let a = h.step(&Event::TranscoderExited { success: false });
    assert_eq!(
        a,
        Action::SendText { chat_id: 9, text: "Failed to convert audio file.".to_string() }
    );
    let a = h.step(&Event::TextSent);
    assert_eq!(a, Action::Finish);
    assert!(h.is_done());
}

#[test]
fn filenames_derive_from_the_unique_id() {
    assert_eq!(input_filename("abc123"), "abc123.mp3");
    assert_eq!(output_filename("abc123"), "abc123.ogg");
    assert_eq!(input_filename(""), ".mp3");
    assert_eq!(output_filename(""), ".ogg");
}

#[test]
fn distinct_unique_ids_give_disjoint_filenames() {
    let names = [
        input_filename("abc123"),
        input_filename("abc124"),
        output_filename("abc123"),
        output_filename("abc124"),
    ];
    for i in 0..names.len() {
        for j in 0..names.len() {
            if i != j {
                assert_ne!(names[i], names[j]);
            }
        }
    }
}

#[test]
fn transcoder_command_follows_the_fixed_template() {
    assert_eq!(transcoder_program_name(), "ffmpeg");
    assert_eq!(
        transcoder_command_args("abc123.mp3", "abc123.ogg"),
        vec!["-i", "abc123.mp3", "-acodec", "libopus", "abc123.ogg", "-y"]
    );
}

#[test]
fn present_token_is_accepted() {
    let r = require_token(Some("example-token".to_string()));
    assert_eq!(r.ok(), Some("example-token".to_string()));
}

#[test]
fn missing_token_is_fatal() {
    let r = require_token(None);
    let e = match r {
        Ok(_) => panic!("a missing token must be rejected"),
        Err(e) => e,
    };
    assert!(matches!(e, ConfigError::MissingToken));
    assert_eq!(e.message(), "BOT_TOKEN not found in environment variables");
}

#[test]
fn out_of_protocol_events_are_rejected() {
    let mut h = Handler::new(audio_message(1, "blob-3", "uvw"));
    assert!(h.accepts_event(&Event::MessageArrived));
    assert!(!h.accepts_event(&Event::TextSent));
    assert!(!h.accepts_event(&Event::TranscoderExited { success: true }));
    let _ = h.step(&Event::MessageArrived);
    assert!(h.accepts_event(&Event::RemotePathResolved { remote_path: "p".to_string() }));
    assert!(!h.accepts_event(&Event::MessageArrived));

    let mut done = Handler::new(IncomingMessage { chat_id: 1, audio: None });
    let _ = done.step(&Event::MessageArrived);
    let _ = done.step(&Event::TextSent);
    assert!(done.is_done());
    assert!(!done.accepts_event(&Event::MessageArrived));
    assert!(!done.accepts_event(&Event::TextSent));
}
