//! Deepgram streaming speech-to-text over a WebSocket: the request URL and credential,
//! the decisions of the streaming loop, what each result message contributes, and the
//! final transcript. The socket and the JSON decoding belong to the application.
//!
//! Protocol summary: connect with query parameters describing the audio; send raw
//! little-endian PCM as binary frames; receive `Results` messages with interim and final
//! transcripts; when the audio ends send `{"type":"CloseStream"}` and drain results until
//! Deepgram closes the socket (a `Metadata` message marks the end).

use vstd::prelude::*;

use super::{StreamParams, TranscriptEvent, TranscriptEventView};
use crate::text::{
    collapse_whitespace, concat_str, decimal, join, join_strings, push_decimal, string_views, tidy, trimmed,
    is_blank, words,
};

verus! {

/// The message that asks Deepgram to finish the stream.
pub const CLOSE_STREAM: &'static str = "{\"type\":\"CloseStream\"}";

/// The streaming URL for audio with these parameters.
pub open spec fn listen_url_text(sample_rate: u32, language: Seq<char>) -> Seq<char> {
    "wss://api.deepgram.com/v1/listen?encoding=linear16&sample_rate="@ + decimal(sample_rate as nat)
        + "&channels=1&language="@ + language
        + "&model=nova-2&interim_results=true&punctuate=true&smart_format=true&endpointing=300"@
}

/// Builds the streaming URL: linear16 audio at the capture's rate, mono, in the
/// configured language, with interim results, punctuation, smart formatting and 300 ms
/// endpointing.
pub fn listen_url(params: &StreamParams) -> (r: String)
    ensures
        r@ == listen_url_text(params.sample_rate, params.language@),
{
    let mut u = "wss://api.deepgram.com/v1/listen?encoding=linear16&sample_rate=".to_owned();
    push_decimal(&mut u, params.sample_rate as u64);
    u.append("&channels=1&language=");
    u.append(params.language.as_str());
    u.append("&model=nova-2&interim_results=true&punctuate=true&smart_format=true&endpointing=300");
    u
}

/// The `Authorization` header value: `"Token "` followed by the key.
pub fn authorization(api_key: &str) -> (r: String)
    ensures
        r@ == "Token "@ + api_key@,
{
    concat_str("Token ", api_key)
}

/// The fields of a Deepgram response that matter: its `type`, its `is_final` flag, and
/// the transcripts of the first channel's alternatives (`None` without a channel).
#[derive(Debug, Clone)]
pub struct DeepgramResponse {
    pub kind: Option<String>,
    pub is_final: bool,
    pub alternatives: Option<Vec<String>>,
}

/// The abstract content of a [`DeepgramResponse`].
pub struct DeepgramResponseView {
    pub kind: Option<Seq<char>>,
    pub is_final: bool,
    pub alternatives: Option<Seq<Seq<char>>>,
}

impl View for DeepgramResponse {
    type V = DeepgramResponseView;

    open spec fn view(&self) -> DeepgramResponseView {
        DeepgramResponseView {
            kind: match self.kind {
                Some(k) => Some(k@),
                None => None,
            },
            is_final: self.is_final,
            alternatives: match self.alternatives {
                Some(a) => Some(string_views(a@)),
                None => None,
            },
        }
    }
}

/// The transcript a response carries: its first alternative, or empty.
pub open spec fn response_transcript(r: DeepgramResponseView) -> Seq<char> {
    match r.alternatives {
        Some(a) => if a.len() > 0 {
            a[0]
        } else {
            Seq::empty()
        },
        None => Seq::empty(),
    }
}

/// What one message means: whether it ends the stream, the transcript event to report,
/// and the final segments after it. Messages that are not JSON responses, and blank
/// transcripts, mean nothing.
pub open spec fn message_effect(msg: Option<DeepgramResponseView>, finals: Seq<Seq<char>>) -> (bool, Option<TranscriptEventView>, Seq<Seq<char>>) {
    match msg {
        None => (false, None, finals),
        Some(r) => if r.kind == Some("Metadata"@) {
            (true, None, finals)
        } else {
            let t = response_transcript(r);
            if trimmed(t).len() == 0 {
                (false, None, finals)
            } else if r.is_final {
                (false, Some(TranscriptEventView::Final(t)), finals.push(t))
            } else {
                (false, Some(TranscriptEventView::Interim(t)), finals)
            }
        },
    }
}

/// A message that carries a final segment: a decoded result that is not the closing
/// metadata, is marked final, and whose transcript is not blank.
pub open spec fn carries_final_segment(msg: Option<DeepgramResponseView>) -> bool {
    msg matches Some(r) && r.kind != Some("Metadata"@) && r.is_final && trimmed(response_transcript(r)).len() > 0
}

/// The final segments a sequence of messages carries, in order.
pub open spec fn final_segments(msgs: Seq<Option<DeepgramResponseView>>) -> Seq<Seq<char>>
    decreases msgs.len(),
{
    if msgs.len() == 0 {
        seq![]
    } else {
        final_segments(msgs.drop_last()) + if carries_final_segment(msgs.last()) {
            seq![response_transcript(msgs.last()->0)]
        } else {
            seq![]
        }
    }
}

/// The final segments kept after handling a sequence of messages one after another.
pub open spec fn finals_after(msgs: Seq<Option<DeepgramResponseView>>, finals: Seq<Seq<char>>) -> Seq<Seq<char>>
    decreases msgs.len(),
{
    if msgs.len() == 0 {
        finals
    } else {
        message_effect(msgs.last(), finals_after(msgs.drop_last(), finals)).2
    }
}

/// Handling a message never loses a segment: the segments kept before come first and
/// unchanged, and the new final transcript, if the message carries one, is appended
/// after them; any other message leaves them as they were.
pub proof fn lemma_message_keeps_segments(msg: Option<DeepgramResponseView>, finals: Seq<Seq<char>>)
    ensures
        carries_final_segment(msg) ==> message_effect(msg, finals).2 == finals.push(response_transcript(msg->0)),
        !carries_final_segment(msg) ==> message_effect(msg, finals).2 == finals,
        message_effect(msg, finals).1 matches Some(TranscriptEventView::Final(t)) ==> carries_final_segment(msg)
            && t == response_transcript(msg->0),
{
}

/// Over any sequence of messages, the segments kept are exactly those held before,
/// followed by the final transcripts the messages carry, in the order they came.
pub proof fn lemma_finals_are_the_final_segments(msgs: Seq<Option<DeepgramResponseView>>, finals: Seq<Seq<char>>)
    ensures
        finals_after(msgs, finals) == finals + final_segments(msgs),
    decreases msgs.len(),
{
    if msgs.len() > 0 {
        lemma_finals_are_the_final_segments(msgs.drop_last(), finals);
        lemma_message_keeps_segments(msgs.last(), finals_after(msgs.drop_last(), finals));
        assert(finals + final_segments(msgs) =~= (finals + final_segments(msgs.drop_last())) + if carries_final_segment(
            msgs.last(),
        ) {
            seq![response_transcript(msgs.last()->0)]
        } else {
            seq![]
        });
    }
}

/// The outcome of one message.
#[derive(Debug)]
pub struct MessageOutcome {
    /// The stream has ended.
    pub done: bool,
    /// The transcript update to report.
    pub event: Option<TranscriptEvent>,
}

/// Handles one decoded message (`None` when the text did not decode): a `Metadata`
/// message ends the stream; a non-blank final transcript is kept in `finals` and reported
/// as final; a non-blank interim transcript is reported as interim.
pub fn handle_message(msg: Option<DeepgramResponse>, finals: &mut Vec<String>) -> (r: MessageOutcome)
    ensures
        ({
            let (done, ev, fs) = message_effect(
                match msg {
                    Some(m) => Some(m@),
                    None => None,
                },
                string_views(old(finals)@),
            );
            &&& r.done == done
            &&& match r.event {
                Some(e) => ev == Some(e@),
                None => ev is None,
            }
            &&& string_views(final(finals)@) == fs
        }),
{
    let r = match msg {
        None => return MessageOutcome { done: false, event: None },
        Some(r) => r,
    };
    let is_metadata = match &r.kind {
        Some(k) => crate::text::same_text(k.as_str(), "Metadata"),
        None => false,
    };
    if is_metadata {
        return MessageOutcome { done: true, event: None };
    }
    let t = match &r.alternatives {
        Some(a) => if a.len() > 0 {
            a[0].clone()
        } else {
            String::new()
        },
        None => String::new(),
    };
    if is_blank(t.as_str()) {
        return MessageOutcome { done: false, event: None };
    }
    if r.is_final {
        let ghost before = finals@;
        finals.push(t.clone());
        assert(string_views(finals@) =~= string_views(before).push(t@));
        MessageOutcome { done: false, event: Some(TranscriptEvent::Final(t)) }
    } else {
        MessageOutcome { done: false, event: Some(TranscriptEvent::Interim(t)) }
    }
}

/// The final transcript: the final segments joined with spaces, with every run of
/// whitespace collapsed to one space and none at either end.
pub open spec fn final_transcript_text(finals: Seq<Seq<char>>) -> Seq<char> {
    join(words(join(finals, " "@)), seq![' '])
}

/// Builds the final transcript from the final segments.
pub fn final_transcript(finals: &Vec<String>) -> (r: String)
    ensures
        r@ == final_transcript_text(string_views(finals@)),
        tidy(r@),
{
    let joined = join_strings(finals, " ");
    collapse_whitespace(joined.as_str())
}

/// The streaming loop's memory: whether the audio input has ended and whether the close
/// message was sent.
#[derive(Debug, Clone, Copy)]
pub struct StreamState {
    pub input_done: bool,
    pub close_sent: bool,
}

/// What to send after the audio channel yields.
#[derive(Debug)]
pub enum FrameAction {
    /// Send these bytes as a binary frame.
    SendAudio(Vec<u8>),
    /// Send [`CLOSE_STREAM`] as a text frame.
    SendClose,
    /// Send nothing.
    Nothing,
}

impl StreamState {
    /// A stream whose audio is still flowing.
    pub fn new() -> (r: StreamState)
        ensures
            !r.input_done && !r.close_sent,
    {
        StreamState { input_done: false, close_sent: false }
    }

    /// Whether the audio channel should still be polled.
    pub fn wants_audio(&self) -> (r: bool)
        ensures
            r == !self.input_done,
    {
        !self.input_done
    }

    /// Handles what the audio channel yielded: a frame is sent as linear16 bytes; the end
    /// of the input asks Deepgram, once, to close the stream.
    pub fn on_audio(&mut self, frame: Option<Vec<i16>>) -> (a: FrameAction)
        ensures
            match frame {
                Some(f) => *final(self) == *old(self) && (a matches FrameAction::SendAudio(b)
                    && b@ == super::pcm16_le(f@)),
                None => final(self).input_done && final(self).close_sent && (if old(self).close_sent {
                    a is Nothing
                } else {
                    a is SendClose
                }),
            },
    {
        match frame {
            Some(f) => FrameAction::SendAudio(super::frame_to_le_bytes(f.as_slice())),
            None => {
                self.input_done = true;
                if !self.close_sent {
                    self.close_sent = true;
                    FrameAction::SendClose
                } else {
                    FrameAction::Nothing
                }
            },
        }
    }

    /// A send error ends the input (the stream is then drained).
    pub fn on_send_error(&mut self)
        ensures
            final(self).input_done && final(self).close_sent == old(self).close_sent,
    {
        self.input_done = true;
    }
}

} // verus!
