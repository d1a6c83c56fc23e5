//! What the two peers say to each other.

use vstd::prelude::*;

verus! {

/// One message between the peers.
#[derive(Debug, Clone, PartialEq, Eq)]
pub enum Message {
    /// The sender is still there.
    Heartbeat,
    /// A line of text.
    Text(String),
    /// One encoded audio frame.
    Opus(Vec<u8>),
}

/// What a [`Message`] says.
pub enum MessageView {
    Heartbeat,
    Text(Seq<char>),
    Opus(Seq<u8>),
}

impl View for Message {
    type V = MessageView;

    open spec fn view(&self) -> MessageView {
        match self {
            Message::Heartbeat => MessageView::Heartbeat,
            Message::Text(text) => MessageView::Text(text@),
            Message::Opus(data) => MessageView::Opus(data@),
        }
    }
}

/// The number of bytes that a message adds to the traffic counters: audio
/// counts, everything else is free.
pub open spec fn counted_bytes(message: MessageView) -> nat {
    match message {
        MessageView::Opus(data) => data.len(),
        _ => 0,
    }
}

/// The message that carries the first `size` bytes of `encoded`.
pub open spec fn opus_view(encoded: Seq<u8>, size: int) -> MessageView {
    MessageView::Opus(encoded.take(size))
}

/// Makes the message that carries the first `size` bytes of `encoded`, the
/// output buffer of the audio encoder.
pub fn opus_message(encoded: &Vec<u8>, size: usize) -> (r: Message)
    requires
        size <= encoded@.len(),
    ensures
        r@ == opus_view(encoded@, size as int),
        r matches Message::Opus(data) && data@.len() == size && forall|i: int|
            0 <= i < size ==> #[trigger] data@[i] == encoded@[i],
{
    let mut data: Vec<u8> = Vec::new();
    let mut i: usize = 0;
    while i < size
        invariant
            i <= size <= encoded@.len(),
            data@ == encoded@.take(i as int),
        decreases size - i,
    {
        data.push(encoded[i]);
        assert(data@ =~= encoded@.take(i + 1));
        i = i + 1;
    }
    Message::Opus(data)
}

/// The view of a message holds what the message holds, all of it.
pub proof fn law_view_holds_the_whole_message(text: String, data: Vec<u8>)
    ensures
        Message::Heartbeat@ == MessageView::Heartbeat,
        Message::Text(text)@ == MessageView::Text(text@),
        Message::Opus(data)@ == MessageView::Opus(data@),
{
}

/// Every byte of an audio frame counts as one byte, and nothing else counts.
pub proof fn law_audio_alone_counts(data: Seq<u8>, text: Seq<char>)
    ensures
        counted_bytes(MessageView::Opus(data)) == data.len(),
        counted_bytes(MessageView::Text(text)) == 0,
        counted_bytes(MessageView::Heartbeat) == 0,
{
}

/// A frame is carried byte for byte, up to where the encoder stopped.
pub proof fn law_frame_is_carried_byte_for_byte(encoded: Seq<u8>, size: int)
    requires
        0 <= size <= encoded.len(),
    ensures
        opus_view(encoded, size) matches MessageView::Opus(data) && data.len() == size && forall|
            i: int,
        |
            0 <= i < size ==> #[trigger] data[i] == encoded[i],
{
}

}
