use vstd::prelude::*;

verus! {

/// Declares `bytes::Bytes`, the buffer that the byte conversion yields and
/// the body hands to the transport. Its contents are never read here: a
/// value is only carried from the conversion to the body frame.
#[verifier::external_type_specification]
#[verifier::external_body]
pub struct ExBytes(bytes::Bytes);

/// The object could not be flattened into bytes.
#[derive(Debug, Clone, PartialEq, Eq)]
pub struct ConversionError {
    pub reason: String,
}

/// The one message that travels from the producer to the response body.
pub enum StreamMessage {
    Payload(bytes::Bytes),
    Failure(ConversionError),
}

/// The message for the outcome of the byte conversion.
pub open spec fn message_of(converted: Result<bytes::Bytes, ConversionError>) -> StreamMessage {
    match converted {
        Ok(b) => StreamMessage::Payload(b),
        Err(e) => StreamMessage::Failure(e),
    }
}

/// Builds the producer's one message from the outcome of the byte
/// conversion: the bytes on success, the failure otherwise.
pub fn produce(converted: Result<bytes::Bytes, ConversionError>) -> (r: StreamMessage)
    ensures
        r == message_of(converted),
{
    match converted {
        Ok(b) => StreamMessage::Payload(b),
        Err(e) => StreamMessage::Failure(e),
    }
}

/// How the producer's one send ended.
#[derive(Debug, Clone, Copy, PartialEq, Eq, Structural)]
pub enum SendOutcome {
    /// The message is in the channel.
    Delivered,
    /// The body was dropped first (the client went away); the message is
    /// discarded.
    ReceiverGone,
}

/// What the producer does after its send.
#[derive(Debug, Clone, Copy, PartialEq, Eq, Structural)]
pub enum ProducerStep {
    /// End the task and release what it holds.
    Finish,
}

/// The producer's decision after its one send, whatever its outcome: it
/// ends. A send that found the body gone is dropped on purpose, never
/// retried and never reported.
pub fn settle_send(outcome: SendOutcome) -> (r: ProducerStep)
    ensures
        r == ProducerStep::Finish,
{
    match outcome {
        SendOutcome::Delivered => ProducerStep::Finish,
        SendOutcome::ReceiverGone => ProducerStep::Finish,
    }
}

/// One pull of the response body.
pub enum BodyFrame {
    /// A chunk of the object.
    Data(bytes::Bytes),
    /// The stream breaks off: the status is already sent, so the failure can
    /// only cut the body short.
    Abort(ConversionError),
    /// The body is complete.
    End,
}

/// The frame that a received message, or a closed channel (`None`), gives.
pub open spec fn frame_of(received: Option<StreamMessage>) -> BodyFrame {
    match received {
        Some(StreamMessage::Payload(b)) => BodyFrame::Data(b),
        Some(StreamMessage::Failure(e)) => BodyFrame::Abort(e),
        None => BodyFrame::End,
    }
}

/// The consumer side of the hand-off: the lazy body that the transport
/// pulls. It takes at most one message from the channel; every pull after
/// that ends the body.
pub struct BodyReader {
    taken: bool,
}

impl BodyReader {
    /// The reader has already taken its message, or seen the channel closed.
    pub closed spec fn spec_taken(&self) -> bool {
        self.taken
    }

    pub fn new() -> (r: BodyReader)
        ensures
            !r.spec_taken(),
    {
        BodyReader { taken: false }
    }

    /// The next pull needs a receive on the channel.
    pub fn wants_message(&self) -> (r: bool)
        ensures
            r == !self.spec_taken(),
    {
        !self.taken
    }

    /// Turns the result of the one receive into a frame: the object's bytes,
    /// a break-off, or the end when the channel closed with no message.
    pub fn accept(&mut self, received: Option<StreamMessage>) -> (r: BodyFrame)
        requires
            !old(self).spec_taken(),
        ensures
            final(self).spec_taken(),
            r == frame_of(received),
    {
        self.taken = true;
        match received {
            Some(StreamMessage::Payload(b)) => BodyFrame::Data(b),
            Some(StreamMessage::Failure(e)) => BodyFrame::Abort(e),
            None => BodyFrame::End,
        }
    }

    /// A pull after the message was taken: the body is over.
    pub fn finish(&self) -> (r: BodyFrame)
        requires
            self.spec_taken(),
        ensures
            r == BodyFrame::End,
    {
        BodyFrame::End
    }
}

} // verus!
