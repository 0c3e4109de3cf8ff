//! Messages and options sent to a queue.

use vstd::prelude::*;

verus! {

/// How a queue message body is encoded.
#[derive(Debug, Clone, Copy, PartialEq, Eq, Structural)]
pub enum QueueContentType {
    /// A JSON-serializable object; can be previewed from the dashboard.
    Json,
    /// A string; can be previewed with the List messages feature.
    Text,
    /// An object supported by structured clone but not JSON; shown as Base64.
    V8,
}

impl QueueContentType {
    pub open spec fn name(self) -> Seq<char> {
        match self {
            QueueContentType::Json => "json"@,
            QueueContentType::Text => "text"@,
            QueueContentType::V8 => "v8"@,
        }
    }

    /// The name the queue expects for the content type: `json`, `text` or `v8`.
    pub fn as_str(self) -> (s: &'static str)
        ensures
            s@ == self.name(),
    {
        match self {
            QueueContentType::Json => "json",
            QueueContentType::Text => "text",
            QueueContentType::V8 => "v8",
        }
    }
}

/// The options sent with one message.
#[derive(Debug, Clone, Copy, PartialEq, Eq, Structural)]
pub struct QueueSendOptions {
    pub content_type: Option<QueueContentType>,
    pub delay_seconds: Option<u32>,
}

/// A message ready to be sent, with its options.
pub struct SendMessage<T> {
    message: T,
    options: Option<QueueSendOptions>,
}

impl<T> SendMessage<T> {
    pub closed spec fn spec_message(self) -> T {
        self.message
    }

    pub closed spec fn spec_options(self) -> Option<QueueSendOptions> {
        self.options
    }

    /// A message with the default options: JSON content and no delay.
    pub fn new(message: T) -> (m: Self)
        ensures
            m.spec_message() == message,
            m.spec_options() == Some(
                QueueSendOptions { content_type: Some(QueueContentType::Json), delay_seconds: None },
            ),
    {
        SendMessage {
            message,
            options: Some(
                QueueSendOptions { content_type: Some(QueueContentType::Json), delay_seconds: None },
            ),
        }
    }

    /// The body of the message.
    pub fn message(&self) -> (m: &T)
        ensures
            *m == self.spec_message(),
    {
        &self.message
    }

    /// The options sent with the message.
    pub fn options(&self) -> (o: Option<QueueSendOptions>)
        ensures
            o == self.spec_options(),
    {
        self.options
    }

    /// The body and options, taken apart.
    pub fn into_parts(self) -> (r: (T, Option<QueueSendOptions>))
        ensures
            r.0 == self.spec_message(),
            r.1 == self.spec_options(),
    {
        (self.message, self.options)
    }
}

/// Builds a message with options.
pub struct MessageBuilder<T> {
    message: T,
    delay_seconds: Option<u32>,
    content_type: QueueContentType,
}

impl<T> MessageBuilder<T> {
    pub closed spec fn spec_message(self) -> T {
        self.message
    }

    pub closed spec fn spec_delay_seconds(self) -> Option<u32> {
        self.delay_seconds
    }

    pub closed spec fn spec_content_type(self) -> QueueContentType {
        self.content_type
    }

    /// Creates a new message builder; the content type starts as JSON, with no delay.
    pub fn new(message: T) -> (b: Self)
        ensures
            b.spec_message() == message,
            b.spec_delay_seconds() is None,
            b.spec_content_type() == QueueContentType::Json,
    {
        MessageBuilder { message, delay_seconds: None, content_type: QueueContentType::Json }
    }

    /// The number of seconds to delay a message for within the queue, before it
    /// can be delivered to a consumer.
    pub fn delay_seconds(self, delay_seconds: u32) -> (b: Self)
        ensures
            b.spec_message() == self.spec_message(),
            b.spec_delay_seconds() == Some(delay_seconds),
            b.spec_content_type() == self.spec_content_type(),
    {
        MessageBuilder { delay_seconds: Some(delay_seconds), ..self }
    }

    /// The content type of the message.
    pub fn content_type(self, content_type: QueueContentType) -> (b: Self)
        ensures
            b.spec_message() == self.spec_message(),
            b.spec_delay_seconds() == self.spec_delay_seconds(),
            b.spec_content_type() == content_type,
    {
        MessageBuilder { content_type, ..self }
    }

    /// Build the message.
    pub fn build(self) -> (m: SendMessage<T>)
        ensures
            m.spec_message() == self.spec_message(),
            m.spec_options() == Some(
                QueueSendOptions {
                    content_type: Some(self.spec_content_type()),
                    delay_seconds: self.spec_delay_seconds(),
                },
            ),
    {
        SendMessage {
            message: self.message,
            options: Some(
                QueueSendOptions {
                    content_type: Some(self.content_type),
                    delay_seconds: self.delay_seconds,
                },
            ),
        }
    }
}

/// Builds a message whose body is already a JavaScript value.
pub struct RawMessageBuilder<T> {
    message: T,
    delay_seconds: Option<u32>,
}

impl<T> RawMessageBuilder<T> {
    pub closed spec fn spec_message(self) -> T {
        self.message
    }

    pub closed spec fn spec_delay_seconds(self) -> Option<u32> {
        self.delay_seconds
    }

    /// Creates a new raw message builder, with no delay.
    pub fn new(message: T) -> (b: Self)
        ensures
            b.spec_message() == message,
            b.spec_delay_seconds() is None,
    {
        RawMessageBuilder { message, delay_seconds: None }
    }

    /// The number of seconds to delay the message.
    pub fn delay_seconds(self, delay_seconds: u32) -> (b: Self)
        ensures
            b.spec_message() == self.spec_message(),
            b.spec_delay_seconds() == Some(delay_seconds),
    {
        RawMessageBuilder { delay_seconds: Some(delay_seconds), ..self }
    }

    /// Build the message with a content type.
    pub fn build_with_content_type(self, content_type: QueueContentType) -> (m: SendMessage<T>)
        ensures
            m.spec_message() == self.spec_message(),
            m.spec_options() == Some(
                QueueSendOptions {
                    content_type: Some(content_type),
                    delay_seconds: self.spec_delay_seconds(),
                },
            ),
    {
        SendMessage {
            message: self.message,
            options: Some(
                QueueSendOptions { content_type: Some(content_type), delay_seconds: self.delay_seconds },
            ),
        }
    }
}

/// Optional configuration when marking a message or a batch for retry.
#[derive(Debug, Clone, Copy, PartialEq, Eq, Structural)]
pub struct QueueRetryOptions {
    pub delay_seconds: Option<u32>,
}

/// Builds retry options.
#[derive(Debug, Clone, Copy, PartialEq, Eq, Structural)]
pub struct QueueRetryOptionsBuilder {
    delay_seconds: Option<u32>,
}

impl QueueRetryOptionsBuilder {
    pub closed spec fn spec_delay_seconds(self) -> Option<u32> {
        self.delay_seconds
    }

    /// Creates a new retry options builder, with no delay.
    pub fn new() -> (b: Self)
        ensures
            b.spec_delay_seconds() is None,
    {
        QueueRetryOptionsBuilder { delay_seconds: None }
    }

    /// The number of seconds to delay the message before it is delivered again.
    pub fn with_delay_seconds(self, delay_seconds: u32) -> (b: Self)
        ensures
            b.spec_delay_seconds() == Some(delay_seconds),
    {
        QueueRetryOptionsBuilder { delay_seconds: Some(delay_seconds) }
    }

    /// Build the retry options.
    pub fn build(self) -> (o: QueueRetryOptions)
        ensures
            o.delay_seconds == self.spec_delay_seconds(),
    {
        QueueRetryOptions { delay_seconds: self.delay_seconds }
    }
}

/// The options sent with a batch.
#[derive(Debug, Clone, Copy, PartialEq, Eq, Structural)]
pub struct QueueSendBatchOptions {
    pub delay_seconds: Option<u32>,
}

/// A batch of messages ready to be sent.
pub struct BatchSendMessage<T> {
    body: Vec<SendMessage<T>>,
    options: Option<QueueSendBatchOptions>,
}

impl<T> BatchSendMessage<T> {
    pub closed spec fn spec_body(self) -> Seq<SendMessage<T>> {
        self.body@
    }

    pub closed spec fn spec_options(self) -> Option<QueueSendBatchOptions> {
        self.options
    }

    /// A batch of the messages, without batch options.
    pub fn from_messages(body: Vec<SendMessage<T>>) -> (b: Self)
        ensures
            b.spec_body() == body@,
            b.spec_options() is None,
    {
        BatchSendMessage { body, options: None }
    }

    /// The messages and the batch options, taken apart.
    pub fn into_parts(self) -> (r: (Vec<SendMessage<T>>, Option<QueueSendBatchOptions>))
        ensures
            r.0@ == self.spec_body(),
            r.1 == self.spec_options(),
    {
        (self.body, self.options)
    }
}

/// Builds a batch of messages.
pub struct BatchMessageBuilder<T> {
    messages: Vec<SendMessage<T>>,
    delay_seconds: Option<u32>,
}

impl<T> BatchMessageBuilder<T> {
    pub closed spec fn spec_messages(self) -> Seq<SendMessage<T>> {
        self.messages@
    }

    pub closed spec fn spec_delay_seconds(self) -> Option<u32> {
        self.delay_seconds
    }

    /// Creates a new, empty batch builder.
    pub fn new() -> (b: Self)
        ensures
            b.spec_messages() == Seq::<SendMessage<T>>::empty(),
            b.spec_delay_seconds() is None,
    {
        BatchMessageBuilder { messages: Vec::new(), delay_seconds: None }
    }

    /// Adds a message to the batch.
    pub fn message(self, message: SendMessage<T>) -> (b: Self)
        ensures
            b.spec_messages() == self.spec_messages().push(message),
            b.spec_delay_seconds() == self.spec_delay_seconds(),
    {
        let mut b = self;
        b.messages.push(message);
        b
    }

    /// Adds messages to the batch, in order.
    pub fn messages(self, messages: Vec<SendMessage<T>>) -> (b: Self)
        ensures
            b.spec_messages() == self.spec_messages() + messages@,
            b.spec_delay_seconds() == self.spec_delay_seconds(),
    {
        let mut b = self;
        let mut more = messages;
        b.messages.append(&mut more);
        b
    }

    /// The number of seconds to delay the batch.
    pub fn delay_seconds(self, delay_seconds: u32) -> (b: Self)
        ensures
            b.spec_messages() == self.spec_messages(),
            b.spec_delay_seconds() == Some(delay_seconds),
    {
        BatchMessageBuilder { delay_seconds: Some(delay_seconds), ..self }
    }

    /// Build the batch; batch options are sent only when a delay was set.
    pub fn build(self) -> (m: BatchSendMessage<T>)
        ensures
            m.spec_body() == self.spec_messages(),
            m.spec_options() == match self.spec_delay_seconds() {
                Some(d) => Some(QueueSendBatchOptions { delay_seconds: Some(d) }),
                None => None,
            },
    {
        BatchSendMessage {
            body: self.messages,
            options: match self.delay_seconds {
                Some(d) => Some(QueueSendBatchOptions { delay_seconds: Some(d) }),
                None => None,
            },
        }
    }
}

} // verus!
