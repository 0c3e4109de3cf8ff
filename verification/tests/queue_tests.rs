use worker::durable::ListOptions;
use worker::queue::{
    BatchMessageBuilder, BatchSendMessage, MessageBuilder, QueueContentType,
    QueueRetryOptionsBuilder, QueueSendBatchOptions, QueueSendOptions, RawMessageBuilder,
    SendMessage,
};

#[test]
fn content_type_names() {
    assert_eq!(QueueContentType::Json.as_str(), "json");
    assert_eq!(QueueContentType::Text.as_str(), "text");
    assert_eq!(QueueContentType::V8.as_str(), "v8");
}

#[test]
fn plain_message_defaults_to_json_without_delay() {
    let m = SendMessage::new(7u32);
    assert_eq!(*m.message(), 7);
    assert_eq!(
        m.options(),
        Some(QueueSendOptions { content_type: Some(QueueContentType::Json), delay_seconds: None })
    );
}

#[test]
fn message_builder_keeps_delay_and_content_type() {
    let m = MessageBuilder::new(String::from("hello"))
        .delay_seconds(30)
        .content_type(QueueContentType::Text)
        .build();
    let (body, options) = m.into_parts();
    assert_eq!(body, "hello");
    assert_eq!(
        options,
        Some(QueueSendOptions { content_type: Some(QueueContentType::Text), delay_seconds: Some(30) })
    );
}

#[test]
fn message_builder_defaults() {
    let m = MessageBuilder::new(1u8).build();
    assert_eq!(
        m.options(),
        Some(QueueSendOptions { content_type: Some(QueueContentType::Json), delay_seconds: None })
    );
}

#[test]
fn raw_message_builder_uses_given_content_type() {
    let m = RawMessageBuilder::new(vec![1u8, 2, 3]).delay_seconds(5).build_with_content_type(QueueContentType::V8);
    assert_eq!(*m.message(), vec![1u8, 2, 3]);
    assert_eq!(
        m.options(),
        Some(QueueSendOptions { content_type: Some(QueueContentType::V8), delay_seconds: Some(5) })
    );
}

#[test]
fn retry_options_builder() {
    assert_eq!(QueueRetryOptionsBuilder::new().build().delay_seconds, None);
    assert_eq!(QueueRetryOptionsBuilder::new().with_delay_seconds(12).build().delay_seconds, Some(12));
}

#[test]
fn batch_builder_keeps_order_and_delay() {
    let batch = BatchMessageBuilder::new()
        .message(SendMessage::new(1u32))
        .messages(vec![SendMessage::new(2u32), SendMessage::new(3u32)])
        .delay_seconds(9)
        .build();
    let (body, options) = batch.into_parts();
    let values: Vec<u32> = body.iter().map(|m| *m.message()).collect();
    assert_eq!(values, vec![1, 2, 3]);
    assert_eq!(options, Some(QueueSendBatchOptions { delay_seconds: Some(9) }));
}

#[test]
fn batch_without_delay_has_no_options() {
    let batch = BatchMessageBuilder::new().message(SendMessage::new(1u32)).build();
    let (body, options) = batch.into_parts();
    assert_eq!(body.len(), 1);
    assert_eq!(options, None);
}

#[test]
fn batch_from_messages_has_no_options() {
    let batch = BatchSendMessage::from_messages(vec![SendMessage::new("a"), SendMessage::new("b")]);
    let (body, options) = batch.into_parts();
    assert_eq!(body.len(), 2);
    assert_eq!(*body[1].message(), "b");
    assert_eq!(options, None);
}

#[test]
fn list_options_builder() {
    let o = ListOptions::new().start("a").end("m").prefix("p").reverse(true).limit(10);
    assert_eq!(o.start, Some("a"));
    assert_eq!(o.end, Some("m"));
    assert_eq!(o.prefix, Some("p"));
    assert_eq!(o.reverse, Some(true));
    assert_eq!(o.limit, Some(10));
    let empty = ListOptions::new();
    assert!(empty.start.is_none() && empty.limit.is_none());
}
