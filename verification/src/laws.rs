//! What holds of the library as a whole.

use crate::encode::{
    encode_content, encode_item, encode_message, encode_request, encode_source, object2, object3,
    plain_text,
};
use crate::error::{lemma_keys_differ, Fault, Field};
use crate::json::{member, JsonValue};
use crate::models::{
    image_item, is_role, text_item, AnthropicRequestView, AnthropicResponseView, ContentDataView,
    ContentItemView, ImageSourceView, MessageParamView,
};
use crate::shape::{
    decode_body, decode_content, decode_error, decode_item, decode_items,
    decode_message, decode_messages, decode_request, decode_response, decode_source,
    decode_success, invalid, is_success, lemma_decode_all_step,
};
use vstd::prelude::*;

verus! {

/// What an object of two members of different names gives to every name.
pub proof fn lemma_object2_field(a: Field, x: JsonValue, b: Field, y: JsonValue, c: Field)
    requires
        a != b,
    ensures
        object2(a, x, b, y).field(c.key()) == (if c == a {
            Some(x)
        } else if c == b {
            Some(y)
        } else {
            None
        }),
{
    let entries = seq![(a.key(), x), (b.key(), y)];
    lemma_keys_differ(a, b);
    if c != a {
        lemma_keys_differ(c, a);
    }
    if c != b {
        lemma_keys_differ(c, b);
    }
    reveal_with_fuel(member, 3);
    assert(entries.drop_last() =~= seq![(a.key(), x)]);
    assert(entries.drop_last().drop_last() =~= Seq::empty());
}

/// What an object of three members of different names gives to every name.
pub proof fn lemma_object3_field(
    a: Field,
    x: JsonValue,
    b: Field,
    y: JsonValue,
    c: Field,
    z: JsonValue,
    d: Field,
)
    requires
        a != b,
        a != c,
        b != c,
    ensures
        object3(a, x, b, y, c, z).field(d.key()) == (if d == a {
            Some(x)
        } else if d == b {
            Some(y)
        } else if d == c {
            Some(z)
        } else {
            None
        }),
{
    let entries = seq![(a.key(), x), (b.key(), y), (c.key(), z)];
    lemma_keys_differ(a, b);
    lemma_keys_differ(a, c);
    lemma_keys_differ(b, c);
    if d != a {
        lemma_keys_differ(d, a);
    }
    if d != b {
        lemma_keys_differ(d, b);
    }
    if d != c {
        lemma_keys_differ(d, c);
    }
    reveal_with_fuel(member, 4);
    assert(entries.drop_last() =~= seq![(a.key(), x), (b.key(), y)]);
    assert(entries.drop_last().drop_last() =~= seq![(a.key(), x)]);
    assert(entries.drop_last().drop_last().drop_last() =~= Seq::empty());
}

/// An image source that says `"base64"` is read back from its document.
pub proof fn lemma_source_round_trip(source: ImageSourceView)
    requires
        source.source_type == "base64"@,
    ensures
        decode_source(encode_source(source)) == Ok::<ImageSourceView, Fault>(source),
{
    let x = JsonValue::Text(source.source_type);
    let y = JsonValue::Text(source.media_type);
    let z = JsonValue::Text(source.data);
    lemma_object3_field(Field::Type, x, Field::MediaType, y, Field::Data, z, Field::Type);
    lemma_object3_field(Field::Type, x, Field::MediaType, y, Field::Data, z, Field::MediaType);
    lemma_object3_field(Field::Type, x, Field::MediaType, y, Field::Data, z, Field::Data);
}

/// A valid block is read back from its document.
pub proof fn lemma_item_round_trip(item: ContentItemView)
    requires
        item.valid(),
    ensures
        decode_item(encode_item(item)) == Ok::<ContentItemView, Fault>(item),
{
    let x = JsonValue::Text(item.item_type);
    match item.data {
        ContentDataView::Text { text } => {
            let y = JsonValue::Text(text);
            lemma_object2_field(Field::Type, x, Field::Text, y, Field::Type);
            lemma_object2_field(Field::Type, x, Field::Text, y, Field::Text);
            lemma_object2_field(Field::Type, x, Field::Text, y, Field::Source);
        },
        ContentDataView::Image { source } => {
            let y = encode_source(source);
            lemma_object2_field(Field::Type, x, Field::Source, y, Field::Type);
            lemma_object2_field(Field::Type, x, Field::Source, y, Field::Text);
            lemma_object2_field(Field::Type, x, Field::Source, y, Field::Source);
            lemma_source_round_trip(source);
            reveal_strlit("text");
            reveal_strlit("image");
            assert("image"@ != "text"@) by {
                assert("image"@.len() != "text"@.len());
            }
        },
    }
}

/// Valid blocks are read back, in order, from their documents.
pub proof fn lemma_items_round_trip(content: Seq<ContentItemView>)
    requires
        forall|i: int| 0 <= i < content.len() ==> (#[trigger] content[i]).valid(),
    ensures
        decode_items(content.map_values(|item: ContentItemView| encode_item(item))) == Ok::<
            Seq<ContentItemView>,
            Fault,
        >(content),
    decreases content.len(),
{
    let docs = content.map_values(|item: ContentItemView| encode_item(item));
    if content.len() == 0 {
        assert(content =~= Seq::empty());
    } else {
        let front = content.drop_last();
        lemma_items_round_trip(front);
        assert(docs.drop_last() =~= front.map_values(|item: ContentItemView| encode_item(item)));
        lemma_item_round_trip(content.last());
        assert(front.push(content.last()) =~= content);
    }
}

/// A valid message is read back from its document.
pub proof fn lemma_message_round_trip(message: MessageParamView)
    requires
        message.valid(),
    ensures
        decode_message(encode_message(message)) == Ok::<MessageParamView, Fault>(message),
{
    let x = JsonValue::Text(message.role);
    let y = encode_content(message.content);
    lemma_object2_field(Field::Role, x, Field::Content, y, Field::Role);
    lemma_object2_field(Field::Role, x, Field::Content, y, Field::Content);
    match plain_text(message.content) {
        Some(text) => {
            assert(message.content =~= seq![text_item(text)]);
        },
        None => {
            lemma_items_round_trip(message.content);
        },
    }
    assert(decode_content(y) == Ok::<Seq<ContentItemView>, Fault>(message.content));
}

/// Valid messages are read back, in order, from their documents.
pub proof fn lemma_messages_round_trip(messages: Seq<MessageParamView>)
    requires
        forall|i: int| 0 <= i < messages.len() ==> (#[trigger] messages[i]).valid(),
    ensures
        decode_messages(messages.map_values(|message: MessageParamView| encode_message(message)))
            == Ok::<Seq<MessageParamView>, Fault>(messages),
    decreases messages.len(),
{
    let docs = messages.map_values(|message: MessageParamView| encode_message(message));
    if messages.len() == 0 {
        assert(messages =~= Seq::empty());
    } else {
        let front = messages.drop_last();
        lemma_messages_round_trip(front);
        assert(docs.drop_last() =~= front.map_values(
            |message: MessageParamView| encode_message(message),
        ));
        lemma_message_round_trip(messages.last());
        assert(front.push(messages.last()) =~= messages);
    }
}

/// Writing a request as a document and reading the document gives the
/// request back: for every valid request, with plain text, with images, with
/// both.
pub proof fn lemma_request_round_trip(request: AnthropicRequestView)
    requires
        request.valid(),
    ensures
        decode_request(encode_request(request)) == Ok::<AnthropicRequestView, Fault>(request),
{
    let x = JsonValue::Text(request.model);
    let y = JsonValue::Unsigned(request.max_tokens as u64);
    let z = JsonValue::Array(
        request.messages.map_values(|message: MessageParamView| encode_message(message)),
    );
    lemma_object3_field(Field::Model, x, Field::MaxTokens, y, Field::Messages, z, Field::Model);
    lemma_object3_field(
        Field::Model,
        x,
        Field::MaxTokens,
        y,
        Field::Messages,
        z,
        Field::MaxTokens,
    );
    lemma_object3_field(Field::Model, x, Field::MaxTokens, y, Field::Messages, z, Field::Messages);
    lemma_messages_round_trip(request.messages);
}

/// A content written as its text alone and the same content written as a
/// list of one block are read as the same content.
pub proof fn lemma_content_forms_agree(text: Seq<char>)
    ensures
        decode_content(JsonValue::Text(text)) == decode_content(
            JsonValue::Array(seq![encode_item(text_item(text))]),
        ),
{
    let item = text_item(text);
    let docs = seq![encode_item(item)];
    lemma_item_round_trip(item);
    lemma_decode_all_step(docs, |item: JsonValue| decode_item(item), 0);
    assert(docs.take(1) =~= docs);
    assert(docs.take(0).len() == 0);
    assert(Seq::<ContentItemView>::empty().push(item) =~= seq![item]);
}

/// A document that says it is a message is read as an answer or not at all,
/// whatever else it holds; one that says it is an error is read as a refusal
/// or not at all.
pub proof fn lemma_type_decides(doc: JsonValue)
    ensures
        doc.field(Field::Type.key()) == Some(JsonValue::Text("message"@)) ==> decode_response(doc)
            == (match decode_success(doc) {
            Ok(message) => Ok::<AnthropicResponseView, Fault>(
                AnthropicResponseView::Success(message),
            ),
            Err(fault) => Err(fault),
        }),
        doc.field(Field::Type.key()) == Some(JsonValue::Text("error"@)) ==> decode_response(doc)
            == (match decode_error(doc) {
            Ok(error) => Ok::<AnthropicResponseView, Fault>(AnthropicResponseView::Error(error)),
            Err(fault) => Err(fault),
        }),
        decode_response(doc) matches Ok(AnthropicResponseView::Success(_)) ==> doc.field(
            Field::Type.key(),
        ) == Some(JsonValue::Text("message"@)),
        decode_response(doc) matches Ok(AnthropicResponseView::Error(_)) ==> doc.field(
            Field::Type.key(),
        ) == Some(JsonValue::Text("error"@)),
{
    reveal_strlit("message");
    reveal_strlit("error");
    assert("message"@ != "error"@) by {
        assert("message"@.len() != "error"@.len());
    }
}

/// The status decides what a body is read as: under a success status a
/// document of the shape of a refusal is an error, and under any other
/// status so is a document of the shape of an answer.
pub proof fn lemma_status_decides(status: u16, doc: JsonValue)
    ensures
        is_success(status) && decode_error(doc) is Ok ==> decode_body(status, doc) == Err::<
            AnthropicResponseView,
            Fault,
        >(invalid(Field::Type)),
        !is_success(status) && decode_success(doc) is Ok ==> decode_body(status, doc) == Err::<
            AnthropicResponseView,
            Fault,
        >(invalid(Field::Type)),
        decode_body(status, doc) matches Ok(AnthropicResponseView::Success(_)) ==> is_success(
            status,
        ),
        decode_body(status, doc) matches Ok(AnthropicResponseView::Error(_)) ==> !is_success(
            status,
        ),
{
    reveal_strlit("message");
    reveal_strlit("error");
    assert("message"@ != "error"@) by {
        assert("message"@.len() != "error"@.len());
    }
}

/// Blocks stay in the order in which they were added: text, image, text on
/// a fresh message gives exactly these three, in this order.
pub proof fn lemma_builder_keeps_order(
    role: Seq<char>,
    first: Seq<char>,
    media_type: Seq<char>,
    data: Seq<char>,
    last: Seq<char>,
)
    ensures
        MessageParamView::fresh(role).with_item(text_item(first)).with_item(
            image_item(media_type, data),
        ).with_item(text_item(last)).content == seq![
            text_item(first),
            image_item(media_type, data),
            text_item(last),
        ],
{
    let content = MessageParamView::fresh(role).with_item(text_item(first)).with_item(
        image_item(media_type, data),
    ).with_item(text_item(last)).content;
    assert(content =~= seq![text_item(first), image_item(media_type, data), text_item(last)]);
}

/// A message put together from a role that is one of the two is valid, and
/// stays so with every text and every image added.
pub proof fn lemma_built_message_is_valid(
    message: MessageParamView,
    role: Seq<char>,
    text: Seq<char>,
    media_type: Seq<char>,
    data: Seq<char>,
)
    ensures
        MessageParamView::fresh(role).valid() <==> is_role(role),
        message.valid() ==> message.with_item(text_item(text)).valid(),
        message.valid() ==> message.with_item(image_item(media_type, data)).valid(),
{
    if message.valid() {
        let with_text = message.with_item(text_item(text));
        assert forall|i: int| 0 <= i < with_text.content.len() implies (
        #[trigger] with_text.content[i]).valid() by {
            if i < message.content.len() {
                assert(message.content[i].valid());
            }
        }
        let with_image = message.with_item(image_item(media_type, data));
        assert forall|i: int| 0 <= i < with_image.content.len() implies (
        #[trigger] with_image.content[i]).valid() by {
            if i < message.content.len() {
                assert(message.content[i].valid());
            }
        }
    }
}

/// Whatever is read from a list of documents as blocks is valid.
pub proof fn lemma_decoded_items_are_valid(items: Seq<JsonValue>)
    ensures
        decode_items(items) matches Ok(content) ==> content.len() == items.len() && forall|i: int|
            0 <= i < content.len() ==> (#[trigger] content[i]).valid(),
    decreases items.len(),
{
    if items.len() > 0 {
        lemma_decoded_items_are_valid(items.drop_last());
    }
}

/// Whatever is read from a document as a message is valid.
pub proof fn lemma_decoded_message_is_valid(doc: JsonValue)
    ensures
        decode_message(doc) matches Ok(message) ==> message.valid(),
{
    if decode_message(doc) is Ok {
        let content = doc.field(Field::Content.key())->Some_0;
        match content {
            JsonValue::Array(items) => {
                lemma_decoded_items_are_valid(items);
            },
            _ => {},
        }
    }
}

/// Whatever is read from a list of documents as messages is valid.
pub proof fn lemma_decoded_messages_are_valid(items: Seq<JsonValue>)
    ensures
        decode_messages(items) matches Ok(messages) ==> messages.len() == items.len()
            && forall|i: int| 0 <= i < messages.len() ==> (#[trigger] messages[i]).valid(),
    decreases items.len(),
{
    if items.len() > 0 {
        lemma_decoded_messages_are_valid(items.drop_last());
        lemma_decoded_message_is_valid(items.last());
    }
}

/// Whatever is read from a document as a request is valid.
pub proof fn lemma_decoded_request_is_valid(doc: JsonValue)
    ensures
        decode_request(doc) matches Ok(request) ==> request.valid(),
{
    if decode_request(doc) is Ok {
        let messages = doc.field(Field::Messages.key())->Some_0;
        lemma_decoded_messages_are_valid(messages->Array_0);
    }
}

/// Adding a block changes nothing of what was there: the blocks before stay
/// where they were, the new one comes last, and the role stays.
pub proof fn lemma_builder_appends(message: MessageParamView, item: ContentItemView)
    ensures
        message.with_item(item).role == message.role,
        message.with_item(item).content.len() == message.content.len() + 1,
        message.with_item(item).content.last() == item,
        forall|i: int|
            0 <= i < message.content.len() ==> message.with_item(item).content[i]
                == message.content[i],
{
}

} // verus!
