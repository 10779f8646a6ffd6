//! A request as the document that the API expects.
//!
//! A message whose content is one block of text is written with that text in
//! place of the list of blocks; the API reads both alike.

use crate::error::{lemma_keys_differ, Field};
use crate::json::{keys_distinct, Json, JsonValue};
use crate::models::{
    AnthropicRequest, AnthropicRequestView, ContentData, ContentDataView, ContentItem,
    ContentItemView, ImageSource, ImageSourceView, MessageParam, MessageParamView,
};
use crate::wire::printed;
use vstd::prelude::*;

verus! {

/// The object of two members.
pub open spec fn object2(a: Field, x: JsonValue, b: Field, y: JsonValue) -> JsonValue {
    JsonValue::Object(seq![(a.key(), x), (b.key(), y)])
}

/// The object of three members.
pub open spec fn object3(
    a: Field,
    x: JsonValue,
    b: Field,
    y: JsonValue,
    c: Field,
    z: JsonValue,
) -> JsonValue {
    JsonValue::Object(seq![(a.key(), x), (b.key(), y), (c.key(), z)])
}

pub open spec fn encode_source(source: ImageSourceView) -> JsonValue {
    object3(
        Field::Type,
        JsonValue::Text(source.source_type),
        Field::MediaType,
        JsonValue::Text(source.media_type),
        Field::Data,
        JsonValue::Text(source.data),
    )
}

pub open spec fn encode_item(item: ContentItemView) -> JsonValue {
    match item.data {
        ContentDataView::Text { text } => object2(
            Field::Type,
            JsonValue::Text(item.item_type),
            Field::Text,
            JsonValue::Text(text),
        ),
        ContentDataView::Image { source } => object2(
            Field::Type,
            JsonValue::Text(item.item_type),
            Field::Source,
            encode_source(source),
        ),
    }
}

/// The text of a content that is one block of text and nothing else.
pub open spec fn plain_text(content: Seq<ContentItemView>) -> Option<Seq<char>> {
    if content.len() == 1 && content[0].item_type == "text"@ {
        match content[0].data {
            ContentDataView::Text { text } => Some(text),
            ContentDataView::Image { source } => None,
        }
    } else {
        None
    }
}

pub open spec fn encode_content(content: Seq<ContentItemView>) -> JsonValue {
    match plain_text(content) {
        Some(text) => JsonValue::Text(text),
        None => JsonValue::Array(content.map_values(|item: ContentItemView| encode_item(item))),
    }
}

pub open spec fn encode_message(message: MessageParamView) -> JsonValue {
    object2(
        Field::Role,
        JsonValue::Text(message.role),
        Field::Content,
        encode_content(message.content),
    )
}

pub open spec fn encode_request(request: AnthropicRequestView) -> JsonValue {
    object3(
        Field::Model,
        JsonValue::Text(request.model),
        Field::MaxTokens,
        JsonValue::Unsigned(request.max_tokens as u64),
        Field::Messages,
        JsonValue::Array(
            request.messages.map_values(|message: MessageParamView| encode_message(message)),
        ),
    )
}

/// An object of two members of different names is printable where the two
/// values are.
pub proof fn lemma_object2_printable(a: Field, x: JsonValue, b: Field, y: JsonValue)
    requires
        a != b,
        x.printable(),
        y.printable(),
    ensures
        object2(a, x, b, y).printable(),
{
    lemma_keys_differ(a, b);
    let entries = seq![(a.key(), x), (b.key(), y)];
    assert(keys_distinct(entries));
    assert forall|i: int| 0 <= i < entries.len() implies (#[trigger] entries[i]).1.printable() by {
        if i == 0 {
        } else {
        }
    }
    assert(JsonValue::Object(entries).printable());
}

/// An object of three members of different names is printable where the
/// three values are.
pub proof fn lemma_object3_printable(
    a: Field,
    x: JsonValue,
    b: Field,
    y: JsonValue,
    c: Field,
    z: JsonValue,
)
    requires
        a != b,
        a != c,
        b != c,
        x.printable(),
        y.printable(),
        z.printable(),
    ensures
        object3(a, x, b, y, c, z).printable(),
{
    lemma_keys_differ(a, b);
    lemma_keys_differ(a, c);
    lemma_keys_differ(b, c);
    let entries = seq![(a.key(), x), (b.key(), y), (c.key(), z)];
    assert(keys_distinct(entries));
    assert forall|i: int| 0 <= i < entries.len() implies (#[trigger] entries[i]).1.printable() by {
        if i == 0 {
        } else if i == 1 {
        } else {
        }
    }
    assert(JsonValue::Object(entries).printable());
}

pub proof fn lemma_item_printable(item: ContentItemView)
    ensures
        encode_item(item).printable(),
{
    match item.data {
        ContentDataView::Text { text } => {
            lemma_object2_printable(
                Field::Type,
                JsonValue::Text(item.item_type),
                Field::Text,
                JsonValue::Text(text),
            );
        },
        ContentDataView::Image { source } => {
            lemma_object3_printable(
                Field::Type,
                JsonValue::Text(source.source_type),
                Field::MediaType,
                JsonValue::Text(source.media_type),
                Field::Data,
                JsonValue::Text(source.data),
            );
            lemma_object2_printable(
                Field::Type,
                JsonValue::Text(item.item_type),
                Field::Source,
                encode_source(source),
            );
        },
    }
}

pub proof fn lemma_message_printable(message: MessageParamView)
    ensures
        encode_message(message).printable(),
{
    let content = encode_content(message.content);
    if plain_text(message.content) is None {
        let items = message.content.map_values(|item: ContentItemView| encode_item(item));
        assert forall|i: int| 0 <= i < items.len() implies (#[trigger] items[i]).printable() by {
            lemma_item_printable(message.content[i]);
        }
        assert(JsonValue::Array(items).printable());
    }
    lemma_object2_printable(Field::Role, JsonValue::Text(message.role), Field::Content, content);
}

/// Every request gives a document that can be written out.
pub proof fn lemma_request_printable(request: AnthropicRequestView)
    ensures
        encode_request(request).printable(),
{
    let messages = request.messages.map_values(|message: MessageParamView| encode_message(message));
    assert forall|i: int| 0 <= i < messages.len() implies (#[trigger] messages[i]).printable() by {
        lemma_message_printable(request.messages[i]);
    }
    assert(JsonValue::Array(messages).printable());
    lemma_object3_printable(
        Field::Model,
        JsonValue::Text(request.model),
        Field::MaxTokens,
        JsonValue::Unsigned(request.max_tokens as u64),
        Field::Messages,
        JsonValue::Array(messages),
    );
}

/// An object of two members.
fn make_object2(a: Field, x: Json, b: Field, y: Json) -> (r: Json)
    ensures
        r@ == object2(a, x@, b, y@),
{
    let mut entries: Vec<(String, Json)> = Vec::new();
    entries.push((a.name().to_owned(), x));
    entries.push((b.name().to_owned(), y));
    let r = Json::Object(entries);
    proof {
        assert(r@->Object_0 =~= seq![(a.key(), x@), (b.key(), y@)]);
    }
    r
}

/// An object of three members.
fn make_object3(a: Field, x: Json, b: Field, y: Json, c: Field, z: Json) -> (r: Json)
    ensures
        r@ == object3(a, x@, b, y@, c, z@),
{
    let mut entries: Vec<(String, Json)> = Vec::new();
    entries.push((a.name().to_owned(), x));
    entries.push((b.name().to_owned(), y));
    entries.push((c.name().to_owned(), z));
    let r = Json::Object(entries);
    proof {
        assert(r@->Object_0 =~= seq![(a.key(), x@), (b.key(), y@), (c.key(), z@)]);
    }
    r
}

impl ImageSource {
    /// The source as a document: `type`, `media_type` and `data`.
    pub fn to_json(&self) -> (r: Json)
        ensures
            r@ == encode_source(self@),
    {
        make_object3(
            Field::Type,
            Json::Text(self.source_type.clone()),
            Field::MediaType,
            Json::Text(self.media_type.clone()),
            Field::Data,
            Json::Text(self.data.clone()),
        )
    }
}

impl ContentItem {
    /// The block as a document: `type`, and `text` or `source`.
    pub fn to_json(&self) -> (r: Json)
        ensures
            r@ == encode_item(self@),
    {
        match &self.data {
            ContentData::Text { text } => make_object2(
                Field::Type,
                Json::Text(self.item_type.clone()),
                Field::Text,
                Json::Text(text.clone()),
            ),
            ContentData::Image { source } => make_object2(
                Field::Type,
                Json::Text(self.item_type.clone()),
                Field::Source,
                source.to_json(),
            ),
        }
    }
}

impl MessageParam {
    /// The text of a content that is one block of text and nothing else.
    fn plain_text(&self) -> (r: Option<&String>)
        ensures
            match r {
                Some(text) => plain_text(self@.content) == Some(text@),
                None => plain_text(self@.content) is None,
            },
    {
        if self.content.len() != 1 {
            return None;
        }
        let item = &self.content[0];
        proof {
            assert(self@.content[0] == item@);
        }
        if !crate::json::same_text(item.item_type.as_str(), "text") {
            return None;
        }
        match &item.data {
            ContentData::Text { text } => Some(text),
            ContentData::Image { source } => None,
        }
    }

    /// The content as a document: the text alone where the content is one
    /// block of text, the list of blocks otherwise.
    fn content_to_json(&self) -> (r: Json)
        ensures
            r@ == encode_content(self@.content),
    {
        match self.plain_text() {
            Some(text) => Json::Text(text.clone()),
            None => {
                let mut out: Vec<Json> = Vec::new();
                let mut i: usize = 0;
                while i < self.content.len()
                    invariant
                        i <= self.content.len(),
                        out@.len() == i,
                        forall|k: int|
                            0 <= k < i ==> (#[trigger] out@[k])@ == encode_item(
                                self.content@[k]@,
                            ),
                    decreases self.content.len() - i,
                {
                    let item = self.content[i].to_json();
                    out.push(item);
                    i = i + 1;
                }
                let r = Json::Array(out);
                proof {
                    assert(r@->Array_0 =~= self@.content.map_values(
                        |item: ContentItemView| encode_item(item),
                    ));
                }
                r
            },
        }
    }

    /// The message as a document: `role` and `content`.
    pub fn to_json(&self) -> (r: Json)
        ensures
            r@ == encode_message(self@),
    {
        make_object2(
            Field::Role,
            Json::Text(self.role.clone()),
            Field::Content,
            self.content_to_json(),
        )
    }
}

impl AnthropicRequest {
    /// The request as a document: `model`, `max_tokens` and `messages`.
    pub fn to_json(&self) -> (r: Json)
        ensures
            r@ == encode_request(self@),
    {
        let mut out: Vec<Json> = Vec::new();
        let mut i: usize = 0;
        while i < self.messages.len()
            invariant
                i <= self.messages.len(),
                out@.len() == i,
                forall|k: int|
                    0 <= k < i ==> (#[trigger] out@[k])@ == encode_message(self.messages@[k]@),
            decreases self.messages.len() - i,
        {
            let message = self.messages[i].to_json();
            out.push(message);
            i = i + 1;
        }
        let messages = Json::Array(out);
        proof {
            assert(messages@->Array_0 =~= self@.messages.map_values(
                |message: MessageParamView| encode_message(message),
            ));
        }
        make_object3(
            Field::Model,
            Json::Text(self.model.clone()),
            Field::MaxTokens,
            Json::Unsigned(self.max_tokens as u64),
            Field::Messages,
            messages,
        )
    }

    /// The request as the JSON text that goes to the API; `None` where the
    /// serializer reports an error.
    pub fn to_text(&self) -> (r: Option<String>)
        ensures
            match r {
                Some(text) => printed(encode_request(self@)) == Some(text@),
                None => printed(encode_request(self@)) is None,
            },
    {
        let doc = self.to_json();
        proof {
            lemma_request_printable(self@);
        }
        doc.print()
    }
}

} // verus!
