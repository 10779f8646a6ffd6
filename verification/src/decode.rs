//! Documents read as requests and responses, as the shapes say.

use crate::error::{result_view, DeserializationError, Fault, Field, Step};
use crate::json::{same_text, Json, JsonValue};
use crate::models::{
    AnthropicRequest, AnthropicResponse, Content, ContentData, ContentItem, ContentItemView,
    ContentView, ErrorInfo, ErrorResponse, ImageSource, MessageParam, MessageParamView,
    SuccessResponse, Usage,
};
use crate::shape;
use crate::shape::{lemma_decode_all_fails, lemma_decode_all_step};
use crate::wire::parsed;
use vstd::prelude::*;

verus! {

/// The values of the documents of a list.
pub open spec fn values_of(items: Seq<Json>) -> Seq<JsonValue> {
    items.map_values(|item: Json| item@)
}

/// The member `field`, which has to be there.
fn required<'a>(doc: &'a Json, field: Field) -> (r: Result<&'a Json, DeserializationError>)
    ensures
        result_view(r) == shape::required(doc@, field),
{
    match doc.get(field.name()) {
        Some(value) => Ok(value),
        None => Err(DeserializationError::missing(field)),
    }
}

/// The error for a member that is not what the shape allows.
fn invalid(field: Field) -> (r: DeserializationError)
    ensures
        r@ == shape::invalid(field),
{
    let r = DeserializationError::invalid().under(Step::Field(field));
    proof {
        assert(r@->Invalid_path =~= seq![Step::Field(field)]);
    }
    r
}

/// The member `field`, which has to be there and be a text.
fn text_member(doc: &Json, field: Field) -> (r: Result<String, DeserializationError>)
    ensures
        result_view(r) == shape::text_member(doc@, field),
{
    match doc.get(field.name()) {
        None => Err(DeserializationError::missing(field)),
        Some(Json::Text(text)) => Ok(text.clone()),
        Some(_) => Err(invalid(field)),
    }
}

/// The member `field`, which is a text, or is `null` or absent.
fn optional_text_member(doc: &Json, field: Field) -> (r: Result<
    Option<String>,
    DeserializationError,
>)
    ensures
        shape::optional_text_member(doc@, field) == (match r {
            Ok(Some(text)) => Ok::<Option<Seq<char>>, Fault>(Some(text@)),
            Ok(None) => Ok(None),
            Err(error) => Err(error@),
        }),
{
    match doc.get(field.name()) {
        None => Ok(None),
        Some(Json::Null) => Ok(None),
        Some(Json::Text(text)) => Ok(Some(text.clone())),
        Some(_) => Err(invalid(field)),
    }
}

/// The member `field`, which has to be there and be a non-negative integer
/// that a `usize` holds.
fn count_member(doc: &Json, field: Field) -> (r: Result<usize, DeserializationError>)
    ensures
        shape::count_member(doc@, field) == (match r {
            Ok(n) => Ok::<usize, Fault>(n),
            Err(error) => Err(error@),
        }),
{
    match doc.get(field.name()) {
        None => Err(DeserializationError::missing(field)),
        Some(Json::Unsigned(n)) => {
            if *n <= usize::MAX as u64 {
                Ok(*n as usize)
            } else {
                Err(invalid(field))
            }
        },
        Some(_) => Err(invalid(field)),
    }
}

/// The member `field`, which has to be there and be an array.
fn array_member<'a>(doc: &'a Json, field: Field) -> (r: Result<
    &'a Vec<Json>,
    DeserializationError,
>)
    ensures
        shape::array_member(doc@, field) == (match r {
            Ok(items) => Ok::<Seq<JsonValue>, Fault>(values_of(items@)),
            Err(error) => Err(error@),
        }),
{
    match doc.get(field.name()) {
        None => Err(DeserializationError::missing(field)),
        Some(Json::Array(items)) => {
            proof {
                let found = doc@.field(field.key())->Some_0;
                assert(found->Array_0 =~= values_of(items@));
            }
            Ok(items)
        },
        Some(_) => Err(invalid(field)),
    }
}

/// Whether the document is an object.
fn is_object(doc: &Json) -> (r: bool)
    ensures
        r == (doc@ is Object),
{
    match doc {
        Json::Object(_) => true,
        _ => false,
    }
}

impl ImageSource {
    /// Reads an image source from a document.
    pub fn from_json(doc: &Json) -> (r: Result<ImageSource, DeserializationError>)
        ensures
            result_view(r) == shape::decode_source(doc@),
    {
        if !is_object(doc) {
            return Err(DeserializationError::invalid());
        }
        let source_type = text_member(doc, Field::Type)?;
        if !same_text(source_type.as_str(), "base64") {
            return Err(invalid(Field::Type));
        }
        let media_type = text_member(doc, Field::MediaType)?;
        let data = text_member(doc, Field::Data)?;
        Ok(ImageSource { source_type, media_type, data })
    }
}

impl ContentItem {
    /// Reads a block from a document.
    pub fn from_json(doc: &Json) -> (r: Result<ContentItem, DeserializationError>)
        ensures
            result_view(r) == shape::decode_item(doc@),
    {
        if !is_object(doc) {
            return Err(DeserializationError::invalid());
        }
        let item_type = text_member(doc, Field::Type)?;
        if same_text(item_type.as_str(), "text") {
            let text = text_member(doc, Field::Text)?;
            Ok(ContentItem { item_type, data: ContentData::Text { text } })
        } else if same_text(item_type.as_str(), "image") {
            let part = required(doc, Field::Source)?;
            match ImageSource::from_json(part) {
                Ok(source) => Ok(ContentItem { item_type, data: ContentData::Image { source } }),
                Err(error) => Err(error.under(Step::Field(Field::Source))),
            }
        } else {
            Err(invalid(Field::Type))
        }
    }
}

/// Reads blocks from the items of an array.
fn items_from_json(items: &Vec<Json>) -> (r: Result<Vec<ContentItem>, DeserializationError>)
    ensures
        shape::decode_items(values_of(items@)) == (match r {
            Ok(values) => Ok::<Seq<ContentItemView>, Fault>(
                values@.map_values(|item: ContentItem| item@),
            ),
            Err(error) => Err(error@),
        }),
{
    let ghost docs = values_of(items@);
    let mut out: Vec<ContentItem> = Vec::new();
    let mut i: usize = 0;
    proof {
        assert(docs.take(0).len() == 0);
        assert(out@.map_values(|item: ContentItem| item@) =~= Seq::<ContentItemView>::empty());
    }
    while i < items.len()
        invariant
            i <= items.len(),
            docs == values_of(items@),
            shape::decode_items(docs.take(i as int)) == Ok::<Seq<ContentItemView>, Fault>(
                out@.map_values(|item: ContentItem| item@),
            ),
        decreases items.len() - i,
    {
        proof {
            lemma_decode_all_step(docs, |item: JsonValue| shape::decode_item(item), i as int);
        }
        let ghost before = out@.map_values(|item: ContentItem| item@);
        match ContentItem::from_json(&items[i]) {
            Ok(value) => {
                out.push(value);
                proof {
                    assert(out@.map_values(|item: ContentItem| item@) =~= before.push(value@));
                }
            },
            Err(error) => {
                proof {
                    lemma_decode_all_fails(
                        docs,
                        |item: JsonValue| shape::decode_item(item),
                        i as int + 1,
                    );
                }
                return Err(error.under(Step::Index(i)));
            },
        }
        i = i + 1;
    }
    proof {
        assert(docs.take(i as int) == docs);
    }
    Ok(out)
}

/// Reads messages from the items of an array.
fn messages_from_json(items: &Vec<Json>) -> (r: Result<Vec<MessageParam>, DeserializationError>)
    ensures
        shape::decode_messages(values_of(items@)) == (match r {
            Ok(values) => Ok::<Seq<MessageParamView>, Fault>(
                values@.map_values(|message: MessageParam| message@),
            ),
            Err(error) => Err(error@),
        }),
{
    let ghost docs = values_of(items@);
    let mut out: Vec<MessageParam> = Vec::new();
    let mut i: usize = 0;
    proof {
        assert(docs.take(0).len() == 0);
        assert(out@.map_values(|message: MessageParam| message@) =~= Seq::<
            MessageParamView,
        >::empty());
    }
    while i < items.len()
        invariant
            i <= items.len(),
            docs == values_of(items@),
            shape::decode_messages(docs.take(i as int)) == Ok::<Seq<MessageParamView>, Fault>(
                out@.map_values(|message: MessageParam| message@),
            ),
        decreases items.len() - i,
    {
        proof {
            lemma_decode_all_step(
                docs,
                |message: JsonValue| shape::decode_message(message),
                i as int,
            );
        }
        let ghost before = out@.map_values(|message: MessageParam| message@);
        match MessageParam::from_json(&items[i]) {
            Ok(value) => {
                out.push(value);
                proof {
                    assert(out@.map_values(|message: MessageParam| message@) =~= before.push(
                        value@,
                    ));
                }
            },
            Err(error) => {
                proof {
                    lemma_decode_all_fails(
                        docs,
                        |message: JsonValue| shape::decode_message(message),
                        i as int + 1,
                    );
                }
                return Err(error.under(Step::Index(i)));
            },
        }
        i = i + 1;
    }
    proof {
        assert(docs.take(i as int) == docs);
    }
    Ok(out)
}

/// Reads the blocks of an answer from the items of an array.
fn blocks_from_json(items: &Vec<Json>) -> (r: Result<Vec<Content>, DeserializationError>)
    ensures
        shape::decode_blocks(values_of(items@)) == (match r {
            Ok(values) => Ok::<Seq<ContentView>, Fault>(
                values@.map_values(|block: Content| block@),
            ),
            Err(error) => Err(error@),
        }),
{
    let ghost docs = values_of(items@);
    let mut out: Vec<Content> = Vec::new();
    let mut i: usize = 0;
    proof {
        assert(docs.take(0).len() == 0);
        assert(out@.map_values(|block: Content| block@) =~= Seq::<ContentView>::empty());
    }
    while i < items.len()
        invariant
            i <= items.len(),
            docs == values_of(items@),
            shape::decode_blocks(docs.take(i as int)) == Ok::<Seq<ContentView>, Fault>(
                out@.map_values(|block: Content| block@),
            ),
        decreases items.len() - i,
    {
        proof {
            lemma_decode_all_step(docs, |block: JsonValue| shape::decode_block(block), i as int);
        }
        let ghost before = out@.map_values(|block: Content| block@);
        match Content::from_json(&items[i]) {
            Ok(value) => {
                out.push(value);
                proof {
                    assert(out@.map_values(|block: Content| block@) =~= before.push(value@));
                }
            },
            Err(error) => {
                proof {
                    lemma_decode_all_fails(
                        docs,
                        |block: JsonValue| shape::decode_block(block),
                        i as int + 1,
                    );
                }
                return Err(error.under(Step::Index(i)));
            },
        }
        i = i + 1;
    }
    proof {
        assert(docs.take(i as int) == docs);
    }
    Ok(out)
}

/// Reads a content from a document.
fn content_from_json(doc: &Json) -> (r: Result<Vec<ContentItem>, DeserializationError>)
    ensures
        shape::decode_content(doc@) == (match r {
            Ok(values) => Ok::<Seq<ContentItemView>, Fault>(
                values@.map_values(|item: ContentItem| item@),
            ),
            Err(error) => Err(error@),
        }),
{
    match doc {
        Json::Text(text) => {
            let mut out: Vec<ContentItem> = Vec::new();
            out.push(
                ContentItem {
                    item_type: "text".to_owned(),
                    data: ContentData::Text { text: text.clone() },
                },
            );
            proof {
                assert(out@.map_values(|item: ContentItem| item@) =~= seq![
                    crate::models::text_item(text@),
                ]);
            }
            Ok(out)
        },
        Json::Array(items) => {
            proof {
                assert(doc@->Array_0 =~= values_of(items@));
            }
            items_from_json(items)
        },
        _ => Err(DeserializationError::invalid()),
    }
}

/// Whether the text names one of the two roles.
fn names_role(role: &str) -> (r: bool)
    ensures
        r == crate::models::is_role(role@),
{
    same_text(role, "user") || same_text(role, "assistant")
}

/// The result of reading a text as a document and the document as a value:
/// a text that is no document gives `Syntax`.
pub open spec fn read_as<T: View>(
    text: Seq<char>,
    r: Result<T, DeserializationError>,
    decode: spec_fn(JsonValue) -> Result<T::V, Fault>,
) -> bool {
    match parsed(text) {
        Some(doc) => result_view(r) == decode(doc),
        None => r is Err && r->Err_0@ is Syntax,
    }
}

impl MessageParam {
    /// Reads a message from a document.
    pub fn from_json(doc: &Json) -> (r: Result<MessageParam, DeserializationError>)
        ensures
            result_view(r) == shape::decode_message(doc@),
    {
        if !is_object(doc) {
            return Err(DeserializationError::invalid());
        }
        let role = text_member(doc, Field::Role)?;
        if !names_role(role.as_str()) {
            return Err(invalid(Field::Role));
        }
        let part = required(doc, Field::Content)?;
        match content_from_json(part) {
            Ok(content) => Ok(MessageParam { role, content }),
            Err(error) => Err(error.under(Step::Field(Field::Content))),
        }
    }

    /// Reads a message from JSON text.
    pub fn from_text(text: &str) -> (r: Result<MessageParam, DeserializationError>)
        ensures
            read_as(text@, r, |doc: JsonValue| shape::decode_message(doc)),
    {
        let doc = Json::parse(text)?;
        MessageParam::from_json(&doc)
    }
}

impl AnthropicRequest {
    /// Reads a request from a document.
    pub fn from_json(doc: &Json) -> (r: Result<AnthropicRequest, DeserializationError>)
        ensures
            result_view(r) == shape::decode_request(doc@),
    {
        if !is_object(doc) {
            return Err(DeserializationError::invalid());
        }
        let model = text_member(doc, Field::Model)?;
        let max_tokens = count_member(doc, Field::MaxTokens)?;
        let items = array_member(doc, Field::Messages)?;
        match messages_from_json(items) {
            Ok(messages) => Ok(AnthropicRequest { model, max_tokens, messages }),
            Err(error) => Err(error.under(Step::Field(Field::Messages))),
        }
    }

    /// Reads a request from JSON text.
    pub fn from_text(text: &str) -> (r: Result<AnthropicRequest, DeserializationError>)
        ensures
            read_as(text@, r, |doc: JsonValue| shape::decode_request(doc)),
    {
        let doc = Json::parse(text)?;
        AnthropicRequest::from_json(&doc)
    }
}

impl Content {
    /// Reads a block of an answer from a document.
    pub fn from_json(doc: &Json) -> (r: Result<Content, DeserializationError>)
        ensures
            result_view(r) == shape::decode_block(doc@),
    {
        if !is_object(doc) {
            return Err(DeserializationError::invalid());
        }
        let content_type = text_member(doc, Field::Type)?;
        let text = text_member(doc, Field::Text)?;
        Ok(Content { text, content_type })
    }
}

impl Usage {
    /// Reads the token counts from a document.
    pub fn from_json(doc: &Json) -> (r: Result<Usage, DeserializationError>)
        ensures
            result_view(r) == shape::decode_usage(doc@),
    {
        if !is_object(doc) {
            return Err(DeserializationError::invalid());
        }
        let input_tokens = count_member(doc, Field::InputTokens)?;
        let output_tokens = count_member(doc, Field::OutputTokens)?;
        Ok(Usage { input_tokens, output_tokens })
    }
}

impl SuccessResponse {
    /// Reads an answer from a document.
    pub fn from_json(doc: &Json) -> (r: Result<SuccessResponse, DeserializationError>)
        ensures
            result_view(r) == shape::decode_success(doc@),
    {
        if !is_object(doc) {
            return Err(DeserializationError::invalid());
        }
        let response_type = text_member(doc, Field::Type)?;
        if !same_text(response_type.as_str(), "message") {
            return Err(invalid(Field::Type));
        }
        let items = array_member(doc, Field::Content)?;
        let content = match blocks_from_json(items) {
            Ok(content) => content,
            Err(error) => {
                return Err(error.under(Step::Field(Field::Content)));
            },
        };
        let id = text_member(doc, Field::Id)?;
        let model = text_member(doc, Field::Model)?;
        let role = text_member(doc, Field::Role)?;
        let stop_reason = text_member(doc, Field::StopReason)?;
        let stop_sequence = optional_text_member(doc, Field::StopSequence)?;
        let part = required(doc, Field::Usage)?;
        let usage = match Usage::from_json(part) {
            Ok(usage) => usage,
            Err(error) => {
                return Err(error.under(Step::Field(Field::Usage)));
            },
        };
        Ok(
            SuccessResponse {
                content,
                id,
                model,
                role,
                stop_reason,
                stop_sequence,
                response_type,
                usage,
            },
        )
    }

    /// Reads an answer from JSON text.
    pub fn from_text(text: &str) -> (r: Result<SuccessResponse, DeserializationError>)
        ensures
            read_as(text@, r, |doc: JsonValue| shape::decode_success(doc)),
    {
        let doc = Json::parse(text)?;
        SuccessResponse::from_json(&doc)
    }
}

impl ErrorInfo {
    /// Reads what went wrong from a document.
    pub fn from_json(doc: &Json) -> (r: Result<ErrorInfo, DeserializationError>)
        ensures
            result_view(r) == shape::decode_error_info(doc@),
    {
        if !is_object(doc) {
            return Err(DeserializationError::invalid());
        }
        let error_type = text_member(doc, Field::Type)?;
        let message = text_member(doc, Field::Message)?;
        Ok(ErrorInfo { error_type, message })
    }
}

impl ErrorResponse {
    /// Reads a refusal from a document.
    pub fn from_json(doc: &Json) -> (r: Result<ErrorResponse, DeserializationError>)
        ensures
            result_view(r) == shape::decode_error(doc@),
    {
        if !is_object(doc) {
            return Err(DeserializationError::invalid());
        }
        let error_type = text_member(doc, Field::Type)?;
        if !same_text(error_type.as_str(), "error") {
            return Err(invalid(Field::Type));
        }
        let part = required(doc, Field::Error)?;
        match ErrorInfo::from_json(part) {
            Ok(error) => Ok(ErrorResponse { error_type, error }),
            Err(error) => Err(error.under(Step::Field(Field::Error))),
        }
    }

    /// Reads a refusal from JSON text.
    pub fn from_text(text: &str) -> (r: Result<ErrorResponse, DeserializationError>)
        ensures
            read_as(text@, r, |doc: JsonValue| shape::decode_error(doc)),
    {
        let doc = Json::parse(text)?;
        ErrorResponse::from_json(&doc)
    }
}

impl AnthropicResponse {
    /// Reads a response from a document, as an answer or as a refusal by
    /// what the document says it is.
    pub fn from_json(doc: &Json) -> (r: Result<AnthropicResponse, DeserializationError>)
        ensures
            result_view(r) == shape::decode_response(doc@),
    {
        if !is_object(doc) {
            return Err(DeserializationError::invalid());
        }
        let kind = text_member(doc, Field::Type)?;
        if same_text(kind.as_str(), "message") {
            match SuccessResponse::from_json(doc) {
                Ok(message) => Ok(AnthropicResponse::Success(message)),
                Err(error) => Err(error),
            }
        } else if same_text(kind.as_str(), "error") {
            match ErrorResponse::from_json(doc) {
                Ok(error) => Ok(AnthropicResponse::Error(error)),
                Err(error) => Err(error),
            }
        } else {
            Err(invalid(Field::Type))
        }
    }

    /// Reads a response from JSON text.
    pub fn from_text(text: &str) -> (r: Result<AnthropicResponse, DeserializationError>)
        ensures
            read_as(text@, r, |doc: JsonValue| shape::decode_response(doc)),
    {
        let doc = Json::parse(text)?;
        AnthropicResponse::from_json(&doc)
    }
}

} // verus!
