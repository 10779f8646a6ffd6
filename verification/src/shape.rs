//! The shapes of the API's documents: what each is read as.
//!
//! What a document is read as is a function of the document alone. Members
//! that a shape does not name are passed over. Where a document does not fit,
//! the fault is that of the first check that fails, in the order in which
//! each function lists its checks, and names the place of the part at fault.

use crate::error::{Fault, Field, Step};
use crate::json::JsonValue;
use crate::models::{
    is_role, text_item, AnthropicRequestView, AnthropicResponseView, ContentDataView,
    ContentItemView, ContentView, ErrorInfoView, ErrorResponseView, ImageSourceView,
    MessageParamView, SuccessResponseView, Usage,
};
use vstd::prelude::*;

verus! {

/// The member `field` of the document at hand is absent.
pub open spec fn missing(field: Field) -> Fault {
    Fault::Missing { path: seq![Step::Field(field)] }
}

/// The member `field` of the document at hand is not what the shape allows.
pub open spec fn invalid(field: Field) -> Fault {
    Fault::Invalid { path: seq![Step::Field(field)] }
}

/// The document at hand is not what the shape allows.
pub open spec fn unfit() -> Fault {
    Fault::Invalid { path: Seq::empty() }
}

/// A result from one step further down, with its error seen from here.
pub open spec fn lift<T>(r: Result<T, Fault>, step: Step) -> Result<T, Fault> {
    match r {
        Ok(value) => Ok(value),
        Err(fault) => Err(fault.under(step)),
    }
}

/// The member `field`, which has to be there.
pub open spec fn required(doc: JsonValue, field: Field) -> Result<JsonValue, Fault> {
    match doc.field(field.key()) {
        Some(value) => Ok(value),
        None => Err(missing(field)),
    }
}

/// The member `field`, which has to be there and be a text.
pub open spec fn text_member(doc: JsonValue, field: Field) -> Result<Seq<char>, Fault> {
    match doc.field(field.key()) {
        None => Err(missing(field)),
        Some(JsonValue::Text(text)) => Ok(text),
        Some(_) => Err(invalid(field)),
    }
}

/// The member `field`, which is a text, or is `null` or absent.
pub open spec fn optional_text_member(doc: JsonValue, field: Field) -> Result<
    Option<Seq<char>>,
    Fault,
> {
    match doc.field(field.key()) {
        None => Ok(None),
        Some(JsonValue::Null) => Ok(None),
        Some(JsonValue::Text(text)) => Ok(Some(text)),
        Some(_) => Err(invalid(field)),
    }
}

/// The member `field`, which has to be there and be a non-negative integer
/// that a `usize` holds.
pub open spec fn count_member(doc: JsonValue, field: Field) -> Result<usize, Fault> {
    match doc.field(field.key()) {
        None => Err(missing(field)),
        Some(JsonValue::Unsigned(n)) => if n <= usize::MAX {
            Ok(n as usize)
        } else {
            Err(invalid(field))
        },
        Some(_) => Err(invalid(field)),
    }
}

/// The member `field`, which has to be there and be an array.
pub open spec fn array_member(doc: JsonValue, field: Field) -> Result<Seq<JsonValue>, Fault> {
    match doc.field(field.key()) {
        None => Err(missing(field)),
        Some(JsonValue::Array(items)) => Ok(items),
        Some(_) => Err(invalid(field)),
    }
}

/// Every item read by `decode`, in order. The error is that of the first
/// item that does not fit, under its position.
pub open spec fn decode_all<T>(
    items: Seq<JsonValue>,
    decode: spec_fn(JsonValue) -> Result<T, Fault>,
) -> Result<Seq<T>, Fault>
    decreases items.len(),
{
    if items.len() == 0 {
        Ok(Seq::empty())
    } else {
        match decode_all(items.drop_last(), decode) {
            Err(fault) => Err(fault),
            Ok(values) => match decode(items.last()) {
                Err(fault) => Err(fault.under(Step::Index((items.len() - 1) as usize))),
                Ok(value) => Ok(values.push(value)),
            },
        }
    }
}

/// Reading the first `n + 1` items is reading the first `n` and then item `n`.
pub proof fn lemma_decode_all_step<T>(
    items: Seq<JsonValue>,
    decode: spec_fn(JsonValue) -> Result<T, Fault>,
    n: int,
)
    requires
        0 <= n < items.len(),
    ensures
        decode_all(items.take(n + 1), decode) == (match decode_all(items.take(n), decode) {
            Err(fault) => Err(fault),
            Ok(values) => match decode(items[n]) {
                Err(fault) => Err(fault.under(Step::Index(n as usize))),
                Ok(value) => Ok(values.push(value)),
            },
        }),
{
    let next = items.take(n + 1);
    assert(next.drop_last() == items.take(n));
    assert(next.last() == items[n]);
}

/// Once some first items do not fit, the whole gives their error.
pub proof fn lemma_decode_all_fails<T>(
    items: Seq<JsonValue>,
    decode: spec_fn(JsonValue) -> Result<T, Fault>,
    n: int,
)
    requires
        0 <= n <= items.len(),
        decode_all(items.take(n), decode) is Err,
    ensures
        decode_all(items, decode) == decode_all(items.take(n), decode),
    decreases items.len() - n,
{
    if n < items.len() {
        lemma_decode_all_step(items, decode, n);
        lemma_decode_all_fails(items, decode, n + 1);
    } else {
        assert(items.take(n) == items);
    }
}

/// Item `i` is the first that `decode` does not read.
pub open spec fn first_unfit<T>(
    items: Seq<JsonValue>,
    decode: spec_fn(JsonValue) -> Result<T, Fault>,
    i: int,
) -> bool {
    &&& 0 <= i < items.len()
    &&& decode(items[i]) is Err
    &&& forall|k: int| 0 <= k < i ==> decode(#[trigger] items[k]) is Ok
}

/// What reading every item comes to, item by item: either every item is
/// read, and the values are theirs in order, or the fault is that of the
/// first item that is not read, under its position.
pub proof fn lemma_decode_all_pointwise<T>(
    items: Seq<JsonValue>,
    decode: spec_fn(JsonValue) -> Result<T, Fault>,
)
    ensures
        match decode_all(items, decode) {
            Ok(values) => values.len() == items.len() && forall|i: int|
                0 <= i < items.len() ==> decode(#[trigger] items[i]) == Ok::<T, Fault>(values[i]),
            Err(fault) => exists|i: int| #[trigger]
                first_unfit(items, decode, i) && fault == decode(items[i])->Err_0.under(
                    Step::Index(i as usize),
                ),
        },
    decreases items.len(),
{
    if items.len() > 0 {
        let front = items.drop_last();
        let last = items.len() - 1;
        lemma_decode_all_pointwise(front, decode);
        match decode_all(front, decode) {
            Err(fault) => {
                let i = choose|i: int| #[trigger]
                    first_unfit(front, decode, i) && fault == decode(front[i])->Err_0.under(
                        Step::Index(i as usize),
                    );
                assert forall|k: int| 0 <= k < i implies decode(#[trigger] items[k]) is Ok by {
                    assert(front[k] == items[k]);
                }
                assert(front[i] == items[i]);
                assert(first_unfit(items, decode, i));
            },
            Ok(values) => {
                assert forall|k: int| 0 <= k < last implies decode(#[trigger] items[k]) == Ok::<
                    T,
                    Fault,
                >(values[k]) by {
                    assert(front[k] == items[k]);
                }
                if decode(items.last()) is Err {
                    assert(first_unfit(items, decode, last));
                }
            },
        }
    }
}

/// An image source: an object; `type`, which is `"base64"`; `media_type`;
/// `data`.
pub open spec fn decode_source(doc: JsonValue) -> Result<ImageSourceView, Fault> {
    let kind = text_member(doc, Field::Type);
    let media_type = text_member(doc, Field::MediaType);
    let data = text_member(doc, Field::Data);
    if !(doc is Object) {
        Err(unfit())
    } else if kind is Err {
        Err(kind->Err_0)
    } else if kind->Ok_0 != "base64"@ {
        Err(invalid(Field::Type))
    } else if media_type is Err {
        Err(media_type->Err_0)
    } else if data is Err {
        Err(data->Err_0)
    } else {
        Ok(
            ImageSourceView {
                source_type: kind->Ok_0,
                media_type: media_type->Ok_0,
                data: data->Ok_0,
            },
        )
    }
}

/// A block: an object; `type`; then `text` where the type is `"text"`,
/// `source` where it is `"image"`. No other type is a block.
pub open spec fn decode_item(doc: JsonValue) -> Result<ContentItemView, Fault> {
    let kind = text_member(doc, Field::Type);
    let text = text_member(doc, Field::Text);
    let source = required(doc, Field::Source);
    if !(doc is Object) {
        Err(unfit())
    } else if kind is Err {
        Err(kind->Err_0)
    } else if kind->Ok_0 == "text"@ {
        if text is Err {
            Err(text->Err_0)
        } else {
            Ok(text_item(text->Ok_0))
        }
    } else if kind->Ok_0 == "image"@ {
        if source is Err {
            Err(source->Err_0)
        } else {
            match decode_source(source->Ok_0) {
                Err(fault) => Err(fault.under(Step::Field(Field::Source))),
                Ok(source) => Ok(
                    ContentItemView {
                        item_type: "image"@,
                        data: ContentDataView::Image { source },
                    },
                ),
            }
        }
    } else {
        Err(invalid(Field::Type))
    }
}

/// Blocks, in order.
pub open spec fn decode_items(items: Seq<JsonValue>) -> Result<Seq<ContentItemView>, Fault> {
    decode_all(items, |item: JsonValue| decode_item(item))
}

/// A content: a text, which stands for one block of that text, or an array
/// of blocks.
pub open spec fn decode_content(doc: JsonValue) -> Result<Seq<ContentItemView>, Fault> {
    match doc {
        JsonValue::Text(text) => Ok(seq![text_item(text)]),
        JsonValue::Array(items) => decode_items(items),
        _ => Err(unfit()),
    }
}

/// A message: an object; `role`, which is one of the two roles; `content`.
pub open spec fn decode_message(doc: JsonValue) -> Result<MessageParamView, Fault> {
    let role = text_member(doc, Field::Role);
    let content = required(doc, Field::Content);
    if !(doc is Object) {
        Err(unfit())
    } else if role is Err {
        Err(role->Err_0)
    } else if !is_role(role->Ok_0) {
        Err(invalid(Field::Role))
    } else if content is Err {
        Err(content->Err_0)
    } else {
        match decode_content(content->Ok_0) {
            Err(fault) => Err(fault.under(Step::Field(Field::Content))),
            Ok(content) => Ok(MessageParamView { role: role->Ok_0, content }),
        }
    }
}

/// Messages, in order.
pub open spec fn decode_messages(items: Seq<JsonValue>) -> Result<Seq<MessageParamView>, Fault> {
    decode_all(items, |message: JsonValue| decode_message(message))
}

/// A request: an object; `model`; `max_tokens`; `messages`, an array of
/// messages.
pub open spec fn decode_request(doc: JsonValue) -> Result<AnthropicRequestView, Fault> {
    let model = text_member(doc, Field::Model);
    let max_tokens = count_member(doc, Field::MaxTokens);
    let messages = array_member(doc, Field::Messages);
    if !(doc is Object) {
        Err(unfit())
    } else if model is Err {
        Err(model->Err_0)
    } else if max_tokens is Err {
        Err(max_tokens->Err_0)
    } else if messages is Err {
        Err(messages->Err_0)
    } else {
        match decode_messages(messages->Ok_0) {
            Err(fault) => Err(fault.under(Step::Field(Field::Messages))),
            Ok(messages) => Ok(
                AnthropicRequestView {
                    model: model->Ok_0,
                    max_tokens: max_tokens->Ok_0,
                    messages,
                },
            ),
        }
    }
}

/// A block of an answer: an object; `type`; `text`.
pub open spec fn decode_block(doc: JsonValue) -> Result<ContentView, Fault> {
    let kind = text_member(doc, Field::Type);
    let text = text_member(doc, Field::Text);
    if !(doc is Object) {
        Err(unfit())
    } else if kind is Err {
        Err(kind->Err_0)
    } else if text is Err {
        Err(text->Err_0)
    } else {
        Ok(ContentView { text: text->Ok_0, content_type: kind->Ok_0 })
    }
}

/// Blocks of an answer, in order.
pub open spec fn decode_blocks(items: Seq<JsonValue>) -> Result<Seq<ContentView>, Fault> {
    decode_all(items, |block: JsonValue| decode_block(block))
}

/// The token counts: an object; `input_tokens`; `output_tokens`.
pub open spec fn decode_usage(doc: JsonValue) -> Result<Usage, Fault> {
    let input_tokens = count_member(doc, Field::InputTokens);
    let output_tokens = count_member(doc, Field::OutputTokens);
    if !(doc is Object) {
        Err(unfit())
    } else if input_tokens is Err {
        Err(input_tokens->Err_0)
    } else if output_tokens is Err {
        Err(output_tokens->Err_0)
    } else {
        Ok(Usage { input_tokens: input_tokens->Ok_0, output_tokens: output_tokens->Ok_0 })
    }
}

/// An answer: an object; `type`, which is `"message"`; `content`, an array
/// of blocks; `id`; `model`; `role`; `stop_reason`; `stop_sequence`, which
/// may be `null` or absent; `usage`.
pub open spec fn decode_success(doc: JsonValue) -> Result<SuccessResponseView, Fault> {
    let kind = text_member(doc, Field::Type);
    let content = array_member(doc, Field::Content);
    let blocks = lift(decode_blocks(content->Ok_0), Step::Field(Field::Content));
    let id = text_member(doc, Field::Id);
    let model = text_member(doc, Field::Model);
    let role = text_member(doc, Field::Role);
    let stop_reason = text_member(doc, Field::StopReason);
    let stop_sequence = optional_text_member(doc, Field::StopSequence);
    let usage = required(doc, Field::Usage);
    let counts = lift(decode_usage(usage->Ok_0), Step::Field(Field::Usage));
    if !(doc is Object) {
        Err(unfit())
    } else if kind is Err {
        Err(kind->Err_0)
    } else if kind->Ok_0 != "message"@ {
        Err(invalid(Field::Type))
    } else if content is Err {
        Err(content->Err_0)
    } else if blocks is Err {
        Err(blocks->Err_0)
    } else if id is Err {
        Err(id->Err_0)
    } else if model is Err {
        Err(model->Err_0)
    } else if role is Err {
        Err(role->Err_0)
    } else if stop_reason is Err {
        Err(stop_reason->Err_0)
    } else if stop_sequence is Err {
        Err(stop_sequence->Err_0)
    } else if usage is Err {
        Err(usage->Err_0)
    } else if counts is Err {
        Err(counts->Err_0)
    } else {
        Ok(
            SuccessResponseView {
                content: blocks->Ok_0,
                id: id->Ok_0,
                model: model->Ok_0,
                role: role->Ok_0,
                stop_reason: stop_reason->Ok_0,
                stop_sequence: stop_sequence->Ok_0,
                response_type: kind->Ok_0,
                usage: counts->Ok_0,
            },
        )
    }
}

/// What went wrong: an object; `type`; `message`.
pub open spec fn decode_error_info(doc: JsonValue) -> Result<ErrorInfoView, Fault> {
    let kind = text_member(doc, Field::Type);
    let message = text_member(doc, Field::Message);
    if !(doc is Object) {
        Err(unfit())
    } else if kind is Err {
        Err(kind->Err_0)
    } else if message is Err {
        Err(message->Err_0)
    } else {
        Ok(ErrorInfoView { error_type: kind->Ok_0, message: message->Ok_0 })
    }
}

/// A refusal: an object; `type`, which is `"error"`; `error`.
pub open spec fn decode_error(doc: JsonValue) -> Result<ErrorResponseView, Fault> {
    let kind = text_member(doc, Field::Type);
    let error = required(doc, Field::Error);
    let info = lift(decode_error_info(error->Ok_0), Step::Field(Field::Error));
    if !(doc is Object) {
        Err(unfit())
    } else if kind is Err {
        Err(kind->Err_0)
    } else if kind->Ok_0 != "error"@ {
        Err(invalid(Field::Type))
    } else if error is Err {
        Err(error->Err_0)
    } else if info is Err {
        Err(info->Err_0)
    } else {
        Ok(ErrorResponseView { error_type: kind->Ok_0, error: info->Ok_0 })
    }
}

/// A response, told apart by what the document itself says it is: an
/// object; `type`; then an answer where the type is `"message"`, a refusal
/// where it is `"error"`. No other type is a response.
pub open spec fn decode_response(doc: JsonValue) -> Result<AnthropicResponseView, Fault> {
    let kind = text_member(doc, Field::Type);
    if !(doc is Object) {
        Err(unfit())
    } else if kind is Err {
        Err(kind->Err_0)
    } else if kind->Ok_0 == "message"@ {
        match decode_success(doc) {
            Ok(message) => Ok(AnthropicResponseView::Success(message)),
            Err(fault) => Err(fault),
        }
    } else if kind->Ok_0 == "error"@ {
        match decode_error(doc) {
            Ok(error) => Ok(AnthropicResponseView::Error(error)),
            Err(fault) => Err(fault),
        }
    } else {
        Err(invalid(Field::Type))
    }
}

/// The statuses with which the API sends an answer: 200 to 299.
pub open spec fn is_success(status: u16) -> bool {
    200 <= status < 300
}

/// The body of an HTTP response, read as the status says: as an answer under
/// a success status, as a refusal under every other. What the document says
/// it is has to agree.
pub open spec fn decode_body(status: u16, doc: JsonValue) -> Result<AnthropicResponseView, Fault> {
    if is_success(status) {
        match decode_success(doc) {
            Ok(message) => Ok(AnthropicResponseView::Success(message)),
            Err(fault) => Err(fault),
        }
    } else {
        match decode_error(doc) {
            Ok(error) => Ok(AnthropicResponseView::Error(error)),
            Err(fault) => Err(fault),
        }
    }
}

} // verus!
