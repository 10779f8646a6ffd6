//! The request and response values of the messages API, and how a request is
//! put together.
//!
//! Every type has a mathematical value (its view), named after it with the
//! suffix `View`. Contracts are stated over these.

use vstd::prelude::*;

verus! {

/// The bytes of an image as text, with what they are.
#[derive(Debug, Clone, PartialEq, Eq)]
pub struct ImageSource {
    /// How `data` is encoded: `"base64"`.
    pub source_type: String,
    /// The image's format, such as `"image/jpeg"`.
    pub media_type: String,
    pub data: String,
}

pub ghost struct ImageSourceView {
    pub source_type: Seq<char>,
    pub media_type: Seq<char>,
    pub data: Seq<char>,
}

impl View for ImageSource {
    type V = ImageSourceView;

    open spec fn view(&self) -> ImageSourceView {
        ImageSourceView {
            source_type: self.source_type@,
            media_type: self.media_type@,
            data: self.data@,
        }
    }
}

/// What one block of content carries.
#[derive(Debug, Clone, PartialEq, Eq)]
pub enum ContentData {
    Text { text: String },
    Image { source: ImageSource },
}

pub ghost enum ContentDataView {
    Text { text: Seq<char> },
    Image { source: ImageSourceView },
}

impl View for ContentData {
    type V = ContentDataView;

    open spec fn view(&self) -> ContentDataView {
        match self {
            ContentData::Text { text } => ContentDataView::Text { text: text@ },
            ContentData::Image { source } => ContentDataView::Image { source: source@ },
        }
    }
}

/// One block of a message's content.
#[derive(Debug, Clone, PartialEq, Eq)]
pub struct ContentItem {
    /// The block's kind as the API names it: `"text"` or `"image"`.
    pub item_type: String,
    pub data: ContentData,
}

pub ghost struct ContentItemView {
    pub item_type: Seq<char>,
    pub data: ContentDataView,
}

impl View for ContentItem {
    type V = ContentItemView;

    open spec fn view(&self) -> ContentItemView {
        ContentItemView { item_type: self.item_type@, data: self.data@ }
    }
}

/// The block that holds the text `text`.
pub open spec fn text_item(text: Seq<char>) -> ContentItemView {
    ContentItemView { item_type: "text"@, data: ContentDataView::Text { text } }
}

/// The block that holds an image of format `media_type` whose bytes,
/// base64-encoded, are `data`.
pub open spec fn image_item(media_type: Seq<char>, data: Seq<char>) -> ContentItemView {
    ContentItemView {
        item_type: "image"@,
        data: ContentDataView::Image {
            source: ImageSourceView { source_type: "base64"@, media_type, data },
        },
    }
}

/// The two roles that a message can have.
pub open spec fn is_role(role: Seq<char>) -> bool {
    role == "user"@ || role == "assistant"@
}

impl ContentItemView {
    /// The kind that the block names is the kind of what it carries, and an
    /// image is base64-encoded.
    pub open spec fn valid(self) -> bool {
        match self.data {
            ContentDataView::Text { text } => self.item_type == "text"@,
            ContentDataView::Image { source } => self.item_type == "image"@ && source.source_type
                == "base64"@,
        }
    }
}

/// One turn of the conversation.
#[derive(Debug, Clone, PartialEq, Eq)]
pub struct MessageParam {
    /// Who speaks: `"user"` or `"assistant"`.
    pub role: String,
    /// The blocks, in the order in which they were added.
    pub content: Vec<ContentItem>,
}

pub ghost struct MessageParamView {
    pub role: Seq<char>,
    pub content: Seq<ContentItemView>,
}

impl View for MessageParam {
    type V = MessageParamView;

    open spec fn view(&self) -> MessageParamView {
        MessageParamView {
            role: self.role@,
            content: self.content@.map_values(|item: ContentItem| item@),
        }
    }
}

impl MessageParamView {
    /// A message of `role` without content.
    pub open spec fn fresh(role: Seq<char>) -> MessageParamView {
        MessageParamView { role, content: Seq::empty() }
    }

    /// The message with one more block at its end.
    pub open spec fn with_item(self, item: ContentItemView) -> MessageParamView {
        MessageParamView { role: self.role, content: self.content.push(item) }
    }

    /// The role is one of the two, and every block is valid.
    pub open spec fn valid(self) -> bool {
        &&& is_role(self.role)
        &&& forall|i: int| 0 <= i < self.content.len() ==> (#[trigger] self.content[i]).valid()
    }
}

impl MessageParam {
    /// A message of `role` without content.
    pub fn new(role: &str) -> (r: MessageParam)
        ensures
            r@ == MessageParamView::fresh(role@),
    {
        let r = MessageParam { role: role.to_owned(), content: Vec::new() };
        proof {
            assert(r@.content =~= Seq::empty());
        }
        r
    }

    /// Adds a block of text at the end of the content.
    pub fn text(self, text: &str) -> (r: MessageParam)
        ensures
            r@ == self@.with_item(text_item(text@)),
    {
        let item = ContentItem {
            item_type: "text".to_owned(),
            data: ContentData::Text { text: text.to_owned() },
        };
        self.with(item)
    }

    /// Adds an image at the end of the content: its format and its bytes,
    /// base64-encoded.
    pub fn image(self, media_type: &str, data: &str) -> (r: MessageParam)
        ensures
            r@ == self@.with_item(image_item(media_type@, data@)),
    {
        let item = ContentItem {
            item_type: "image".to_owned(),
            data: ContentData::Image {
                source: ImageSource {
                    source_type: "base64".to_owned(),
                    media_type: media_type.to_owned(),
                    data: data.to_owned(),
                },
            },
        };
        self.with(item)
    }

    /// Adds a block at the end of the content.
    fn with(self, item: ContentItem) -> (r: MessageParam)
        ensures
            r@ == self@.with_item(item@),
    {
        let mut message = self;
        message.content.push(item);
        proof {
            assert(message@.content =~= self@.content.push(item@));
        }
        message
    }
}

/// What is asked of the model.
#[derive(Debug, Clone, PartialEq, Eq)]
pub struct AnthropicRequest {
    /// The model's name, passed on as it is.
    pub model: String,
    /// The most tokens that the answer may have.
    pub max_tokens: usize,
    /// The conversation so far, oldest turn first.
    pub messages: Vec<MessageParam>,
}

pub ghost struct AnthropicRequestView {
    pub model: Seq<char>,
    pub max_tokens: usize,
    pub messages: Seq<MessageParamView>,
}

impl View for AnthropicRequest {
    type V = AnthropicRequestView;

    open spec fn view(&self) -> AnthropicRequestView {
        AnthropicRequestView {
            model: self.model@,
            max_tokens: self.max_tokens,
            messages: self.messages@.map_values(|message: MessageParam| message@),
        }
    }
}

impl AnthropicRequestView {
    /// Every message is valid.
    pub open spec fn valid(self) -> bool {
        forall|i: int| 0 <= i < self.messages.len() ==> (#[trigger] self.messages[i]).valid()
    }
}

impl AnthropicRequest {
    /// A request to `model` for at most `max_tokens` tokens, with these
    /// messages.
    pub fn new(model: &str, max_tokens: usize, messages: Vec<MessageParam>) -> (r: AnthropicRequest)
        ensures
            r@ == (AnthropicRequestView {
                model: model@,
                max_tokens,
                messages: messages@.map_values(|message: MessageParam| message@),
            }),
    {
        AnthropicRequest { model: model.to_owned(), max_tokens, messages }
    }

    /// Adds a message at the end of the conversation.
    pub fn message(self, message: MessageParam) -> (r: AnthropicRequest)
        ensures
            r@ == (AnthropicRequestView {
                model: self@.model,
                max_tokens: self@.max_tokens,
                messages: self@.messages.push(message@),
            }),
    {
        let mut request = self;
        request.messages.push(message);
        proof {
            assert(request@.messages =~= self@.messages.push(message@));
        }
        request
    }
}

/// One block of an answer.
#[derive(Debug, Clone, PartialEq, Eq)]
pub struct Content {
    pub text: String,
    /// The block's kind as the API names it.
    pub content_type: String,
}

pub ghost struct ContentView {
    pub text: Seq<char>,
    pub content_type: Seq<char>,
}

impl View for Content {
    type V = ContentView;

    open spec fn view(&self) -> ContentView {
        ContentView { text: self.text@, content_type: self.content_type@ }
    }
}

/// The tokens that a call was billed for.
#[derive(Debug, Clone, Copy, PartialEq, Eq)]
pub struct Usage {
    pub input_tokens: usize,
    pub output_tokens: usize,
}

impl View for Usage {
    type V = Usage;

    open spec fn view(&self) -> Usage {
        *self
    }
}

/// An answer of the model.
#[derive(Debug, Clone, PartialEq, Eq)]
pub struct SuccessResponse {
    pub content: Vec<Content>,
    pub id: String,
    pub model: String,
    pub role: String,
    pub stop_reason: String,
    pub stop_sequence: Option<String>,
    /// What the document says it is: `"message"`.
    pub response_type: String,
    pub usage: Usage,
}

pub ghost struct SuccessResponseView {
    pub content: Seq<ContentView>,
    pub id: Seq<char>,
    pub model: Seq<char>,
    pub role: Seq<char>,
    pub stop_reason: Seq<char>,
    pub stop_sequence: Option<Seq<char>>,
    pub response_type: Seq<char>,
    pub usage: Usage,
}

impl View for SuccessResponse {
    type V = SuccessResponseView;

    open spec fn view(&self) -> SuccessResponseView {
        SuccessResponseView {
            content: self.content@.map_values(|block: Content| block@),
            id: self.id@,
            model: self.model@,
            role: self.role@,
            stop_reason: self.stop_reason@,
            stop_sequence: match self.stop_sequence {
                Some(text) => Some(text@),
                None => None,
            },
            response_type: self.response_type@,
            usage: self.usage,
        }
    }
}

/// What the API says went wrong.
#[derive(Debug, Clone, PartialEq, Eq)]
pub struct ErrorInfo {
    pub error_type: String,
    pub message: String,
}

pub ghost struct ErrorInfoView {
    pub error_type: Seq<char>,
    pub message: Seq<char>,
}

impl View for ErrorInfo {
    type V = ErrorInfoView;

    open spec fn view(&self) -> ErrorInfoView {
        ErrorInfoView { error_type: self.error_type@, message: self.message@ }
    }
}

/// A refusal of the API.
#[derive(Debug, Clone, PartialEq, Eq)]
pub struct ErrorResponse {
    /// What the document says it is: `"error"`.
    pub error_type: String,
    pub error: ErrorInfo,
}

pub ghost struct ErrorResponseView {
    pub error_type: Seq<char>,
    pub error: ErrorInfoView,
}

impl View for ErrorResponse {
    type V = ErrorResponseView;

    open spec fn view(&self) -> ErrorResponseView {
        ErrorResponseView { error_type: self.error_type@, error: self.error@ }
    }
}

/// What the API sent back.
#[derive(Debug, Clone, PartialEq, Eq)]
pub enum AnthropicResponse {
    Success(SuccessResponse),
    Error(ErrorResponse),
}

pub ghost enum AnthropicResponseView {
    Success(SuccessResponseView),
    Error(ErrorResponseView),
}

impl View for AnthropicResponse {
    type V = AnthropicResponseView;

    open spec fn view(&self) -> AnthropicResponseView {
        match self {
            AnthropicResponse::Success(message) => AnthropicResponseView::Success(message@),
            AnthropicResponse::Error(error) => AnthropicResponseView::Error(error@),
        }
    }
}

} // verus!
