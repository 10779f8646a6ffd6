//! What can go wrong, and where in a document it went wrong.

use vstd::prelude::*;

verus! {

/// The member names of the messages API's documents.
#[derive(Debug, Clone, Copy, PartialEq, Eq)]
pub enum Field {
    Model,
    MaxTokens,
    Messages,
    Role,
    Content,
    Type,
    Text,
    Source,
    MediaType,
    Data,
    Id,
    StopReason,
    StopSequence,
    Usage,
    InputTokens,
    OutputTokens,
    Error,
    Message,
}

impl Field {
    /// The name as it stands in a document.
    pub open spec fn key(self) -> Seq<char> {
        match self {
            Field::Model => "model"@,
            Field::MaxTokens => "max_tokens"@,
            Field::Messages => "messages"@,
            Field::Role => "role"@,
            Field::Content => "content"@,
            Field::Type => "type"@,
            Field::Text => "text"@,
            Field::Source => "source"@,
            Field::MediaType => "media_type"@,
            Field::Data => "data"@,
            Field::Id => "id"@,
            Field::StopReason => "stop_reason"@,
            Field::StopSequence => "stop_sequence"@,
            Field::Usage => "usage"@,
            Field::InputTokens => "input_tokens"@,
            Field::OutputTokens => "output_tokens"@,
            Field::Error => "error"@,
            Field::Message => "message"@,
        }
    }

    /// The name as it stands in a document.
    pub fn name(self) -> (r: &'static str)
        ensures
            r@ == self.key(),
    {
        match self {
            Field::Model => "model",
            Field::MaxTokens => "max_tokens",
            Field::Messages => "messages",
            Field::Role => "role",
            Field::Content => "content",
            Field::Type => "type",
            Field::Text => "text",
            Field::Source => "source",
            Field::MediaType => "media_type",
            Field::Data => "data",
            Field::Id => "id",
            Field::StopReason => "stop_reason",
            Field::StopSequence => "stop_sequence",
            Field::Usage => "usage",
            Field::InputTokens => "input_tokens",
            Field::OutputTokens => "output_tokens",
            Field::Error => "error",
            Field::Message => "message",
        }
    }
}

/// What tells one member name from every other: its length and its first two
/// characters.
pub open spec fn fingerprint(key: Seq<char>) -> (nat, char, char) {
    (key.len(), key[0], key[1])
}

/// No two fields share a name.
pub proof fn lemma_keys_differ(a: Field, b: Field)
    requires
        a != b,
    ensures
        a.key() != b.key(),
{
    reveal_strlit("model");
    reveal_strlit("max_tokens");
    reveal_strlit("messages");
    reveal_strlit("role");
    reveal_strlit("content");
    reveal_strlit("type");
    reveal_strlit("text");
    reveal_strlit("source");
    reveal_strlit("media_type");
    reveal_strlit("data");
    reveal_strlit("id");
    reveal_strlit("stop_reason");
    reveal_strlit("stop_sequence");
    reveal_strlit("usage");
    reveal_strlit("input_tokens");
    reveal_strlit("output_tokens");
    reveal_strlit("error");
    reveal_strlit("message");
    assert(fingerprint(a.key()) != fingerprint(b.key()));
}

/// One step from a document towards a part of it.
#[derive(Debug, Clone, Copy, PartialEq, Eq)]
pub enum Step {
    /// Into the member of this name.
    Field(Field),
    /// Into the item at this position of an array.
    Index(usize),
}

/// The mathematical value of a [`DeserializationError`].
pub ghost enum Fault {
    Syntax { line: usize, column: usize },
    Missing { path: Seq<Step> },
    Invalid { path: Seq<Step> },
}

impl Fault {
    /// The same fault, seen from the document that holds the faulty one at `step`.
    pub open spec fn under(self, step: Step) -> Fault {
        match self {
            Fault::Syntax { line, column } => Fault::Syntax { line, column },
            Fault::Missing { path } => Fault::Missing { path: seq![step] + path },
            Fault::Invalid { path } => Fault::Invalid { path: seq![step] + path },
        }
    }
}

/// Why a text or a document could not be read as what was expected.
#[derive(Debug, Clone, PartialEq, Eq)]
pub enum DeserializationError {
    /// The text is no JSON document; the position is where reading stopped.
    Syntax { line: usize, column: usize },
    /// The part at `path` is required and absent.
    Missing { path: Vec<Step> },
    /// The part at `path` is there and is not what the shape allows.
    Invalid { path: Vec<Step> },
}

impl View for DeserializationError {
    type V = Fault;

    open spec fn view(&self) -> Fault {
        match self {
            DeserializationError::Syntax { line, column } => Fault::Syntax {
                line: *line,
                column: *column,
            },
            DeserializationError::Missing { path } => Fault::Missing { path: path@ },
            DeserializationError::Invalid { path } => Fault::Invalid { path: path@ },
        }
    }
}

impl DeserializationError {
    /// The member `field` of the document at hand is absent.
    pub fn missing(field: Field) -> (r: DeserializationError)
        ensures
            r@ == (Fault::Missing { path: seq![Step::Field(field)] }),
    {
        let mut path: Vec<Step> = Vec::new();
        path.push(Step::Field(field));
        DeserializationError::Missing { path }
    }

    /// The document at hand is not what the shape allows.
    pub fn invalid() -> (r: DeserializationError)
        ensures
            r@ == (Fault::Invalid { path: Seq::empty() }),
    {
        DeserializationError::Invalid { path: Vec::new() }
    }

    /// The same error, seen from the document that holds the faulty one at `step`.
    pub fn under(self, step: Step) -> (r: DeserializationError)
        ensures
            r@ == self@.under(step),
    {
        match self {
            DeserializationError::Syntax { line, column } => DeserializationError::Syntax {
                line,
                column,
            },
            DeserializationError::Missing { path } => {
                let mut path = path;
                let ghost before = path@;
                path.insert(0, step);
                proof {
                    assert(path@ =~= seq![step] + before);
                }
                DeserializationError::Missing { path }
            },
            DeserializationError::Invalid { path } => {
                let mut path = path;
                let ghost before = path@;
                path.insert(0, step);
                proof {
                    assert(path@ =~= seq![step] + before);
                }
                DeserializationError::Invalid { path }
            },
        }
    }
}

/// The value of a `Result` whose two sides have one.
pub open spec fn result_view<T: View, E: View>(r: Result<T, E>) -> Result<T::V, E::V> {
    match r {
        Ok(value) => Ok(value@),
        Err(error) => Err(error@),
    }
}

} // verus!
