//! What the upload asks of the request builder: the options of a write and
//! the descriptions of its two requests.

use crate::buffer::ChunkedBytes;
use vstd::prelude::*;

verus! {

/// The options of one write. They travel with the create request.
#[derive(Debug, PartialEq, Eq)]
pub struct OpWrite {
    content_type: Option<String>,
    content_disposition: Option<String>,
    cache_control: Option<String>,
}

/// The model of [`OpWrite`]: each option as the text it holds, if it is set.
pub struct OpWriteView {
    pub content_type: Option<Seq<char>>,
    pub content_disposition: Option<Seq<char>>,
    pub cache_control: Option<Seq<char>>,
}

/// The text of an optional string.
pub open spec fn text_of(value: Option<String>) -> Option<Seq<char>> {
    match value {
        Some(s) => Some(s@),
        None => None,
    }
}

fn copy_text(value: &Option<String>) -> (copy: Option<String>)
    ensures
        copy == *value,
{
    match value {
        Some(s) => Some(s.clone()),
        None => None,
    }
}

fn borrow_text(value: &Option<String>) -> (text: Option<&str>)
    ensures
        text is Some <==> *value is Some,
        text matches Some(t) ==> text_of(*value) == Some(t@),
{
    match value {
        Some(s) => Some(s.as_str()),
        None => None,
    }
}

impl View for OpWrite {
    type V = OpWriteView;

    closed spec fn view(&self) -> OpWriteView {
        OpWriteView {
            content_type: text_of(self.content_type),
            content_disposition: text_of(self.content_disposition),
            cache_control: text_of(self.cache_control),
        }
    }
}

impl OpWrite {
    /// Options with nothing set.
    pub fn new() -> (op: OpWrite)
        ensures
            op@ == (OpWriteView {
                content_type: None,
                content_disposition: None,
                cache_control: None,
            }),
    {
        OpWrite { content_type: None, content_disposition: None, cache_control: None }
    }

    /// The content type of the file, if one is set.
    pub fn content_type(&self) -> (text: Option<&str>)
        ensures
            text is Some <==> self@.content_type is Some,
            text matches Some(t) ==> self@.content_type == Some(t@),
    {
        borrow_text(&self.content_type)
    }

    /// These options with the content type set to `content_type`.
    pub fn with_content_type(self, content_type: &str) -> (op: OpWrite)
        ensures
            op@ == (OpWriteView { content_type: Some(content_type@), ..self@ }),
    {
        OpWrite { content_type: Some(content_type.to_owned()), ..self }
    }

    /// The content disposition of the file, if one is set.
    pub fn content_disposition(&self) -> (text: Option<&str>)
        ensures
            text is Some <==> self@.content_disposition is Some,
            text matches Some(t) ==> self@.content_disposition == Some(t@),
    {
        borrow_text(&self.content_disposition)
    }

    /// These options with the content disposition set to
    /// `content_disposition`.
    pub fn with_content_disposition(self, content_disposition: &str) -> (op: OpWrite)
        ensures
            op@ == (OpWriteView { content_disposition: Some(content_disposition@), ..self@ }),
    {
        OpWrite { content_disposition: Some(content_disposition.to_owned()), ..self }
    }

    /// The cache control of the file, if one is set.
    pub fn cache_control(&self) -> (text: Option<&str>)
        ensures
            text is Some <==> self@.cache_control is Some,
            text matches Some(t) ==> self@.cache_control == Some(t@),
    {
        borrow_text(&self.cache_control)
    }

    /// These options with the cache control set to `cache_control`.
    pub fn with_cache_control(self, cache_control: &str) -> (op: OpWrite)
        ensures
            op@ == (OpWriteView { cache_control: Some(cache_control@), ..self@ }),
    {
        OpWrite { cache_control: Some(cache_control.to_owned()), ..self }
    }

    /// A copy of these options.
    pub fn duplicate(&self) -> (op: OpWrite)
        ensures
            op@ == self@,
    {
        OpWrite {
            content_type: copy_text(&self.content_type),
            content_disposition: copy_text(&self.content_disposition),
            cache_control: copy_text(&self.cache_control),
        }
    }
}

/// The body of a request.
#[derive(Debug, PartialEq, Eq)]
pub enum AsyncBody {
    /// No body at all.
    Empty,
    /// One payload, joined from the ranges of a byte source.
    ChunkedBytes(ChunkedBytes),
}

/// The model of [`AsyncBody`].
pub enum BodyView {
    Empty,
    ChunkedBytes(Seq<u8>),
}

impl View for AsyncBody {
    type V = BodyView;

    open spec fn view(&self) -> BodyView {
        match self {
            AsyncBody::Empty => BodyView::Empty,
            AsyncBody::ChunkedBytes(bytes) => BodyView::ChunkedBytes(bytes@),
        }
    }
}

/// What the request builder needs for the create request.
#[derive(Debug, PartialEq, Eq)]
pub struct CreateRequest {
    /// The path of the file to create.
    pub path: String,
    /// The kind of resource to create.
    pub resource: &'static str,
    /// The options of the write.
    pub op: OpWrite,
    /// The body of the request.
    pub body: AsyncBody,
}

/// The model of [`CreateRequest`].
pub struct CreateRequestView {
    pub path: Seq<char>,
    pub resource: Seq<char>,
    pub op: OpWriteView,
    pub body: BodyView,
}

impl View for CreateRequest {
    type V = CreateRequestView;

    open spec fn view(&self) -> CreateRequestView {
        CreateRequestView {
            path: self.path@,
            resource: self.resource@,
            op: self.op@,
            body: self.body@,
        }
    }
}

/// What the request builder needs for the request that writes the content.
#[derive(Debug, PartialEq, Eq)]
pub struct UpdateRequest {
    /// The path of the file to write.
    pub path: String,
    /// The content length to declare.
    pub size: Option<usize>,
    /// The body of the request.
    pub body: AsyncBody,
}

/// The model of [`UpdateRequest`].
pub struct UpdateRequestView {
    pub path: Seq<char>,
    pub size: Option<usize>,
    pub body: BodyView,
}

impl View for UpdateRequest {
    type V = UpdateRequestView;

    open spec fn view(&self) -> UpdateRequestView {
        UpdateRequestView { path: self.path@, size: self.size, body: self.body@ }
    }
}

} // verus!
