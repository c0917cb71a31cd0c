//! What the headers of a response say about its body.

use vstd::prelude::*;
use crate::decimal::{decimal_value, is_digit, parse_decimal, unsigned_part};
use crate::text::{is_visible_ascii, visible_text, visible_text_of};

verus! {

/// The name of the header that announces the length of the body.
pub const LENGTH_HEADER: &'static str = "content-length";

/// The name of the header that names the media type of the body.
pub const TYPE_HEADER: &'static str = "content-type";

/// The head of a response as it came: the status code and the raw values of
/// the two headers that are read, `LENGTH_HEADER` and `TYPE_HEADER`, each
/// absent where the response has none. Header names match in any case.
#[derive(Debug, PartialEq, Eq)]
pub struct ResponseHead {
    pub status: u16,
    pub content_length: Option<Vec<u8>>,
    pub content_type: Option<Vec<u8>>,
}

/// The mathematical value of a `ResponseHead`.
pub struct HeadView {
    pub status: u16,
    pub content_length: Option<Seq<u8>>,
    pub content_type: Option<Seq<u8>>,
}

impl View for ResponseHead {
    type V = HeadView;

    open spec fn view(&self) -> HeadView {
        HeadView {
            status: self.status,
            content_length: match self.content_length {
                Some(v) => Some(v@),
                None => None,
            },
            content_type: match self.content_type {
                Some(v) => Some(v@),
                None => None,
            },
        }
    }
}

/// The mathematical value of a `ResponseMetadata`.
pub struct MetadataView {
    pub status: u16,
    pub content_length: Option<u64>,
    pub content_type: Option<Seq<char>>,
}

/// The length that a `Content-Length` value announces: the number that its
/// text denotes. A value that is no text, or whose text is no number of 64
/// bits, announces nothing.
pub open spec fn content_length_of(value: Seq<u8>) -> Option<u64> {
    match visible_text_of(value) {
        Some(_) => decimal_value(value),
        None => None,
    }
}

/// What a head says: the status as it is, the length that is announced, and
/// the media type as text.
pub open spec fn metadata_of(head: HeadView) -> MetadataView {
    MetadataView {
        status: head.status,
        content_length: match head.content_length {
            Some(v) => content_length_of(v),
            None => None,
        },
        content_type: match head.content_type {
            Some(v) => visible_text_of(v),
            None => None,
        },
    }
}

/// Whatever denotes a number is visible text, so a length can be read from
/// the bytes of a value directly.
pub proof fn lemma_number_is_text(value: Seq<u8>)
    ensures
        content_length_of(value) == decimal_value(value),
{
    if decimal_value(value) is Some {
        let digits = unsigned_part(value);
        assert forall|i: int| 0 <= i < value.len() implies is_visible_ascii(
            #[trigger] value[i],
        ) by {
            if digits.len() == value.len() {
                assert(is_digit(digits[i]));
            } else if i > 0 {
                assert(is_digit(digits[i - 1]));
            }
        }
    }
}

/// What is known of a response once its head was read.
#[derive(Debug, PartialEq, Eq)]
pub struct ResponseMetadata {
    status: u16,
    content_length: Option<u64>,
    content_type: Option<String>,
}

impl View for ResponseMetadata {
    type V = MetadataView;

    closed spec fn view(&self) -> MetadataView {
        MetadataView {
            status: self.status,
            content_length: self.content_length,
            content_type: match self.content_type {
                Some(t) => Some(t@),
                None => None,
            },
        }
    }
}

impl ResponseMetadata {
    /// Reads the head of a response.
    pub fn read(head: &ResponseHead) -> (metadata: ResponseMetadata)
        ensures
            metadata@ == metadata_of(head@),
    {
        let content_length = match &head.content_length {
            Some(value) => {
                proof {
                    lemma_number_is_text(value@);
                }
                parse_decimal(value.as_slice())
            },
            None => None,
        };
        let content_type = match &head.content_type {
            Some(value) => visible_text(value.as_slice()),
            None => None,
        };
        ResponseMetadata { status: head.status, content_length, content_type }
    }

    /// The status code of the response.
    pub fn status(&self) -> (status: u16)
        ensures
            status == self@.status,
    {
        self.status
    }

    /// The length of the body in bytes, where the server announced one.
    pub fn content_length(&self) -> (length: Option<u64>)
        ensures
            length == self@.content_length,
    {
        self.content_length
    }

    /// The media type of the body, where the server named one.
    pub fn content_type(&self) -> (media_type: Option<&str>)
        ensures
            match media_type {
                Some(t) => self@.content_type == Some(t@),
                None => self@.content_type is None,
            },
    {
        match &self.content_type {
            Some(t) => Some(t.as_str()),
            None => None,
        }
    }
}

} // verus!
