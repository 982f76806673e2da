use redis_protocol::types::Frame as ProtocolFrame;
use vstd::prelude::*;
use vstd::utf8::{decode_utf8, valid_utf8};

verus! {

/// The codec's frame type. The layer never looks inside a value of it: the
/// elements of an array reply are carried through untouched.
#[verifier::external_type_specification]
#[verifier::external_body]
pub struct ExProtocolFrame(redis_protocol::types::Frame);

/// One protocol message as this layer reads it: the variant and its payload.
#[derive(Debug)]
pub enum Reply {
    SimpleString(String),
    Error(String),
    Integer(i64),
    BulkString(Vec<u8>),
    Array(Vec<ProtocolFrame>),
    Moved(String),
    Ask(String),
    Null,
}

/// What a frame is in contracts.
pub enum ReplyView {
    SimpleString(Seq<char>),
    Error(Seq<char>),
    Integer(i64),
    BulkString(Seq<u8>),
    Array(Seq<ProtocolFrame>),
    Moved(Seq<char>),
    Ask(Seq<char>),
    Null,
}

impl View for Reply {
    type V = ReplyView;

    open spec fn view(&self) -> ReplyView {
        match self {
            Reply::SimpleString(s) => ReplyView::SimpleString(s@),
            Reply::Error(s) => ReplyView::Error(s@),
            Reply::Integer(i) => ReplyView::Integer(*i),
            Reply::BulkString(b) => ReplyView::BulkString(b@),
            Reply::Array(v) => ReplyView::Array(v@),
            Reply::Moved(s) => ReplyView::Moved(s@),
            Reply::Ask(s) => ReplyView::Ask(s@),
            Reply::Null => ReplyView::Null,
        }
    }
}

impl ReplyView {
    /// An error reply: a plain error or one of the two cluster redirections.
    pub open spec fn is_error(self) -> bool {
        self is Error || self is Moved || self is Ask
    }

    /// The text that a reply carries: that of a simple string, or that of a
    /// bulk string whose bytes are valid UTF-8. No other reply carries text.
    pub open spec fn text(self) -> Option<Seq<char>> {
        match self {
            ReplyView::SimpleString(s) => Some(s),
            ReplyView::BulkString(b) => if valid_utf8(b) {
                Some(decode_utf8(b))
            } else {
                None
            },
            _ => None,
        }
    }
}

/// The text that the codec's frame type prints for a frame when it is
/// formatted for diagnostics.
pub uninterp spec fn reply_debug_text(frame: ReplyView) -> Seq<char>;

/// Calls `redis_protocol::types::Reply::is_error` on the codec's form of the
/// frame: true for `Error`, `Moved` and `Ask`, false for every other variant.
#[verifier::external_body]
fn protocol_is_error(frame: &Reply) -> (res: bool)
    ensures
        res == frame@.is_error(),
{
    let p = match frame {
        Reply::SimpleString(s) => ProtocolFrame::SimpleString(s.clone()),
        Reply::Error(s) => ProtocolFrame::Error(s.clone()),
        Reply::Integer(i) => ProtocolFrame::Integer(*i),
        Reply::BulkString(b) => ProtocolFrame::BulkString(b.clone()),
        Reply::Array(v) => ProtocolFrame::Array(v.clone()),
        Reply::Moved(s) => ProtocolFrame::Moved(s.clone()),
        Reply::Ask(s) => ProtocolFrame::Ask(s.clone()),
        Reply::Null => ProtocolFrame::Null,
    };
    p.is_error()
}

/// Calls `redis_protocol::types::Reply::to_string` on the codec's form of the
/// frame: a copy of a simple string, the decoded text of a bulk string whose
/// bytes are valid UTF-8, and nothing for any other frame.
#[verifier::external_body]
fn protocol_to_string(frame: &Reply) -> (res: Option<String>)
    ensures
        res is Some <==> frame@.text() is Some,
        res is Some ==> res->0@ == frame@.text()->0,
{
    let p = match frame {
        Reply::SimpleString(s) => ProtocolFrame::SimpleString(s.clone()),
        Reply::Error(s) => ProtocolFrame::Error(s.clone()),
        Reply::Integer(i) => ProtocolFrame::Integer(*i),
        Reply::BulkString(b) => ProtocolFrame::BulkString(b.clone()),
        Reply::Array(v) => ProtocolFrame::Array(v.clone()),
        Reply::Moved(s) => ProtocolFrame::Moved(s.clone()),
        Reply::Ask(s) => ProtocolFrame::Ask(s.clone()),
        Reply::Null => ProtocolFrame::Null,
    };
    p.to_string()
}

/// Formats the codec's form of the frame with the `Debug` impl that
/// `redis_protocol` derives for `Frame`. The text depends on the frame alone.
#[verifier::external_body]
fn protocol_debug(frame: &Reply) -> (res: String)
    ensures
        res@ == reply_debug_text(frame@),
{
    let p = match frame {
        Reply::SimpleString(s) => ProtocolFrame::SimpleString(s.clone()),
        Reply::Error(s) => ProtocolFrame::Error(s.clone()),
        Reply::Integer(i) => ProtocolFrame::Integer(*i),
        Reply::BulkString(b) => ProtocolFrame::BulkString(b.clone()),
        Reply::Array(v) => ProtocolFrame::Array(v.clone()),
        Reply::Moved(s) => ProtocolFrame::Moved(s.clone()),
        Reply::Ask(s) => ProtocolFrame::Ask(s.clone()),
        Reply::Null => ProtocolFrame::Null,
    };
    format!("{:?}", p)
}

impl Reply {
    /// Whether the frame is an error reply.
    pub fn is_error(&self) -> (res: bool)
        ensures
            res == self@.is_error(),
    {
        protocol_is_error(self)
    }

    /// The text of the frame, where it carries one.
    pub fn to_string(&self) -> (res: Option<String>)
        ensures
            res is Some <==> self@.text() is Some,
            res is Some ==> res->0@ == self@.text()->0,
    {
        protocol_to_string(self)
    }

    /// The diagnostic text of the frame.
    pub fn debug_text(&self) -> (res: String)
        ensures
            res@ == reply_debug_text(self@),
    {
        protocol_debug(self)
    }
}

} // verus!
