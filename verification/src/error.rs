//! Error values of the protocol layer and the mapping between error numbers
//! and I/O error kinds.
use vstd::prelude::*;
use vstd::string::*;

verus! {

/// Why framing, encoding or decoding a message failed.
#[derive(Clone, Copy, Debug, PartialEq, Eq, Structural)]
pub enum ProtoError {
    /// The bytes do not form a valid 9P message.
    InvalidMessage,
    /// A string is longer than 0xffff bytes.
    StringTooLong,
    /// A data buffer is longer than 0xffffffff bytes.
    DataTooLong,
    /// A list of strings has more than 0xffff elements.
    StringVecTooLong,
    /// A list of qids has more than 0xffff elements.
    QidVecTooLong,
    /// The directory entries take more than 0xffffffff bytes.
    DirEntriesTooLong,
    /// The size announced in a frame header exceeds the receive buffer.
    SizeLimit,
}

/// The text of each error.
pub open spec fn proto_error_text(e: ProtoError) -> Seq<char> {
    match e {
        ProtoError::InvalidMessage => "invalid 9p message"@,
        ProtoError::StringTooLong => "string too long for 9p encoding"@,
        ProtoError::DataTooLong => "data buf too long for 9p encoding"@,
        ProtoError::StringVecTooLong => "string vec too long for 9p encoding"@,
        ProtoError::QidVecTooLong => "qid vec too long for 9p encoding"@,
        ProtoError::DirEntriesTooLong => "dir entry vec too long for encoding"@,
        ProtoError::SizeLimit => "9p remote violated protocol size limit"@,
    }
}

impl ProtoError {
    /// The human readable text of the error.
    pub fn message(&self) -> (r: &'static str)
        ensures
            r@ == proto_error_text(*self),
    {
        proof {
            reveal_strlit("9p remote violated protocol size limit");
            reveal_strlit("data buf too long for 9p encoding");
            reveal_strlit("dir entry vec too long for encoding");
            reveal_strlit("invalid 9p message");
            reveal_strlit("qid vec too long for 9p encoding");
            reveal_strlit("string too long for 9p encoding");
            reveal_strlit("string vec too long for 9p encoding");
        }
        match self {
            ProtoError::InvalidMessage => "invalid 9p message",
            ProtoError::StringTooLong => "string too long for 9p encoding",
            ProtoError::DataTooLong => "data buf too long for 9p encoding",
            ProtoError::StringVecTooLong => "string vec too long for 9p encoding",
            ProtoError::QidVecTooLong => "qid vec too long for 9p encoding",
            ProtoError::DirEntriesTooLong => "dir entry vec too long for encoding",
            ProtoError::SizeLimit => "9p remote violated protocol size limit",
        }
    }
}

/// The kinds of I/O error that error numbers are mapped to and from.
#[derive(Clone, Copy, Debug, PartialEq, Eq, Structural)]
pub enum ErrorKind {
    NotFound,
    PermissionDenied,
    ConnectionRefused,
    ConnectionReset,
    ConnectionAborted,
    NotConnected,
    AddrInUse,
    AddrNotAvailable,
    BrokenPipe,
    AlreadyExists,
    WouldBlock,
    InvalidInput,
    InvalidData,
    TimedOut,
    WriteZero,
    Interrupted,
    UnexpectedEof,
    Other,
}

/// An I/O error described by its kind and, for `Other`, the error number it
/// came from.
#[derive(Clone, Copy, Debug, PartialEq, Eq, Structural)]
pub struct IoError {
    pub kind: ErrorKind,
    pub ecode: Option<u32>,
}

} // verus!
