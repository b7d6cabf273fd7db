//! The JSON-ready outcome of a request.
use vstd::prelude::*;
use crate::format::Format;
use crate::naming::{output_path, output_path_spec};

verus! {

/// The `status` discriminator of a reply.
#[derive(Clone, Copy, Debug, PartialEq, Eq, Structural)]
pub enum Status {
    /// The service describes itself.
    Ready,
    /// The transcoder produced the output file.
    Success,
    /// The transcoder could not be run or reported failure.
    Failed,
    /// The request itself could not be served.
    Error,
}

impl Status {
    pub open spec fn text_spec(self) -> Seq<char> {
        match self {
            Status::Ready => "ok"@,
            Status::Success => "success"@,
            Status::Failed => "failed"@,
            Status::Error => "error"@,
        }
    }

    /// The text of the `status` field.
    pub fn as_str(&self) -> (r: &'static str)
        ensures
            r@ == self.text_spec(),
    {
        match self {
            Status::Ready => "ok",
            Status::Success => "success",
            Status::Failed => "failed",
            Status::Error => "error",
        }
    }
}

/// A reply: its status, a message, and the fields that only some replies carry.
#[derive(Debug)]
pub struct Reply {
    pub status: Status,
    pub message: String,
    pub hint: Option<String>,
    pub output: Option<String>,
    pub size_bytes: Option<u64>,
}

pub struct ReplyView {
    pub status: Status,
    pub message: Seq<char>,
    pub hint: Option<Seq<char>>,
    pub output: Option<Seq<char>>,
    pub size_bytes: Option<u64>,
}

pub open spec fn text_view(o: Option<String>) -> Option<Seq<char>> {
    match o {
        Some(s) => Some(s@),
        None => None,
    }
}

impl View for Reply {
    type V = ReplyView;

    open spec fn view(&self) -> ReplyView {
        ReplyView {
            status: self.status,
            message: self.message@,
            hint: text_view(self.hint),
            output: text_view(self.output),
            size_bytes: self.size_bytes,
        }
    }
}

/// The service's description of itself.
pub open spec fn root_reply_spec() -> ReplyView {
    ReplyView {
        status: Status::Ready,
        message: "Ruby Chan Multi-Format Converter"@,
        hint: Some("POST /api/audio/convert → file + format (mp3,m4a,ogg,flac,aac,wav)"@),
        output: None,
        size_bytes: None,
    }
}

/// The reply to a request that carried no `file` part.
pub open spec fn no_file_reply_spec() -> ReplyView {
    ReplyView {
        status: Status::Error,
        message: "No file uploaded"@,
        hint: None,
        output: None,
        size_bytes: None,
    }
}

/// The reply to a request whose upload could not be written to disk.
pub open spec fn storage_error_reply_spec() -> ReplyView {
    ReplyView {
        status: Status::Error,
        message: "Upload could not be stored"@,
        hint: None,
        output: None,
        size_bytes: None,
    }
}

/// The reply once the transcoder ran for `format`: on success it names the
/// output file and carries its size when that could be read.
pub open spec fn conversion_reply_spec(
    format: Format,
    succeeded: bool,
    size_bytes: Option<u64>,
) -> ReplyView {
    if succeeded {
        ReplyView {
            status: Status::Success,
            message: "Converted to "@ + format.name_spec() + "!"@,
            hint: None,
            output: Some(output_path_spec(format)),
            size_bytes: size_bytes,
        }
    } else {
        ReplyView {
            status: Status::Failed,
            message: "Conversion failed"@,
            hint: None,
            output: None,
            size_bytes: None,
        }
    }
}

/// The reply to `GET /api`: the same on every call.
pub fn api_root() -> (r: Reply)
    ensures
        r@ == root_reply_spec(),
{
    Reply {
        status: Status::Ready,
        message: String::from_str("Ruby Chan Multi-Format Converter"),
        hint: Some(
            String::from_str("POST /api/audio/convert → file + format (mp3,m4a,ogg,flac,aac,wav)"),
        ),
        output: None,
        size_bytes: None,
    }
}

pub fn no_file_reply() -> (r: Reply)
    ensures
        r@ == no_file_reply_spec(),
{
    Reply {
        status: Status::Error,
        message: String::from_str("No file uploaded"),
        hint: None,
        output: None,
        size_bytes: None,
    }
}

pub fn storage_error_reply() -> (r: Reply)
    ensures
        r@ == storage_error_reply_spec(),
{
    Reply {
        status: Status::Error,
        message: String::from_str("Upload could not be stored"),
        hint: None,
        output: None,
        size_bytes: None,
    }
}

/// The reply once the transcoder ran for `format`; `size_bytes` is the
/// output file's size when it could be read.
pub fn conversion_reply(format: Format, succeeded: bool, size_bytes: Option<u64>) -> (r: Reply)
    ensures
        r@ == conversion_reply_spec(format, succeeded, size_bytes),
{
    if succeeded {
        let mut message = String::from_str("Converted to ");
        message.append(format.name());
        message.append("!");
        Reply {
            status: Status::Success,
            message,
            hint: None,
            output: Some(output_path(format)),
            size_bytes,
        }
    } else {
        Reply {
            status: Status::Failed,
            message: String::from_str("Conversion failed"),
            hint: None,
            output: None,
            size_bytes: None,
        }
    }
}

} // verus!
