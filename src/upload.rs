//! One conversion request, field by field: the decisions between reading the
//! multipart body and running the transcoder.
use vstd::prelude::*;
use crate::format::{normalized_field, Format};
use crate::naming::{output_path, output_path_spec, transcoder_args, transcoder_args_spec};
use crate::reply::{conversion_reply, conversion_reply_spec, no_file_reply, no_file_reply_spec, text_view, Reply};

verus! {

/// What a multipart field is to a conversion request.
#[derive(Clone, Copy, Debug, PartialEq, Eq, Structural)]
pub enum FieldKind {
    /// The uploaded media, to be stored in a temporary file.
    File,
    /// The requested target format, as text.
    Format,
    /// Anything else: ignored.
    Other,
}

pub open spec fn field_kind_spec(name: Seq<char>) -> FieldKind {
    if name == "file"@ {
        FieldKind::File
    } else if name == "format"@ {
        FieldKind::Format
    } else {
        FieldKind::Other
    }
}

/// The kind of a field by its name; a field without a name has the empty name.
pub fn classify_field(name: &str) -> (r: FieldKind)
    ensures
        r == field_kind_spec(name@),
{
    let given = String::from_str(name);
    if given == String::from_str("file") {
        FieldKind::File
    } else if given == String::from_str("format") {
        FieldKind::Format
    } else {
        FieldKind::Other
    }
}

/// The target format after a field naming `name` (already normalized):
/// a name on the allow-list replaces `current`, anything else keeps it.
pub open spec fn next_target(current: Format, name: Seq<char>) -> Format {
    match Format::parse_spec(name) {
        Some(f) => f,
        None => current,
    }
}

/// A request whose fields are being read.
pub struct Upload {
    input: Option<String>,
    target: Format,
}

pub struct UploadView {
    /// The temporary file holding the upload, once a `file` field was stored.
    pub input: Option<Seq<char>>,
    pub target: Format,
}

impl View for Upload {
    type V = UploadView;

    closed spec fn view(&self) -> UploadView {
        UploadView { input: text_view(self.input), target: self.target }
    }
}

/// A transcoder run: convert `input` into `output`, the file of `format`.
pub struct Invocation {
    input: String,
    output: String,
    format: Format,
}

pub struct InvocationView {
    pub input: Seq<char>,
    pub output: Seq<char>,
    pub format: Format,
}

impl View for Invocation {
    type V = InvocationView;

    closed spec fn view(&self) -> InvocationView {
        InvocationView { input: self.input@, output: self.output@, format: self.format }
    }
}

/// The run for an upload stored at `input` with target `format`.
pub open spec fn invocation_spec(input: Seq<char>, format: Format) -> InvocationView {
    InvocationView { input, output: output_path_spec(format), format }
}

/// What follows once every field was read.
pub enum Step {
    /// Reply at once; nothing was stored and nothing is run.
    Respond(Reply),
    /// Run the transcoder, then remove its input and reply.
    Invoke(Invocation),
}

impl Upload {
    /// A request before any field: no upload, the default target format.
    pub fn new() -> (r: Upload)
        ensures
            r@.input == None::<Seq<char>>,
            r@.target == Format::default_spec(),
    {
        Upload { input: None, target: Format::default_target() }
    }

    pub fn target(&self) -> (r: Format)
        ensures
            r == self@.target,
    {
        self.target
    }

    pub fn has_file(&self) -> (r: bool)
        ensures
            r == self@.input is Some,
    {
        self.input.is_some()
    }

    /// Records that a `file` field was stored at `path`. A file stored by an
    /// earlier `file` field is handed back: it is no longer used, and the
    /// caller removes it.
    pub fn file_stored(&mut self, path: String) -> (displaced: Option<String>)
        ensures
            final(self)@.input == Some(path@),
            final(self)@.target == old(self)@.target,
            text_view(displaced) == old(self)@.input,
    {
        let displaced = self.input.take();
        self.input = Some(path);
        displaced
    }

    /// Applies a `format` field whose text was already trimmed and lower-cased.
    pub fn apply_format(&mut self, normalized: &str)
        ensures
            final(self)@.input == old(self)@.input,
            final(self)@.target == next_target(old(self)@.target, normalized@),
    {
        match Format::from_name(normalized) {
            Some(f) => {
                self.target = f;
            },
            None => {},
        }
    }

    /// Applies the text of a `format` field: trimmed and lower-cased, it
    /// replaces the target format when it is on the allow-list.
    pub fn format_field(&mut self, text: &str)
        ensures
            final(self)@.input == old(self)@.input,
            final(self)@.target == next_target(old(self)@.target, normalized_field(text@)),
    {
        match Format::from_field_text(text) {
            Some(f) => {
                self.target = f;
            },
            None => {},
        }
    }

    /// Gives the request up before the transcoder runs: the stored upload,
    /// if any, is handed back for removal.
    pub fn abandon(self) -> (stored: Option<String>)
        ensures
            text_view(stored) == self@.input,
    {
        self.input
    }

    /// Ends the reading of fields: without an upload the request is answered
    /// with an error; with one, the transcoder is run on it.
    pub fn finish(self) -> (step: Step)
        ensures
            self@.input is None ==> (step matches Step::Respond(r) && r@ == no_file_reply_spec()),
            self@.input matches Some(p) ==> (step matches Step::Invoke(inv) && inv@
                == invocation_spec(p, self@.target)),
    {
        let target = self.target;
        match self.input {
            None => Step::Respond(no_file_reply()),
            Some(input) => Step::Invoke(Invocation { input, output: output_path(target), format: target }),
        }
    }
}

impl Invocation {
    /// The output is always the file of the run's format.
    #[verifier::type_invariant]
    closed spec fn output_matches_format(self) -> bool {
        self.output@ == output_path_spec(self.format)
    }

    /// The stored upload the transcoder reads; removed once the run ended.
    pub fn input(&self) -> (r: &String)
        ensures
            r@ == self@.input,
    {
        &self.input
    }

    /// The file the transcoder writes.
    pub fn output(&self) -> (r: &String)
        ensures
            r@ == self@.output,
            r@ == output_path_spec(self@.format),
    {
        proof {
            use_type_invariant(self);
        }
        &self.output
    }

    pub fn format(&self) -> (r: Format)
        ensures
            r == self@.format,
    {
        self.format
    }

    /// The transcoder's arguments: overwrite the output, read the input,
    /// write the output.
    pub fn args(&self) -> (r: Vec<String>)
        ensures
            r@.len() == 4,
            forall|i: int|
                0 <= i < 4 ==> #[trigger] r@[i]@ == transcoder_args_spec(self@.input, self@.output)[i],
    {
        transcoder_args(self.input.as_str(), self.output.as_str())
    }

    /// The reply once the run ended: `succeeded` only when the transcoder
    /// started and exited with success; `size_bytes` is the output file's size
    /// when it could be read.
    pub fn reply(&self, succeeded: bool, size_bytes: Option<u64>) -> (r: Reply)
        ensures
            r@ == conversion_reply_spec(self@.format, succeeded, size_bytes),
            succeeded ==> r@.output == Some(self@.output),
    {
        proof {
            use_type_invariant(self);
        }
        conversion_reply(self.format, succeeded, size_bytes)
    }
}

/// Two runs for the same target format write the same output file, whatever
/// their inputs: concurrent requests for one format overwrite each other's
/// output.
pub proof fn same_target_same_output(p: Seq<char>, q: Seq<char>, f: Format)
    ensures
        invocation_spec(p, f).output == invocation_spec(q, f).output,
        p != q ==> invocation_spec(p, f).input != invocation_spec(q, f).input,
{
}

} // verus!
