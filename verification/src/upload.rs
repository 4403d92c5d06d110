use vstd::prelude::*;
use vstd::pervasive::unreached;
use crate::decimal::{decimal_digits, u128_to_chars};
use crate::text::{
    ascii_lowercase, chars_end_with, chars_of, ends_with, push_chars, push_str, str_eq, string_of,
    to_ascii_lowercase, trim, trimmed,
};

verus! {

/// A stored upload: where it lies and what the sender called it.
#[derive(Debug, Clone, PartialEq)]
pub struct UploadedFile {
    pub temp_path: String,
    pub original_name: String,
}

/// A stored upload with the text fields that came with it.
#[derive(Debug, Clone, PartialEq)]
pub struct UploadedPdfRequest {
    pub temp_path: String,
    pub original_name: String,
    pub mode: Option<String>,
    pub engine: Option<String>,
}

/// Why an upload was not stored.
#[derive(Debug, Clone, Copy, PartialEq, Eq, Structural)]
pub enum UploadError {
    MissingFile,
    UnsupportedFileType,
    FileTooLarge,
    MultipartError,
    IoError,
}

/// What each error says.
pub open spec fn upload_error_text(error: UploadError) -> Seq<char> {
    match error {
        UploadError::MissingFile => "File not found"@,
        UploadError::UnsupportedFileType => "Only PDF files are supported"@,
        UploadError::FileTooLarge => "File is too large"@,
        UploadError::MultipartError => "Failed to parse upload"@,
        UploadError::IoError => "Failed to persist upload"@,
    }
}

impl UploadError {
    /// The error in words.
    pub fn message(&self) -> (text: String)
        ensures
            text@ == upload_error_text(*self),
    {
        match self {
            UploadError::MissingFile => "File not found".to_owned(),
            UploadError::UnsupportedFileType => "Only PDF files are supported".to_owned(),
            UploadError::FileTooLarge => "File is too large".to_owned(),
            UploadError::MultipartError => "Failed to parse upload".to_owned(),
            UploadError::IoError => "Failed to persist upload".to_owned(),
        }
    }
}

/// `uuid::Uuid::new_v4`, written out with `to_string`: a random
/// identifier, of which nothing is known beforehand.
#[verifier::external_body]
pub(crate) fn new_uuid_text() -> (id: String) {
    uuid::Uuid::new_v4().to_string()
}

/// The name of the file in which an upload is stored.
pub open spec fn upload_file_name(id: Seq<char>, epoch_ms: nat) -> Seq<char> {
    "ghost-upload-"@ + id + "-"@ + decimal_digits(epoch_ms) + ".pdf"@
}

/// The file name for an upload with the given identifier, received at the
/// given time in milliseconds since 1970.
pub fn name_upload_file(id: &str, epoch_ms: u128) -> (name: String)
    ensures
        name@ == upload_file_name(id@, epoch_ms as nat),
{
    let mut out = chars_of("ghost-upload-");
    push_str(&mut out, id);
    push_str(&mut out, "-");
    let digits = u128_to_chars(epoch_ms);
    push_chars(&mut out, &digits, 0, digits.len());
    assert(digits@.subrange(0, digits.len() as int) == digits@);
    push_str(&mut out, ".pdf");
    string_of(&out)
}

/// A file name for an upload received at the given time, with a fresh
/// random identifier in it.
pub fn fresh_upload_file_name(epoch_ms: u128) -> (name: String)
    ensures
        exists|id: Seq<char>| name@ == upload_file_name(id, epoch_ms as nat),
{
    let id = new_uuid_text();
    name_upload_file(id.as_str(), epoch_ms)
}

/// What a part of a multipart body says of itself.
#[derive(Debug, Clone, PartialEq)]
pub struct PartHeader {
    pub name: Option<String>,
    /// The file name that the part declares, or `document.pdf`.
    pub file_name: String,
    pub content_type: Option<String>,
}

impl PartHeader {
    /// The header of a part; a part without a file name is called
    /// `document.pdf`.
    pub fn new(name: Option<String>, file_name: Option<String>, content_type: Option<String>) -> (header:
        PartHeader)
        ensures
            header.name == name,
            header.content_type == content_type,
            header.file_name@ == match file_name {
                Some(given) => given@,
                None => "document.pdf"@,
            },
    {
        let file_name = match file_name {
            Some(given) => given,
            None => "document.pdf".to_owned(),
        };
        PartHeader { name, file_name, content_type }
    }
}

/// Whether an optional text is there and spells `word`.
pub open spec fn is_text(value: Option<String>, word: Seq<char>) -> bool {
    match value {
        Some(v) => v@ == word,
        None => false,
    }
}

fn option_is(value: &Option<String>, word: &str) -> (same: bool)
    ensures
        same == is_text(*value, word@),
{
    match value {
        Some(v) => str_eq(v.as_str(), word),
        None => false,
    }
}

/// Whether a part holds a PDF: its declared type says so, or its file name
/// ends in `.pdf`, in any case of letters.
pub open spec fn is_pdf_part(header: PartHeader) -> bool {
    is_text(header.content_type, "application/pdf"@) || ends_with(
        ascii_lowercase(header.file_name@),
        ".pdf"@,
    )
}

fn part_is_pdf(header: &PartHeader) -> (pdf: bool)
    ensures
        pdf == is_pdf_part(*header),
{
    if option_is(&header.content_type, "application/pdf") {
        return true;
    }
    let lower = to_ascii_lowercase(&chars_of(header.file_name.as_str()));
    chars_end_with(&lower, ".pdf")
}

/// The value of a text field: the trimmed text, or nothing where that is
/// empty.
pub fn field_value(raw: &str) -> (value: Option<String>)
    ensures
        match value {
            Some(v) => v@ == trim(raw@) && v@.len() > 0,
            None => trim(raw@).len() == 0,
        },
{
    let t = trimmed(raw);
    if t.len() == 0 {
        None
    } else {
        Some(string_of(&t))
    }
}

/// What the sink asks for next.
#[derive(Debug, PartialEq)]
pub enum SinkAction {
    /// Read the header of the next part.
    NextPart,
    /// Create a fresh file for the upload.
    CreateFile,
    /// Read the next chunk of the current part.
    ReadChunk,
    /// Append the chunk just read to the file.
    WriteChunk,
    /// Flush the file.
    Flush,
    /// Read the current part as text.
    ReadText,
    /// Delete the file at this path.
    RemoveFile { path: String },
    /// The sink is done, with this result.
    Finish(Result<UploadedPdfRequest, UploadError>),
}

/// What came of the action that the sink asked for.
#[derive(Debug, PartialEq)]
pub enum SinkEvent {
    /// The next part's header; `Ok(None)` at the end of the body.
    Part(Result<Option<PartHeader>, ()>),
    /// The path of the file that was created.
    FileCreated(Result<String, ()>),
    /// The length of the chunk that was read; `Ok(None)` at the end of the part.
    Chunk(Result<Option<usize>, ()>),
    Written(Result<(), ()>),
    Flushed(Result<(), ()>),
    /// The value of the text field, see `field_value`.
    Text(Result<Option<String>, ()>),
    /// The file is gone, or could not be deleted.
    Removed,
}

/// Where the sink stands.
#[derive(Debug, Clone, PartialEq)]
pub enum SinkPhase {
    /// Waiting for a part's header; `uploaded` is the file stored so far.
    Scanning { uploaded: Option<UploadedFile> },
    /// Waiting for the file to be created.
    Creating { original_name: String },
    /// Waiting for a chunk; `total` bytes are in the file.
    Receiving { file: UploadedFile, total: usize },
    /// Waiting for a chunk to be written; with it `total` bytes are in the file.
    Writing { file: UploadedFile, total: usize },
    /// Waiting for the flush.
    Flushing { file: UploadedFile },
    /// Waiting for the text of the field `mode`.
    ReadingMode { uploaded: Option<UploadedFile> },
    /// Waiting for the text of the field `engine`.
    ReadingEngine { uploaded: Option<UploadedFile> },
    /// Waiting for the file to be deleted, to fail with `error` then.
    Removing { error: UploadError },
    Finished,
}

/// The sink that stores the part named `file` of a multipart body, no more
/// than `max_size_bytes` of it, and with `with_fields` also reads the text
/// fields `mode` and `engine`.
#[derive(Debug, Clone, PartialEq)]
pub struct UploadSink {
    pub max_size_bytes: usize,
    pub with_fields: bool,
    pub mode: Option<String>,
    pub engine: Option<String>,
    pub phase: SinkPhase,
}

/// Whether the event answers what the sink asked for last.
pub open spec fn sink_accepts(sink: UploadSink, event: SinkEvent) -> bool {
    match (sink.phase, event) {
        (SinkPhase::Scanning { .. }, SinkEvent::Part(_)) => true,
        (SinkPhase::Creating { .. }, SinkEvent::FileCreated(_)) => true,
        (SinkPhase::Receiving { .. }, SinkEvent::Chunk(_)) => true,
        (SinkPhase::Writing { .. }, SinkEvent::Written(_)) => true,
        (SinkPhase::Flushing { .. }, SinkEvent::Flushed(_)) => true,
        (SinkPhase::ReadingMode { .. }, SinkEvent::Text(_)) => true,
        (SinkPhase::ReadingEngine { .. }, SinkEvent::Text(_)) => true,
        (SinkPhase::Removing { .. }, SinkEvent::Removed) => true,
        _ => false,
    }
}

/// The sink in another phase.
pub open spec fn sink_in(sink: UploadSink, phase: SinkPhase) -> UploadSink {
    UploadSink { phase, ..sink }
}

/// The sink fails: a file that is stored is deleted first.
pub open spec fn sink_fails(sink: UploadSink, held: Option<UploadedFile>, error: UploadError) -> (
    UploadSink,
    SinkAction,
) {
    match held {
        Some(file) => (
            sink_in(sink, SinkPhase::Removing { error }),
            SinkAction::RemoveFile { path: file.temp_path },
        ),
        None => (sink_in(sink, SinkPhase::Finished), SinkAction::Finish(Err(error))),
    }
}

/// The sink is done with the body: it hands over the stored file, or fails
/// for want of one.
pub open spec fn sink_finishes(sink: UploadSink, uploaded: Option<UploadedFile>) -> (
    UploadSink,
    SinkAction,
) {
    match uploaded {
        Some(file) => (
            sink_in(sink, SinkPhase::Finished),
            SinkAction::Finish(
                Ok(
                    UploadedPdfRequest {
                        temp_path: file.temp_path,
                        original_name: file.original_name,
                        mode: sink.mode,
                        engine: sink.engine,
                    },
                ),
            ),
        ),
        None => (
            sink_in(sink, SinkPhase::Finished),
            SinkAction::Finish(Err(UploadError::MissingFile)),
        ),
    }
}

/// What the sink does with the header of a part.
pub open spec fn sink_on_part(sink: UploadSink, uploaded: Option<UploadedFile>, header: PartHeader) -> (
    UploadSink,
    SinkAction,
) {
    if is_text(header.name, "file"@) {
        if uploaded.is_some() {
            (sink, SinkAction::NextPart)
        } else if !is_pdf_part(header) {
            (
                sink_in(sink, SinkPhase::Finished),
                SinkAction::Finish(Err(UploadError::UnsupportedFileType)),
            )
        } else {
            (
                sink_in(sink, SinkPhase::Creating { original_name: header.file_name }),
                SinkAction::CreateFile,
            )
        }
    } else if sink.with_fields && is_text(header.name, "mode"@) {
        (sink_in(sink, SinkPhase::ReadingMode { uploaded }), SinkAction::ReadText)
    } else if sink.with_fields && is_text(header.name, "engine"@) {
        (sink_in(sink, SinkPhase::ReadingEngine { uploaded }), SinkAction::ReadText)
    } else {
        (sink, SinkAction::NextPart)
    }
}

/// The next state of the sink and what it asks for, given what came of its
/// last request.
pub open spec fn sink_step(sink: UploadSink, event: SinkEvent) -> (UploadSink, SinkAction) {
    match (sink.phase, event) {
        (SinkPhase::Scanning { uploaded }, SinkEvent::Part(Err(_))) => sink_fails(
            sink,
            uploaded,
            UploadError::MultipartError,
        ),
        (SinkPhase::Scanning { uploaded }, SinkEvent::Part(Ok(None))) => sink_finishes(
            sink,
            uploaded,
        ),
        (SinkPhase::Scanning { uploaded }, SinkEvent::Part(Ok(Some(header)))) => sink_on_part(
            sink,
            uploaded,
            header,
        ),
        (SinkPhase::Creating { original_name }, SinkEvent::FileCreated(Err(_))) => sink_fails(
            sink,
            None,
            UploadError::IoError,
        ),
        (SinkPhase::Creating { original_name }, SinkEvent::FileCreated(Ok(path))) => (
            sink_in(
                sink,
                SinkPhase::Receiving { file: UploadedFile { temp_path: path, original_name }, total: 0 },
            ),
            SinkAction::ReadChunk,
        ),
        (SinkPhase::Receiving { file, total }, SinkEvent::Chunk(Err(_))) => sink_fails(
            sink,
            Some(file),
            UploadError::MultipartError,
        ),
        (SinkPhase::Receiving { file, total }, SinkEvent::Chunk(Ok(None))) => (
            sink_in(sink, SinkPhase::Flushing { file }),
            SinkAction::Flush,
        ),
        (SinkPhase::Receiving { file, total }, SinkEvent::Chunk(Ok(Some(len)))) => if total + len
            > sink.max_size_bytes {
            sink_fails(sink, Some(file), UploadError::FileTooLarge)
        } else {
            (
                sink_in(sink, SinkPhase::Writing { file, total: (total + len) as usize }),
                SinkAction::WriteChunk,
            )
        },
        (SinkPhase::Writing { file, total }, SinkEvent::Written(Err(_))) => sink_fails(
            sink,
            Some(file),
            UploadError::IoError,
        ),
        (SinkPhase::Writing { file, total }, SinkEvent::Written(Ok(_))) => (
            sink_in(sink, SinkPhase::Receiving { file, total }),
            SinkAction::ReadChunk,
        ),
        (SinkPhase::Flushing { file }, SinkEvent::Flushed(Err(_))) => sink_fails(
            sink,
            Some(file),
            UploadError::IoError,
        ),
        (SinkPhase::Flushing { file }, SinkEvent::Flushed(Ok(_))) => if sink.with_fields {
            (sink_in(sink, SinkPhase::Scanning { uploaded: Some(file) }), SinkAction::NextPart)
        } else {
            sink_finishes(sink, Some(file))
        },
        (SinkPhase::ReadingMode { uploaded }, SinkEvent::Text(Err(_))) => sink_fails(
            sink,
            uploaded,
            UploadError::MultipartError,
        ),
        (SinkPhase::ReadingMode { uploaded }, SinkEvent::Text(Ok(value))) => (
            UploadSink {
                phase: SinkPhase::Scanning { uploaded },
                mode: if value.is_some() {
                    value
                } else {
                    sink.mode
                },
                ..sink
            },
            SinkAction::NextPart,
        ),
        (SinkPhase::ReadingEngine { uploaded }, SinkEvent::Text(Err(_))) => sink_fails(
            sink,
            uploaded,
            UploadError::MultipartError,
        ),
        (SinkPhase::ReadingEngine { uploaded }, SinkEvent::Text(Ok(value))) => (
            UploadSink {
                phase: SinkPhase::Scanning { uploaded },
                engine: if value.is_some() {
                    value
                } else {
                    sink.engine
                },
                ..sink
            },
            SinkAction::NextPart,
        ),
        (SinkPhase::Removing { error }, SinkEvent::Removed) => (
            sink_in(sink, SinkPhase::Finished),
            SinkAction::Finish(Err(error)),
        ),
        _ => arbitrary(),
    }
}

impl UploadSink {
    /// A sink at the beginning of a body, with what it asks for first.
    pub fn start(max_size_bytes: usize, with_fields: bool) -> (begun: (UploadSink, SinkAction))
        ensures
            begun.0 == (UploadSink {
                max_size_bytes,
                with_fields,
                mode: None,
                engine: None,
                phase: SinkPhase::Scanning { uploaded: None },
            }),
            begun.1 == SinkAction::NextPart,
    {
        (
            UploadSink {
                max_size_bytes,
                with_fields,
                mode: None,
                engine: None,
                phase: SinkPhase::Scanning { uploaded: None },
            },
            SinkAction::NextPart,
        )
    }

    /// Whether the event answers what the sink asked for last.
    pub fn accepts(&self, event: &SinkEvent) -> (fits: bool)
        ensures
            fits == sink_accepts(*self, *event),
    {
        match (&self.phase, event) {
            (SinkPhase::Scanning { .. }, SinkEvent::Part(_)) => true,
            (SinkPhase::Creating { .. }, SinkEvent::FileCreated(_)) => true,
            (SinkPhase::Receiving { .. }, SinkEvent::Chunk(_)) => true,
            (SinkPhase::Writing { .. }, SinkEvent::Written(_)) => true,
            (SinkPhase::Flushing { .. }, SinkEvent::Flushed(_)) => true,
            (SinkPhase::ReadingMode { .. }, SinkEvent::Text(_)) => true,
            (SinkPhase::ReadingEngine { .. }, SinkEvent::Text(_)) => true,
            (SinkPhase::Removing { .. }, SinkEvent::Removed) => true,
            _ => false,
        }
    }

    fn fails(self, held: Option<UploadedFile>, error: UploadError) -> (next: (UploadSink, SinkAction))
        ensures
            next == sink_fails(self, held, error),
    {
        match held {
            Some(file) => (
                UploadSink { phase: SinkPhase::Removing { error }, ..self },
                SinkAction::RemoveFile { path: file.temp_path },
            ),
            None => (
                UploadSink { phase: SinkPhase::Finished, ..self },
                SinkAction::Finish(Err(error)),
            ),
        }
    }

    fn finishes(self, uploaded: Option<UploadedFile>) -> (next: (UploadSink, SinkAction))
        ensures
            next == sink_finishes(self, uploaded),
    {
        match uploaded {
            Some(file) => {
                let request = UploadedPdfRequest {
                    temp_path: file.temp_path,
                    original_name: file.original_name,
                    mode: self.mode.clone(),
                    engine: self.engine.clone(),
                };
                (UploadSink { phase: SinkPhase::Finished, ..self }, SinkAction::Finish(Ok(request)))
            },
            None => (
                UploadSink { phase: SinkPhase::Finished, ..self },
                SinkAction::Finish(Err(UploadError::MissingFile)),
            ),
        }
    }

    fn on_part(self, uploaded: Option<UploadedFile>, header: PartHeader) -> (next: (
        UploadSink,
        SinkAction,
    ))
        ensures
            next == sink_on_part(
                sink_in(self, SinkPhase::Scanning { uploaded }),
                uploaded,
                header,
            ),
    {
        if option_is(&header.name, "file") {
            if uploaded.is_some() {
                (UploadSink { phase: SinkPhase::Scanning { uploaded }, ..self }, SinkAction::NextPart)
            } else if !part_is_pdf(&header) {
                (
                    UploadSink { phase: SinkPhase::Finished, ..self },
                    SinkAction::Finish(Err(UploadError::UnsupportedFileType)),
                )
            } else {
                (
                    UploadSink {
                        phase: SinkPhase::Creating { original_name: header.file_name },
                        ..self
                    },
                    SinkAction::CreateFile,
                )
            }
        } else if self.with_fields && option_is(&header.name, "mode") {
            (UploadSink { phase: SinkPhase::ReadingMode { uploaded }, ..self }, SinkAction::ReadText)
        } else if self.with_fields && option_is(&header.name, "engine") {
            (
                UploadSink { phase: SinkPhase::ReadingEngine { uploaded }, ..self },
                SinkAction::ReadText,
            )
        } else {
            (UploadSink { phase: SinkPhase::Scanning { uploaded }, ..self }, SinkAction::NextPart)
        }
    }

    /// Takes what came of the last request and says what to do next.
    pub fn step(self, event: SinkEvent) -> (next: (UploadSink, SinkAction))
        requires
            sink_accepts(self, event),
        ensures
            next == sink_step(self, event),
    {
        let UploadSink { max_size_bytes, with_fields, mode, engine, phase } = self;
        let ghost whole = self;
        let rest = UploadSink { max_size_bytes, with_fields, mode, engine, phase: SinkPhase::Finished };
        assert(forall|p: SinkPhase| sink_in(rest, p) == sink_in(whole, p));
        match (phase, event) {
            (SinkPhase::Scanning { uploaded }, SinkEvent::Part(Err(_))) => {
                let (next, action) = rest.fails(uploaded, UploadError::MultipartError);
                (next, action)
            },
            (SinkPhase::Scanning { uploaded }, SinkEvent::Part(Ok(None))) => rest.finishes(uploaded),
            (SinkPhase::Scanning { uploaded }, SinkEvent::Part(Ok(Some(header)))) => {
                assert(sink_in(rest, SinkPhase::Scanning { uploaded }) == whole);
                rest.on_part(uploaded, header)
            },
            (SinkPhase::Creating { original_name }, SinkEvent::FileCreated(Err(_))) => rest.fails(
                None,
                UploadError::IoError,
            ),
            (SinkPhase::Creating { original_name }, SinkEvent::FileCreated(Ok(path))) => (
                UploadSink {
                    phase: SinkPhase::Receiving {
                        file: UploadedFile { temp_path: path, original_name },
                        total: 0,
                    },
                    ..rest
                },
                SinkAction::ReadChunk,
            ),
            (SinkPhase::Receiving { file, total }, SinkEvent::Chunk(Err(_))) => rest.fails(
                Some(file),
                UploadError::MultipartError,
            ),
            (SinkPhase::Receiving { file, total }, SinkEvent::Chunk(Ok(None))) => (
                UploadSink { phase: SinkPhase::Flushing { file }, ..rest },
                SinkAction::Flush,
            ),
            (SinkPhase::Receiving { file, total }, SinkEvent::Chunk(Ok(Some(len)))) => {
                if len > max_size_bytes || total > max_size_bytes - len {
                    rest.fails(Some(file), UploadError::FileTooLarge)
                } else {
                    (
                        UploadSink { phase: SinkPhase::Writing { file, total: total + len }, ..rest },
                        SinkAction::WriteChunk,
                    )
                }
            },
            (SinkPhase::Writing { file, total }, SinkEvent::Written(Err(_))) => rest.fails(
                Some(file),
                UploadError::IoError,
            ),
            (SinkPhase::Writing { file, total }, SinkEvent::Written(Ok(_))) => (
                UploadSink { phase: SinkPhase::Receiving { file, total }, ..rest },
                SinkAction::ReadChunk,
            ),
            (SinkPhase::Flushing { file }, SinkEvent::Flushed(Err(_))) => rest.fails(
                Some(file),
                UploadError::IoError,
            ),
            (SinkPhase::Flushing { file }, SinkEvent::Flushed(Ok(_))) => {
                if with_fields {
                    (
                        UploadSink { phase: SinkPhase::Scanning { uploaded: Some(file) }, ..rest },
                        SinkAction::NextPart,
                    )
                } else {
                    rest.finishes(Some(file))
                }
            },
            (SinkPhase::ReadingMode { uploaded }, SinkEvent::Text(Err(_))) => rest.fails(
                uploaded,
                UploadError::MultipartError,
            ),
            (SinkPhase::ReadingMode { uploaded }, SinkEvent::Text(Ok(value))) => {
                let mode = if value.is_some() {
                    value
                } else {
                    rest.mode
                };
                (
                    UploadSink {
                        max_size_bytes,
                        with_fields,
                        mode,
                        engine: rest.engine,
                        phase: SinkPhase::Scanning { uploaded },
                    },
                    SinkAction::NextPart,
                )
            },
            (SinkPhase::ReadingEngine { uploaded }, SinkEvent::Text(Err(_))) => rest.fails(
                uploaded,
                UploadError::MultipartError,
            ),
            (SinkPhase::ReadingEngine { uploaded }, SinkEvent::Text(Ok(value))) => {
                let engine = if value.is_some() {
                    value
                } else {
                    rest.engine
                };
                (
                    UploadSink {
                        max_size_bytes,
                        with_fields,
                        mode: rest.mode,
                        engine,
                        phase: SinkPhase::Scanning { uploaded },
                    },
                    SinkAction::NextPart,
                )
            },
            (SinkPhase::Removing { error }, SinkEvent::Removed) => (
                UploadSink { phase: SinkPhase::Finished, ..rest },
                SinkAction::Finish(Err(error)),
            ),
            _ => unreached(),
        }
    }
}


/// What the sink asks for, request by request, when the events come in
/// this order: the run ends where an event does not answer the last
/// request, as after `Finish`.
pub open spec fn sink_run(sink: UploadSink, events: Seq<SinkEvent>) -> Seq<SinkAction>
    decreases events.len(),
{
    if events.len() == 0 || !sink_accepts(sink, events[0]) {
        Seq::empty()
    } else {
        seq![sink_step(sink, events[0]).1] + sink_run(
            sink_step(sink, events[0]).0,
            events.drop_first(),
        )
    }
}

/// A run asks for no more than one thing per event.
pub proof fn lemma_sink_run_len(sink: UploadSink, events: Seq<SinkEvent>)
    ensures
        sink_run(sink, events).len() <= events.len(),
    decreases events.len(),
{
    if events.len() > 0 && sink_accepts(sink, events[0]) {
        lemma_sink_run_len(sink_step(sink, events[0]).0, events.drop_first());
    }
}

/// The path of the file that the sink has on disk.
pub open spec fn sink_holds(sink: UploadSink) -> Option<String> {
    match sink.phase {
        SinkPhase::Scanning { uploaded: Some(file) } => Some(file.temp_path),
        SinkPhase::ReadingMode { uploaded: Some(file) } => Some(file.temp_path),
        SinkPhase::ReadingEngine { uploaded: Some(file) } => Some(file.temp_path),
        SinkPhase::Receiving { file, .. } => Some(file.temp_path),
        SinkPhase::Writing { file, .. } => Some(file.temp_path),
        SinkPhase::Flushing { file } => Some(file.temp_path),
        _ => None,
    }
}

/// A sink that ends in failure has asked to delete every file that it
/// held or created on the way: a failed upload leaves no file behind.
pub proof fn lemma_failed_upload_leaves_no_file(sink: UploadSink, events: Seq<SinkEvent>)
    requires
        sink_run(sink, events).len() > 0,
        sink_run(sink, events).last() matches SinkAction::Finish(Err(_)),
    ensures
        sink_holds(sink) matches Some(path) ==> sink_run(sink, events).contains(
            SinkAction::RemoveFile { path },
        ),
        forall|i: int|
            0 <= i < sink_run(sink, events).len() ==> (#[trigger] events[i]
                matches SinkEvent::FileCreated(Ok(path)) ==> sink_run(sink, events).contains(
                SinkAction::RemoveFile { path },
            )),
    decreases events.len(),
{
    let run = sink_run(sink, events);
    let next = sink_step(sink, events[0]).0;
    let action = sink_step(sink, events[0]).1;
    let rest = sink_run(next, events.drop_first());
    assert(run == seq![action] + rest);
    assert(run[0] == action);
    if rest.len() > 0 {
        assert(run.last() == rest.last());
        lemma_failed_upload_leaves_no_file(next, events.drop_first());
        assert forall|x: SinkAction| rest.contains(x) implies run.contains(x) by {
            let j = choose|j: int| 0 <= j < rest.len() && rest[j] == x;
            assert(run[j + 1] == x);
        }
        assert forall|i: int| 0 <= i < run.len() implies (#[trigger] events[i]
            matches SinkEvent::FileCreated(Ok(path)) ==> run.contains(
            SinkAction::RemoveFile { path },
        )) by {
            lemma_sink_run_len(sink, events);
            if i > 0 {
                assert(events.drop_first()[i - 1] == events[i]);
            }
        }
    }
}

/// The size cap: a chunk that keeps the file within `max_size_bytes` is
/// written; one that takes it beyond has the file deleted and the upload
/// fail as too large.
pub proof fn lemma_size_cap(sink: UploadSink, file: UploadedFile, total: usize, len: usize)
    requires
        sink.phase == (SinkPhase::Receiving { file, total }),
    ensures
        total + len <= sink.max_size_bytes ==> sink_step(sink, SinkEvent::Chunk(Ok(Some(len))))
            == (
            sink_in(sink, SinkPhase::Writing { file, total: (total + len) as usize }),
            SinkAction::WriteChunk,
        ),
        total + len > sink.max_size_bytes ==> sink_run(
            sink,
            seq![SinkEvent::Chunk(Ok(Some(len))), SinkEvent::Removed],
        ) == seq![
            SinkAction::RemoveFile { path: file.temp_path },
            SinkAction::Finish(Err(UploadError::FileTooLarge)),
        ],
{
    if total + len > sink.max_size_bytes {
        let events = seq![SinkEvent::Chunk(Ok(Some(len))), SinkEvent::Removed];
        let next = sink_step(sink, events[0]).0;
        assert(events.drop_first() =~= seq![SinkEvent::Removed]);
        assert(events.drop_first().drop_first() =~= Seq::<SinkEvent>::empty());
        reveal_with_fuel(sink_run, 3);
        assert(sink_run(sink, events) =~= seq![
            SinkAction::RemoveFile { path: file.temp_path },
            SinkAction::Finish(Err(UploadError::FileTooLarge)),
        ]);
    }
}


/// Whether the bytes that the sink has taken for the file are within the
/// limit.
pub open spec fn sink_within_limit(sink: UploadSink) -> bool {
    match sink.phase {
        SinkPhase::Receiving { total, .. } => total <= sink.max_size_bytes,
        SinkPhase::Writing { total, .. } => total <= sink.max_size_bytes,
        _ => true,
    }
}

/// The sink never takes more bytes for a file than the limit: it begins
/// within the limit, and no step takes it beyond.
pub proof fn lemma_sink_stays_within_limit(sink: UploadSink, event: SinkEvent)
    requires
        sink_accepts(sink, event),
        sink_within_limit(sink),
    ensures
        sink_within_limit(sink_step(sink, event).0),
        sink_within_limit(
            UploadSink {
                max_size_bytes: sink.max_size_bytes,
                with_fields: sink.with_fields,
                mode: None,
                engine: None,
                phase: SinkPhase::Scanning { uploaded: None },
            },
        ),
{
}


/// The file that is still to be deleted when the sink is given up while
/// `pending` is what it asked for last and is not known to be done: the
/// file that the sink has on disk, or the file whose deletion it asked
/// for.
pub open spec fn sink_owed(sink: UploadSink, pending: SinkAction) -> Option<String> {
    match pending {
        SinkAction::RemoveFile { path } => Some(path),
        SinkAction::Finish(_) => None,
        _ => sink_holds(sink),
    }
}

impl UploadSink {
    /// The file that is still to be deleted when the sink is given up
    /// while `pending` is what it asked for last. A sink that is done owes
    /// nothing: the file of a stored upload is the caller's.
    pub fn owed(&self, pending: &SinkAction) -> (path: Option<String>)
        ensures
            path == sink_owed(*self, *pending),
    {
        match pending {
            SinkAction::RemoveFile { path } => Some(path.clone()),
            SinkAction::Finish(_) => None,
            _ => match &self.phase {
                SinkPhase::Scanning { uploaded: Some(file) } => Some(file.temp_path.clone()),
                SinkPhase::ReadingMode { uploaded: Some(file) } => Some(file.temp_path.clone()),
                SinkPhase::ReadingEngine { uploaded: Some(file) } => Some(file.temp_path.clone()),
                SinkPhase::Receiving { file, .. } => Some(file.temp_path.clone()),
                SinkPhase::Writing { file, .. } => Some(file.temp_path.clone()),
                SinkPhase::Flushing { file } => Some(file.temp_path.clone()),
                _ => None,
            },
        }
    }
}

} // verus!
