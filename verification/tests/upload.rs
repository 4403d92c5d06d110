use pdf_gateway::upload::{
    field_value, fresh_upload_file_name, name_upload_file, PartHeader, SinkAction, SinkEvent,
    UploadError, UploadSink, UploadedPdfRequest,
};

fn part(name: &str, file_name: Option<&str>, content_type: Option<&str>) -> SinkEvent {
    SinkEvent::Part(Ok(Some(PartHeader::new(
        Some(name.to_string()),
        file_name.map(String::from),
        content_type.map(String::from),
    ))))
}

fn chunk(len: usize) -> SinkEvent {
    SinkEvent::Chunk(Ok(Some(len)))
}

fn created(path: &str) -> SinkEvent {
    SinkEvent::FileCreated(Ok(path.to_string()))
}

fn run(max_size_bytes: usize, with_fields: bool, events: Vec<SinkEvent>) -> Vec<SinkAction> {
    let (mut sink, first) = UploadSink::start(max_size_bytes, with_fields);
    let mut actions = vec![first];
    for event in events {
        assert!(sink.accepts(&event), "{:?} does not answer {:?}", event, actions.last());
        let (next, action) = sink.step(event);
        sink = next;
        actions.push(action);
    }
    actions
}

fn stored(path: &str, name: &str, mode: Option<&str>, engine: Option<&str>) -> SinkAction {
    SinkAction::Finish(Ok(UploadedPdfRequest {
        temp_path: path.to_string(),
        original_name: name.to_string(),
        mode: mode.map(String::from),
        engine: engine.map(String::from),
    }))
}

fn remove(path: &str) -> SinkAction {
    SinkAction::RemoveFile { path: path.to_string() }
}

#[test]
fn an_upload_of_exactly_the_limit_is_stored() {
    let actions = run(
        10,
        false,
        vec![
            part("file", Some("doc.pdf"), Some("application/pdf")),
            created("/tmp/up.pdf"),
            chunk(4),
            SinkEvent::Written(Ok(())),
            chunk(6),
            SinkEvent::Written(Ok(())),
            SinkEvent::Chunk(Ok(None)),
            SinkEvent::Flushed(Ok(())),
        ],
    );
    assert_eq!(
        actions,
        vec![
            SinkAction::NextPart,
            SinkAction::CreateFile,
            SinkAction::ReadChunk,
            SinkAction::WriteChunk,
            SinkAction::ReadChunk,
            SinkAction::WriteChunk,
            SinkAction::ReadChunk,
            SinkAction::Flush,
            stored("/tmp/up.pdf", "doc.pdf", None, None),
        ]
    );
}

#[test]
fn an_upload_of_one_byte_more_is_too_large_and_leaves_no_file() {
    let actions = run(
        10,
        false,
        vec![
            part("file", Some("doc.pdf"), Some("application/pdf")),
            created("/tmp/up.pdf"),
            chunk(4),
            SinkEvent::Written(Ok(())),
            chunk(7),
            SinkEvent::Removed,
        ],
    );
    assert_eq!(
        actions[4..],
        [SinkAction::ReadChunk, remove("/tmp/up.pdf"), SinkAction::Finish(Err(UploadError::FileTooLarge))]
    );
    let at_once = run(
        10,
        true,
        vec![part("file", Some("doc.pdf"), None), created("/tmp/up.pdf"), chunk(11), SinkEvent::Removed],
    );
    assert_eq!(
        at_once[3..],
        [remove("/tmp/up.pdf"), SinkAction::Finish(Err(UploadError::FileTooLarge))]
    );
}

#[test]
fn sizes_beyond_the_machine_are_too_large() {
    let actions = run(
        usize::MAX,
        false,
        vec![
            part("file", Some("doc.pdf"), None),
            created("/tmp/up.pdf"),
            chunk(usize::MAX),
            SinkEvent::Written(Ok(())),
            chunk(1),
            SinkEvent::Removed,
        ],
    );
    assert_eq!(
        actions[4..],
        [SinkAction::ReadChunk, remove("/tmp/up.pdf"), SinkAction::Finish(Err(UploadError::FileTooLarge))]
    );
}

#[test]
fn an_empty_upload_is_stored() {
    let actions = run(
        0,
        false,
        vec![
            part("file", Some("empty.pdf"), None),
            created("/tmp/e.pdf"),
            SinkEvent::Chunk(Ok(None)),
            SinkEvent::Flushed(Ok(())),
        ],
    );
    assert_eq!(actions.last(), Some(&stored("/tmp/e.pdf", "empty.pdf", None, None)));
}

#[test]
fn a_body_without_a_file_is_refused() {
    assert_eq!(
        run(10, false, vec![SinkEvent::Part(Ok(None))]).last(),
        Some(&SinkAction::Finish(Err(UploadError::MissingFile)))
    );
    let actions = run(
        10,
        false,
        vec![part("mode", None, None), part("attachment", Some("a.pdf"), None), SinkEvent::Part(Ok(None))],
    );
    assert_eq!(
        actions,
        vec![
            SinkAction::NextPart,
            SinkAction::NextPart,
            SinkAction::NextPart,
            SinkAction::Finish(Err(UploadError::MissingFile)),
        ]
    );
    let nameless = run(10, true, vec![SinkEvent::Part(Ok(Some(PartHeader::new(None, Some("a.pdf".to_string()), None)))), SinkEvent::Part(Ok(None))]);
    assert_eq!(nameless.last(), Some(&SinkAction::Finish(Err(UploadError::MissingFile))));
}

#[test]
fn only_pdf_files_are_taken() {
    for (file_name, content_type, taken) in [
        (Some("a.pdf"), None, true),
        (Some("A.PDF"), Some("application/octet-stream"), true),
        (Some("scan.Pdf"), None, true),
        (Some("a.txt"), Some("application/pdf"), true),
        (None, None, true),
        (None, Some("image/png"), true),
        (Some("a.txt"), None, false),
        (Some("a.pdf.exe"), Some("application/x-pdf"), false),
        (Some("pdf"), Some("APPLICATION/PDF"), false),
        (Some(""), None, false),
    ] {
        let actions = run(10, false, vec![part("file", file_name, content_type)]);
        if taken {
            assert_eq!(actions.last(), Some(&SinkAction::CreateFile), "{:?} {:?}", file_name, content_type);
        } else {
            assert_eq!(
                actions.last(),
                Some(&SinkAction::Finish(Err(UploadError::UnsupportedFileType))),
                "{:?} {:?}",
                file_name,
                content_type
            );
        }
    }
}

#[test]
fn an_upload_without_a_name_is_called_document() {
    let actions = run(
        10,
        false,
        vec![
            part("file", None, Some("application/pdf")),
            created("/tmp/up.pdf"),
            SinkEvent::Chunk(Ok(None)),
            SinkEvent::Flushed(Ok(())),
        ],
    );
    assert_eq!(actions.last(), Some(&stored("/tmp/up.pdf", "document.pdf", None, None)));
}

#[test]
fn the_text_fields_are_read_with_the_file() {
    let actions = run(
        100,
        true,
        vec![
            part("mode", None, None),
            SinkEvent::Text(Ok(field_value(" production "))),
            part("other", None, None),
            part("file", Some("doc.pdf"), None),
            created("/tmp/up.pdf"),
            chunk(50),
            SinkEvent::Written(Ok(())),
            SinkEvent::Chunk(Ok(None)),
            SinkEvent::Flushed(Ok(())),
            part("file", Some("second.pdf"), None),
            part("engine", None, None),
            SinkEvent::Text(Ok(field_value("mutool"))),
            part("mode", None, None),
            SinkEvent::Text(Ok(field_value("   "))),
            SinkEvent::Part(Ok(None)),
        ],
    );
    assert_eq!(
        actions,
        vec![
            SinkAction::NextPart,
            SinkAction::ReadText,
            SinkAction::NextPart,
            SinkAction::NextPart,
            SinkAction::CreateFile,
            SinkAction::ReadChunk,
            SinkAction::WriteChunk,
            SinkAction::ReadChunk,
            SinkAction::Flush,
            SinkAction::NextPart,
            SinkAction::NextPart,
            SinkAction::ReadText,
            SinkAction::NextPart,
            SinkAction::ReadText,
            SinkAction::NextPart,
            stored("/tmp/up.pdf", "doc.pdf", Some("production"), Some("mutool")),
        ]
    );
}

#[test]
fn without_text_fields_the_first_file_ends_the_body() {
    let actions = run(
        100,
        false,
        vec![
            part("mode", None, None),
            part("file", Some("doc.pdf"), None),
            created("/tmp/up.pdf"),
            SinkEvent::Chunk(Ok(None)),
            SinkEvent::Flushed(Ok(())),
        ],
    );
    assert_eq!(actions[1], SinkAction::NextPart);
    assert_eq!(actions.last(), Some(&stored("/tmp/up.pdf", "doc.pdf", None, None)));
}

#[test]
fn a_failure_behind_the_file_deletes_the_file() {
    let until_stored = || {
        vec![
            part("file", Some("doc.pdf"), None),
            created("/tmp/up.pdf"),
            chunk(5),
        ]
    };
    let mut broken_stream = until_stored();
    broken_stream.extend([SinkEvent::Written(Ok(())), SinkEvent::Chunk(Err(())), SinkEvent::Removed]);
    assert_eq!(
        run(10, false, broken_stream)[5..],
        [remove("/tmp/up.pdf"), SinkAction::Finish(Err(UploadError::MultipartError))]
    );
    let mut full_disk = until_stored();
    full_disk.extend([SinkEvent::Written(Err(())), SinkEvent::Removed]);
    assert_eq!(
        run(10, false, full_disk)[4..],
        [remove("/tmp/up.pdf"), SinkAction::Finish(Err(UploadError::IoError))]
    );
    let mut no_flush = until_stored();
    no_flush.extend([
        SinkEvent::Written(Ok(())),
        SinkEvent::Chunk(Ok(None)),
        SinkEvent::Flushed(Err(())),
        SinkEvent::Removed,
    ]);
    assert_eq!(
        run(10, true, no_flush)[6..],
        [remove("/tmp/up.pdf"), SinkAction::Finish(Err(UploadError::IoError))]
    );
    let mut broken_field = until_stored();
    broken_field.extend([
        SinkEvent::Written(Ok(())),
        SinkEvent::Chunk(Ok(None)),
        SinkEvent::Flushed(Ok(())),
        part("mode", None, None),
        SinkEvent::Text(Err(())),
        SinkEvent::Removed,
    ]);
    assert_eq!(
        run(10, true, broken_field)[8..],
        [remove("/tmp/up.pdf"), SinkAction::Finish(Err(UploadError::MultipartError))]
    );
    let mut broken_body = until_stored();
    broken_body.extend([
        SinkEvent::Written(Ok(())),
        SinkEvent::Chunk(Ok(None)),
        SinkEvent::Flushed(Ok(())),
        SinkEvent::Part(Err(())),
        SinkEvent::Removed,
    ]);
    assert_eq!(
        run(10, true, broken_body)[7..],
        [remove("/tmp/up.pdf"), SinkAction::Finish(Err(UploadError::MultipartError))]
    );
}

#[test]
fn a_failure_before_the_file_fails_at_once() {
    assert_eq!(
        run(10, true, vec![SinkEvent::Part(Err(()))]).last(),
        Some(&SinkAction::Finish(Err(UploadError::MultipartError)))
    );
    assert_eq!(
        run(10, true, vec![part("file", Some("a.pdf"), None), SinkEvent::FileCreated(Err(()))]).last(),
        Some(&SinkAction::Finish(Err(UploadError::IoError)))
    );
    assert_eq!(
        run(10, true, vec![part("engine", None, None), SinkEvent::Text(Err(()))]).last(),
        Some(&SinkAction::Finish(Err(UploadError::MultipartError)))
    );
}

#[test]
fn events_have_to_answer_the_last_request() {
    let (sink, _) = UploadSink::start(10, true);
    assert!(sink.accepts(&SinkEvent::Part(Ok(None))));
    assert!(!sink.accepts(&chunk(1)));
    assert!(!sink.accepts(&SinkEvent::Removed));
    let (done, _) = sink.step(SinkEvent::Part(Ok(None)));
    assert!(!done.accepts(&SinkEvent::Part(Ok(None))));
    assert!(!done.accepts(&SinkEvent::Removed));
}

#[test]
fn text_fields_are_trimmed() {
    assert_eq!(field_value(" preview\n"), Some("preview".to_string()));
    assert_eq!(field_value(""), None);
    assert_eq!(field_value(" \t "), None);
}

#[test]
fn errors_have_their_words() {
    assert_eq!(UploadError::MissingFile.message(), "File not found");
    assert_eq!(UploadError::UnsupportedFileType.message(), "Only PDF files are supported");
    assert_eq!(UploadError::FileTooLarge.message(), "File is too large");
    assert_eq!(UploadError::MultipartError.message(), "Failed to parse upload");
    assert_eq!(UploadError::IoError.message(), "Failed to persist upload");
}

#[test]
fn stored_uploads_are_named_after_an_identifier_and_the_time() {
    assert_eq!(
        name_upload_file("0f8fad5b-d9cb-469f-a165-70867728950e", 1_700_000_000_123),
        "ghost-upload-0f8fad5b-d9cb-469f-a165-70867728950e-1700000000123.pdf"
    );
    assert_eq!(name_upload_file("x", 0), "ghost-upload-x-0.pdf");
    let first = fresh_upload_file_name(42);
    let second = fresh_upload_file_name(42);
    for name in [&first, &second] {
        assert!(name.starts_with("ghost-upload-"));
        assert!(name.ends_with("-42.pdf"));
        let identifier = &name["ghost-upload-".len()..name.len() - "-42.pdf".len()];
        assert_eq!(identifier.len(), 36);
        assert!(uuid::Uuid::parse_str(identifier).is_ok());
    }
    assert_ne!(first, second);
}

#[test]
fn a_sink_that_is_given_up_owes_the_file_that_it_holds() {
    let (mut sink, mut action) = UploadSink::start(10, true);
    assert_eq!(sink.owed(&action), None);
    let mut seen = Vec::new();
    for event in [
        part("file", Some("doc.pdf"), None),
        created("/tmp/up.pdf"),
        chunk(4),
        SinkEvent::Written(Ok(())),
        SinkEvent::Chunk(Ok(None)),
        SinkEvent::Flushed(Ok(())),
        part("mode", None, None),
        SinkEvent::Text(Err(())),
        SinkEvent::Removed,
    ] {
        let (next, after) = sink.step(event);
        sink = next;
        action = after;
        seen.push(sink.owed(&action));
    }
    let held = Some("/tmp/up.pdf".to_string());
    assert_eq!(
        seen,
        vec![None, held.clone(), held.clone(), held.clone(), held.clone(), held.clone(), held.clone(), held.clone(), None]
    );
    let (sink, action) = UploadSink::start(10, false);
    let (sink, _) = sink.step(part("file", Some("doc.pdf"), None));
    let (sink, _) = sink.step(created("/tmp/up.pdf"));
    let (sink, _) = sink.step(SinkEvent::Chunk(Ok(None)));
    let (sink, stored) = sink.step(SinkEvent::Flushed(Ok(())));
    assert!(matches!(stored, SinkAction::Finish(Ok(_))));
    assert_eq!(sink.owed(&stored), None);
    assert_eq!(action, SinkAction::NextPart);
}
