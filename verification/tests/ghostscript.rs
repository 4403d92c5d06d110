use pdf_gateway::ghostscript::{
    describe_cause, FallbackCause, PageCountAction, PageCountError, PageCountEvent,
    PageCountState, analyze_pdf, command_result, command_timeout_ms, describe_fallback, grayscale_args,
    has_form_fields, inkcov_args, log_pdfinfo_fallback, normalize_profiles, page_count_args,
    page_count_from_capture, parse_f64_token, parse_ghostscript_page_count, parse_inkcov_line,
    parse_inkcov_profiles, pdfinfo_page_count, sanitize_base_name, timeout_message, ColorProfile,
    CommandOutput, FallbackLog, PdfinfoFallback,
};

fn chars(text: &str) -> Vec<char> {
    text.chars().collect()
}

fn number(text: &str) -> f64 {
    text.parse::<f64>().unwrap()
}

fn levels(line: &str) -> Option<(f64, f64, f64, f64, String)> {
    parse_inkcov_line(&chars(line)).map(|(c, m, y, k, ink)| (number(&c), number(&m), number(&y), number(&k), ink))
}

fn with_patterns(value: &str) -> String {
    let unsafe_runs = regex::Regex::new(r"[^a-zA-Z0-9_-]+").unwrap();
    let edges = regex::Regex::new(r"^_+|_+$").unwrap();
    let replaced = unsafe_runs.replace_all(value, "_");
    let trimmed = edges.replace_all(&replaced, "");
    let output = trimmed.to_string();
    if output.is_empty() {
        "document".to_string()
    } else {
        output.chars().take(80).collect()
    }
}

fn output(success: bool, status: &str, stdout: &str, stderr: &str) -> CommandOutput {
    CommandOutput {
        success,
        status: status.to_string(),
        stdout: stdout.to_string(),
        stderr: stderr.to_string(),
    }
}

fn profile(page: i64, c: &str, m: &str, y: &str, k: &str, ink_type: &str) -> ColorProfile {
    ColorProfile {
        page,
        c: c.to_string(),
        m: m.to_string(),
        y: y.to_string(),
        k: k.to_string(),
        ink_type: ink_type.to_string(),
    }
}

#[test]
fn base_names_keep_letters_digits_underscore_and_hyphen() {
    assert_eq!(sanitize_base_name("report"), "report");
    assert_eq!(sanitize_base_name("my report (final).v2"), "my_report_final_v2");
    assert_eq!(sanitize_base_name("  spaced  "), "spaced");
    assert_eq!(sanitize_base_name("___"), "document");
    assert_eq!(sanitize_base_name(""), "document");
    assert_eq!(sanitize_base_name("!!!"), "document");
    assert_eq!(sanitize_base_name("a_ _b"), "a___b");
    assert_eq!(sanitize_base_name("über-größe"), "ber-gr_e");
    assert_eq!(sanitize_base_name("_-_"), "-");
    assert_eq!(sanitize_base_name("doc"), "doc");
}

#[test]
fn base_names_are_cut_after_eighty_characters() {
    let long = "x".repeat(200);
    assert_eq!(sanitize_base_name(&long), "x".repeat(80));
    let exact = "y".repeat(80);
    assert_eq!(sanitize_base_name(&exact), exact);
}

#[test]
fn base_names_are_those_of_the_two_patterns() {
    let long_with_underscore = format!("{}_b", "a".repeat(79));
    let samples = [
        "",
        "a",
        "_",
        "__a__",
        "a b",
        "a  b",
        "a\tb\nc",
        "..//..//etc/passwd",
        "C:\\Users\\me\\file name.pdf",
        "日本語.pdf",
        "日本語abc日本語",
        "-leading-hyphen-",
        "_ _ _",
        "a_!_b",
        "!a!",
        "100% légal",
        long_with_underscore.as_str(),
    ];
    for sample in samples {
        assert_eq!(sanitize_base_name(sample), with_patterns(sample), "{:?}", sample);
    }
}

#[test]
fn a_base_name_is_its_own_base_name() {
    for sample in ["report", "my report (final).v2", "", "___", "a_ _b", "日本語", "x y z"] {
        let once = sanitize_base_name(sample);
        assert_eq!(sanitize_base_name(&once), once, "{:?}", sample);
    }
    let long = "z".repeat(300);
    let once = sanitize_base_name(&long);
    assert_eq!(sanitize_base_name(&once), once);
}

#[test]
fn a_base_name_cut_behind_an_underscore_loses_it_in_a_second_pass() {
    let sample = format!("{}_b", "a".repeat(79));
    let once = sanitize_base_name(&sample);
    assert_eq!(once, format!("{}_", "a".repeat(79)));
    assert_eq!(sanitize_base_name(&once), "a".repeat(79));
}

#[test]
fn ink_coverage_line_gives_four_levels_and_the_ink_type() {
    assert_eq!(
        levels("0.10 0.20 0.30 0.40 CMYK"),
        Some((0.10, 0.20, 0.30, 0.40, "CMYK".to_string()))
    );
    assert_eq!(
        levels("0,10 0,20 0,30 0,40 CMYK"),
        Some((0.10, 0.20, 0.30, 0.40, "CMYK".to_string()))
    );
    assert_eq!(
        parse_inkcov_line(&chars(" 0.00000  0.00000  0.00000  0.02230 CMYK OK")),
        Some((
            "0.00000".to_string(),
            "0.00000".to_string(),
            "0.00000".to_string(),
            "0.02230".to_string(),
            "CMYK OK".to_string()
        ))
    );
}

#[test]
fn ink_coverage_line_takes_the_last_four_numbers_in_a_row() {
    assert_eq!(
        levels("Page 1 0.1 0.2 0.3 0.4 CMYK"),
        Some((0.1, 0.2, 0.3, 0.4, "CMYK".to_string()))
    );
    assert_eq!(levels("1 0.1 0.2 0.3 0.4 K"), Some((0.1, 0.2, 0.3, 0.4, "K".to_string())));
    assert_eq!(levels("1 2 3 4 5 6"), Some((3.0, 4.0, 5.0, 6.0, String::new())));
    assert_eq!(levels("0.1 0.2 0.3 0.4"), Some((0.1, 0.2, 0.3, 0.4, String::new())));
    assert_eq!(
        levels("0.1 0.2 0.3 0.4 x 0.5 0.6 0.7 0.8 tail  end"),
        Some((0.5, 0.6, 0.7, 0.8, "tail end".to_string()))
    );
}

#[test]
fn ink_coverage_line_without_four_numbers_gives_nothing() {
    assert_eq!(parse_inkcov_line(&chars("")), None);
    assert_eq!(parse_inkcov_line(&chars("0.1 0.2 0.3")), None);
    assert_eq!(parse_inkcov_line(&chars("0.1 0.2 x 0.3 0.4")), None);
    assert_eq!(parse_inkcov_line(&chars("Processing pages 1 through 2.")), None);
    assert_eq!(parse_inkcov_line(&chars("0.1,5 0.2 0.3 0.4 0.5x")), None);
}

#[test]
fn tokens_with_a_comma_count_only_without_a_point() {
    assert_eq!(parse_f64_token(&chars("0.5")), Some("0.5".to_string()));
    assert_eq!(parse_f64_token(&chars("0,5")), Some("0.5".to_string()));
    assert_eq!(parse_f64_token(&chars("1e3")), Some("1e3".to_string()));
    assert_eq!(parse_f64_token(&chars("1.000,5")), None);
    assert_eq!(parse_f64_token(&chars("1,2,3")), None);
    assert_eq!(parse_f64_token(&chars("CMYK")), None);
    assert_eq!(parse_f64_token(&chars(",")), None);
    assert_eq!(parse_f64_token(&chars("nan")), Some("nan".to_string()));
}

#[test]
fn profiles_are_numbered_from_one_and_stop_at_the_page_count() {
    let report = "Processing pages 1 through 3.\nPage 1\n 0.1 0.2 0.3 0.4 CMYK OK\r\nPage 2\n 0,5 0,6 0,7 0,8 CMYK OK\nPage 3\n 0.9 1.0 0.0 0.1 CMYK OK\n";
    let all = parse_inkcov_profiles(report, 3);
    assert_eq!(
        all,
        vec![
            profile(1, "0.1", "0.2", "0.3", "0.4", "CMYK OK"),
            profile(2, "0.5", "0.6", "0.7", "0.8", "CMYK OK"),
            profile(3, "0.9", "1.0", "0.0", "0.1", "CMYK OK"),
        ]
    );
    let two = parse_inkcov_profiles(report, 2);
    assert_eq!(two.len(), 2);
    assert_eq!(two[1].page, 2);
    assert_eq!(parse_inkcov_profiles(report, 0), vec![]);
    assert_eq!(parse_inkcov_profiles(report, -4), vec![]);
    assert_eq!(parse_inkcov_profiles("", 3), vec![]);
}

#[test]
fn normalizing_pads_with_blank_profiles_and_drops_extras() {
    let parsed = vec![profile(7, "0.1", "0.2", "0.3", "0.4", "CMYK")];
    assert_eq!(
        normalize_profiles(parsed.clone(), 3),
        vec![
            profile(1, "0.1", "0.2", "0.3", "0.4", "CMYK"),
            profile(2, "0", "0", "0", "0", ""),
            profile(3, "0", "0", "0", "0", ""),
        ]
    );
    let many = vec![
        profile(1, "0.1", "0.2", "0.3", "0.4", "a"),
        profile(2, "0.5", "0.6", "0.7", "0.8", "b"),
        profile(3, "0.9", "1.0", "0.0", "0.1", "c"),
    ];
    assert_eq!(normalize_profiles(many.clone(), 2), many[..2].to_vec());
    assert_eq!(normalize_profiles(many.clone(), 0), vec![]);
    assert_eq!(normalize_profiles(many, -1), vec![]);
    assert_eq!(number(&normalize_profiles(vec![], 1)[0].c), 0.0);
}

#[test]
fn an_analysis_has_one_profile_for_each_page() {
    for (pages, stdout) in [
        (1, ""),
        (2, " 0.1 0.2 0.3 0.4 CMYK OK\n"),
        (2, " 0.1 0.2 0.3 0.4 CMYK OK\n 0.5 0.6 0.7 0.8 CMYK OK\n"),
        (2, " 0.1 0.2 0.3 0.4 CMYK OK\n 0.5 0.6 0.7 0.8 CMYK OK\n 0.9 0.9 0.9 0.9 CMYK OK\n"),
        (5, "garbage\n"),
    ] {
        let analysis = analyze_pdf("sample.pdf", pages, stdout, "", None);
        assert_eq!(analysis.color_profiles.len() as i64, analysis.page_count);
        assert_eq!(analysis.page_count, pages);
        for (index, found) in analysis.color_profiles.iter().enumerate() {
            assert_eq!(found.page, index as i64 + 1);
        }
    }
}

#[test]
fn an_analysis_reads_both_streams_of_the_renderer() {
    let pdf = b"%PDF-1.7 ... /Subtype /Widget ...".to_vec();
    let from_stdout = analyze_pdf("a.pdf", 1, "0.1 0.2 0.3 0.4 CMYK", " \n", Some(&pdf));
    assert_eq!(from_stdout.file_name, "a.pdf");
    assert!(from_stdout.has_formfields);
    assert_eq!(from_stdout.color_profiles, vec![profile(1, "0.1", "0.2", "0.3", "0.4", "CMYK")]);
    let from_stderr = analyze_pdf("a.pdf", 1, "", "0.5 0.6 0.7 0.8 K", None);
    assert!(!from_stderr.has_formfields);
    assert_eq!(from_stderr.color_profiles, vec![profile(1, "0.5", "0.6", "0.7", "0.8", "K")]);
    let both = analyze_pdf("a.pdf", 2, "0.1 0.2 0.3 0.4 CMYK", "0.5 0.6 0.7 0.8 K", None);
    assert_eq!(
        both.color_profiles,
        vec![
            profile(1, "0.1", "0.2", "0.3", "0.4", "CMYK"),
            profile(2, "0.5", "0.6", "0.7", "0.8", "K"),
        ]
    );
}

#[test]
fn form_fields_are_found_by_their_marker() {
    assert!(has_form_fields(&b"/Subtype /Widget".to_vec()));
    assert!(has_form_fields(&b"<< /Type /Annot /Subtype /Widget /FT /Tx >>".to_vec()));
    assert!(has_form_fields(&b"xx/Subtype /Widget".to_vec()));
    assert!(!has_form_fields(&b"/Subtype /Widge".to_vec()));
    assert!(!has_form_fields(&b"/Subtype/Widget".to_vec()));
    assert!(!has_form_fields(&b"/Subtype /Link".to_vec()));
    assert!(!has_form_fields(&Vec::new()));
    assert!(!has_form_fields(&b"/subtype /widget".to_vec()));
}

#[test]
fn page_count_of_the_renderer_is_a_positive_integer() {
    assert_eq!(parse_ghostscript_page_count("12\n", ""), Some(12));
    assert_eq!(parse_ghostscript_page_count("  \n", " 7 "), Some(7));
    assert_eq!(parse_ghostscript_page_count("3", "warning"), Some(3));
    assert_eq!(parse_ghostscript_page_count("0", ""), None);
    assert_eq!(parse_ghostscript_page_count("-3", ""), None);
    assert_eq!(parse_ghostscript_page_count("abc", ""), None);
    assert_eq!(parse_ghostscript_page_count("", ""), None);
    assert_eq!(parse_ghostscript_page_count("1 2", ""), None);
    assert_eq!(parse_ghostscript_page_count("9223372036854775808", ""), None);
}

#[test]
fn page_count_of_the_information_utility_is_on_its_pages_line() {
    let listing = "Title:          Sample\nProducer:       tool\nPages:          2\nEncrypted:      no\n";
    assert_eq!(pdfinfo_page_count(&output(true, "exit status: 0", listing, "")), Ok(2));
    assert_eq!(
        pdfinfo_page_count(&output(true, "exit status: 0", "  Pages:\t10  \r\nPages: 3\n", "")),
        Ok(10)
    );
    assert_eq!(
        pdfinfo_page_count(&output(true, "exit status: 0", "Title: x\n", "")),
        Err(PdfinfoFallback::MissingPagesField)
    );
    assert_eq!(
        pdfinfo_page_count(&output(true, "exit status: 0", "Pages: two\n", "")),
        Err(PdfinfoFallback::MissingPagesField)
    );
    assert_eq!(
        pdfinfo_page_count(&output(true, "exit status: 0", "Pages: 0\n", "")),
        Err(PdfinfoFallback::InvalidPagesValue)
    );
    assert_eq!(
        pdfinfo_page_count(&output(true, "exit status: 0", "Pages: ١٢\nPages: 5\n", "")),
        Err(PdfinfoFallback::InvalidPagesValue)
    );
    assert_eq!(
        pdfinfo_page_count(&output(true, "exit status: 0", "Pages: 99999999999999999999\n", "")),
        Err(PdfinfoFallback::InvalidPagesValue)
    );
    assert_eq!(
        pdfinfo_page_count(&output(false, "exit status: 1", listing, "broken")),
        Err(PdfinfoFallback::Failed)
    );
    assert_eq!(
        pdfinfo_page_count(&output(true, "exit status: 0", "Number of Pages: 4\n", "")),
        Err(PdfinfoFallback::MissingPagesField)
    );
}

#[test]
fn digits_of_a_pages_line_spell_a_positive_count() {
    assert_eq!(page_count_from_capture(Some("2")), Some(2));
    assert_eq!(page_count_from_capture(Some("0010")), Some(10));
    assert_eq!(page_count_from_capture(Some("0")), None);
    assert_eq!(page_count_from_capture(Some("")), None);
    assert_eq!(page_count_from_capture(None), None);
}

#[test]
fn reasons_for_the_fallback_are_put_into_words() {
    assert_eq!(
        describe_fallback(PdfinfoFallback::Failed, &output(false, "exit status: 1", "", " Syntax Error \n")),
        "Syntax Error"
    );
    assert_eq!(
        describe_fallback(PdfinfoFallback::Failed, &output(false, "exit status: 1", "", " ")),
        "exit=exit status: 1"
    );
    assert_eq!(
        describe_fallback(PdfinfoFallback::MissingPagesField, &output(true, "", "", "")),
        "missing Pages field in pdfinfo output"
    );
    assert_eq!(
        describe_fallback(PdfinfoFallback::InvalidPagesValue, &output(true, "", "", "")),
        "invalid Pages value in pdfinfo output"
    );
}

#[test]
fn the_fallback_is_logged_once() {
    let mut log = FallbackLog { logged: false };
    assert_eq!(log_pdfinfo_fallback(&mut log, "spawn failed: not found"), Some("spawn failed: not found".to_string()));
    assert!(log.logged);
    assert_eq!(log_pdfinfo_fallback(&mut log, "again"), None);
    assert_eq!(log_pdfinfo_fallback(&mut log, "and again"), None);
    assert!(log.logged);
}

#[test]
fn a_program_that_succeeded_gives_its_streams() {
    assert_eq!(
        command_result("gs", output(true, "exit status: 0", "out", "err")),
        Ok(("out".to_string(), "err".to_string()))
    );
}

#[test]
fn a_program_that_failed_gives_its_reason() {
    assert_eq!(
        command_result("gs", output(false, "exit status: 1", "out", "  bad thing \n")),
        Err("bad thing".to_string())
    );
    assert_eq!(
        command_result("gs", output(false, "exit status: 1", " said this ", " \n")),
        Err("said this".to_string())
    );
    assert_eq!(
        command_result("gs", output(false, "exit status: 1", "", "")),
        Err("gs failed with status exit status: 1".to_string())
    );
}

#[test]
fn the_time_limit_defaults_to_two_minutes() {
    assert_eq!(command_timeout_ms(None), 120_000);
    assert_eq!(command_timeout_ms(Some("5000".to_string())), 5_000);
    assert_eq!(command_timeout_ms(Some("0".to_string())), 120_000);
    assert_eq!(command_timeout_ms(Some("soon".to_string())), 120_000);
    assert_eq!(command_timeout_ms(Some("-5".to_string())), 120_000);
    assert_eq!(timeout_message("gs", 120_000), "gs timed out after 120000 ms");
    assert_eq!(timeout_message("mutool", 1), "mutool timed out after 1 ms");
}

#[test]
fn arguments_of_the_renderer() {
    assert_eq!(
        page_count_args("/tmp/in.pdf"),
        vec![
            "-q",
            "-dNODISPLAY",
            "-dSAFER",
            "--permit-file-read=/tmp/in.pdf",
            "-c",
            "(/tmp/in.pdf) (r) file runpdfbegin pdfpagecount = quit",
        ]
    );
    assert_eq!(
        inkcov_args("/tmp/in.pdf"),
        vec!["-q", "-o", "-", "-dSAFER", "-dBATCH", "-dNOPAUSE", "-sDEVICE=inkcov", "/tmp/in.pdf"]
    );
    assert_eq!(
        grayscale_args("/tmp/in.pdf", "/tmp/out.pdf"),
        vec![
            "-q",
            "-dNOPAUSE",
            "-dBATCH",
            "-dSAFER",
            "-sDEVICE=pdfwrite",
            "-sColorConversionStrategy=Gray",
            "-dProcessColorModel=/DeviceGray",
            "-sOutputFile=/tmp/out.pdf",
            "/tmp/in.pdf",
        ]
    );
}

#[test]
fn pages_are_counted_by_the_information_utility_where_it_can() {
    let (state, first) = PageCountState::start("/tmp/in.pdf".to_string());
    assert_eq!(first, PageCountAction::RunPdfinfo { file_path: "/tmp/in.pdf".to_string() });
    assert!(state.accepts(&PageCountEvent::Pdfinfo(Err(String::new()))));
    assert!(!state.accepts(&PageCountEvent::Ghostscript(Err(String::new()))));
    let (state, action) = state.step(PageCountEvent::Pdfinfo(Ok(output(true, "exit status: 0", "Pages: 7\n", ""))));
    assert_eq!(action, PageCountAction::Finish(Ok(7)));
    assert_eq!(state, PageCountState::Done);
    assert!(!state.accepts(&PageCountEvent::Pdfinfo(Err(String::new()))));
}

#[test]
fn pages_are_counted_by_the_renderer_where_the_utility_cannot() {
    let begin = || PageCountState::start("/tmp/in.pdf".to_string()).0;
    let (state, action) = begin().step(PageCountEvent::Pdfinfo(Err("No such file or directory (os error 2)".to_string())));
    let cause = FallbackCause::SpawnFailed("No such file or directory (os error 2)".to_string());
    assert_eq!(describe_cause(&cause), "spawn failed: No such file or directory (os error 2)");
    assert_eq!(action, PageCountAction::RunGhostscript { file_path: "/tmp/in.pdf".to_string(), cause });
    assert_eq!(
        state.clone().step(PageCountEvent::Ghostscript(Ok(("3\n".to_string(), String::new())))).1,
        PageCountAction::Finish(Ok(3))
    );
    assert_eq!(
        state.clone().step(PageCountEvent::Ghostscript(Ok((String::new(), "zero".to_string())))).1,
        PageCountAction::Finish(Err(PageCountError::InvalidCount))
    );
    assert_eq!(
        state.step(PageCountEvent::Ghostscript(Err("gs timed out after 120000 ms".to_string()))).1,
        PageCountAction::Finish(Err(PageCountError::Toolchain("gs timed out after 120000 ms".to_string())))
    );
    let broken = output(false, "exit status: 1", "", " Syntax Error: no trailer \n");
    let (_, action) = begin().step(PageCountEvent::Pdfinfo(Ok(broken.clone())));
    let cause = FallbackCause::NoCount { fallback: PdfinfoFallback::Failed, output: broken };
    assert_eq!(describe_cause(&cause), "Syntax Error: no trailer");
    assert_eq!(action, PageCountAction::RunGhostscript { file_path: "/tmp/in.pdf".to_string(), cause });
    let silent = output(true, "exit status: 0", "Title: x\n", "");
    assert!(matches!(
        begin().step(PageCountEvent::Pdfinfo(Ok(silent))).1,
        PageCountAction::RunGhostscript { cause: FallbackCause::NoCount { fallback: PdfinfoFallback::MissingPagesField, .. }, .. }
    ));
    assert_eq!(PageCountError::InvalidCount.message(), "Invalid page count reported by Ghostscript.");
    assert_eq!(PageCountError::Toolchain("boom".to_string()).message(), "boom");
}
