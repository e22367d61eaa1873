use annotate::extract::{compile_header, extract_segment};
use annotate::locate::candidate_stem;
use annotate::pattern::header_pattern;
use annotate::prompt::{Prompt, Text};
use genai::chat::ChatRole;

#[test]
fn bare_headers_split_example_blob() {
    let blob = "main\nprint('hi')\n\nservice\nx=1\n";
    assert_eq!(extract_segment(blob, "main"), Some("print('hi')".to_string()));
    assert_eq!(extract_segment(blob, "service"), Some("x=1".to_string()));
}

#[test]
fn segment_stops_at_next_header() {
    let blob = "# a.py\nbody of a\nmore a\n# b.py\nbody of b\n";
    let a = extract_segment(blob, "a").unwrap();
    assert_eq!(a, "body of a\nmore a");
    assert!(!a.contains("body of b"));
    assert_eq!(extract_segment(blob, "b"), Some("body of b".to_string()));
}

#[test]
fn header_with_extension_and_last_section_runs_to_end() {
    let blob = "main.py\na = 10\nprint(a)\n\nservice.py\nb = 1\n# cube of b\na = b * b * b\n";
    assert_eq!(extract_segment(blob, "main"), Some("a = 10\nprint(a)".to_string()));
    assert_eq!(
        extract_segment(blob, "service"),
        Some("b = 1\n# cube of b\na = b * b * b".to_string())
    );
}

#[test]
fn stem_with_dot_is_matched_literally() {
    let blob = "axb\nwrong = 1\n\na.b\nright = 2\n";
    assert_eq!(extract_segment(blob, "a.b"), Some("right = 2".to_string()));
    let only_lookalike = "axb\nwrong = 1\n";
    assert_eq!(extract_segment(only_lookalike, "a.b"), None);
}

#[test]
fn stem_with_other_meta_characters_is_literal() {
    let blob = "a+b\nplus = 1\n\naab\nother = 2\n";
    assert_eq!(extract_segment(blob, "a+b"), Some("plus = 1".to_string()));
    assert_eq!(extract_segment("aab\nx = 1\n", "a+b"), None);
    assert_eq!(extract_segment("f(x)\nbody()\n", "f(x)"), Some("body()".to_string()));
}

#[test]
fn lone_name_line_without_blank_line_ends_section() {
    let blob = "A\nbody of A\nB\nbody of B\n";
    assert_eq!(extract_segment(blob, "A"), Some("body of A".to_string()));
    assert_eq!(extract_segment(blob, "B"), Some("body of B".to_string()));
}

#[test]
fn body_line_holding_only_a_name_counts_as_header() {
    let blob = "main\npass\nx = 1\n";
    assert_eq!(extract_segment(blob, "main"), Some(String::new()));
    assert_eq!(extract_segment(blob, "pass"), Some("x = 1".to_string()));
}

#[test]
fn absent_stem_gives_none() {
    let blob = "main\nprint('hi')\n";
    assert_eq!(extract_segment(blob, "service"), None);
    assert_eq!(extract_segment("", "main"), None);
}

#[test]
fn stem_inside_a_longer_name_is_not_a_header() {
    let blob = "mainframe\ncode\n";
    assert_eq!(extract_segment(blob, "main"), None);
}

#[test]
fn first_of_duplicate_headers_wins() {
    let blob = "main\nfirst()\n\nmain\nsecond()\n";
    assert_eq!(extract_segment(blob, "main"), Some("first()".to_string()));
}

#[test]
fn pattern_escapes_the_stem() {
    assert_eq!(
        header_pattern("a.b"),
        "(?ms)^(?:# )?a\\.b(?:\\.py)?[ \\t]*$\\s*(.*?)\\s*(?:^(?:# )?[a-zA-Z0-9_]+(?:\\.py)?[ \\t]*$|\\z)"
    );
    assert!(header_pattern("plain").contains("# )?plain(?:"));
}

#[test]
fn header_pattern_compiles() {
    assert!(compile_header("main").is_ok());
    assert!(compile_header("a.b[c]").is_ok());
}

#[test]
fn candidate_stems() {
    assert_eq!(candidate_stem("main.py", true), Some("main".to_string()));
    assert_eq!(candidate_stem("a.b.py", true), Some("a.b".to_string()));
    assert_eq!(candidate_stem("main.py", false), None);
    assert_eq!(candidate_stem("main.rs", true), None);
    assert_eq!(candidate_stem("main.pyc", true), None);
    assert_eq!(candidate_stem(".py", true), None);
    assert_eq!(candidate_stem("py", true), None);
    assert_eq!(candidate_stem("main", true), None);
}

#[test]
fn extracted_text_through_session() {
    let t = Text::new("system", "user", "model", "./python");
    let blob = "main\nprint('hi')\n\nservice\nx=1\n".to_string();
    assert_eq!(t.extracted_text(blob.clone(), "main"), Some("print('hi')".to_string()));
    assert_eq!(t.extracted_text(blob, "absent"), None);
}

#[test]
fn request_holds_system_then_user_message() {
    let t = Text::new("be an expert", "comment these files", "model", "./python");
    let req = t.build_message().into_chat_request();
    assert!(req.system.is_none());
    assert_eq!(req.messages.len(), 2);
    assert!(matches!(req.messages[0].role, ChatRole::System));
    assert_eq!(req.messages[0].content.text_as_str(), Some("be an expert"));
    assert!(matches!(req.messages[1].role, ChatRole::User));
    assert_eq!(req.messages[1].content.text_as_str(), Some("comment these files"));
}
