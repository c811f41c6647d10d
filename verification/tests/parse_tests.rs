//! Parse entry points against the real outside engine.

use parser_boundary::parse::{
    parse_sync, parse_sync_buffer, parse_without_return, try_parse_sync, try_parse_sync_buffer,
    try_parse_without_return, ParserOptions,
};

fn default_options() -> Option<ParserOptions> {
    None
}

#[test]
fn clean_source_parses_without_diagnostics() {
    let r = parse_sync("const x = 1;".to_string(), default_options());
    assert!(r.errors.is_empty());
    assert!(r.comments.is_empty());
    let v: serde_json::Value = serde_json::from_str(&r.program).unwrap();
    assert_eq!(v["type"], serde_json::Value::String("Program".to_string()));
    assert_eq!(v["body"][0]["type"], serde_json::Value::String("VariableDeclaration".to_string()));
}

#[test]
fn comments_match_a_manual_scan() {
    //          0123456789012345678901234
    let src = "// a\n/* b */ const x = 1;";
    let r = parse_sync(src.to_string(), default_options());
    assert!(r.errors.is_empty());
    assert_eq!(r.comments.len(), 2);
    assert_eq!(r.comments[0].kind, "Line");
    assert_eq!(r.comments[0].value, " a");
    assert_eq!(r.comments[0].start, 2);
    assert_eq!(r.comments[0].end, 4);
    assert_eq!(r.comments[1].kind, "Block");
    assert_eq!(r.comments[1].value, " b ");
    assert_eq!(r.comments[1].start, 7);
    assert_eq!(r.comments[1].end, 10);
}

#[test]
fn malformed_source_reports_errors_and_a_wellformed_tree() {
    let r = parse_sync("function(".to_string(), default_options());
    assert!(!r.errors.is_empty());
    // The partial program is still a well-formed serialized tree.
    let v: serde_json::Value = serde_json::from_str(&r.program).unwrap();
    assert_eq!(v["type"], serde_json::Value::String("Program".to_string()));
}

#[test]
fn sync_and_offloaded_parse_agree() {
    // The async variant only changes where the parse runs; a parse
    // offloaded to a worker must return exactly what a direct call does.
    let src = "// note\nlet y = [1, 2];".to_string();
    let direct = parse_sync(src.clone(), default_options());
    let rt = tokio::runtime::Runtime::new().unwrap();
    let offloaded = rt.block_on(async move {
        tokio::spawn(async move { parse_sync(src, None) }).await.unwrap()
    });
    assert_eq!(direct.program, offloaded.program);
    assert_eq!(direct.errors, offloaded.errors);
    assert_eq!(direct.comments.len(), offloaded.comments.len());
    for (a, b) in direct.comments.iter().zip(offloaded.comments.iter()) {
        assert_eq!(a.kind, b.kind);
        assert_eq!(a.value, b.value);
        assert_eq!(a.start, b.start);
        assert_eq!(a.end, b.end);
    }
}

#[test]
fn binary_payload_reencodes_to_identical_bytes() {
    let payload = parse_sync_buffer("const x = 1;".to_string(), default_options());
    assert!(!payload.is_empty());
    // Decode the self-describing binary form and re-encode it: the bytes
    // must come back unchanged.
    let decoded: serde_json::Value = flexbuffers::from_slice(&payload).unwrap();
    let reencoded = flexbuffers::to_vec(&decoded).unwrap();
    assert_eq!(payload, reencoded);
    // And the payload encodes the same tree as the text form.
    let text = parse_sync("const x = 1;".to_string(), default_options());
    let from_text: serde_json::Value = serde_json::from_str(&text.program).unwrap();
    assert_eq!(decoded, from_text);
}

#[test]
fn filename_drives_source_type_detection() {
    let opts = ParserOptions {
        source_type: None,
        source_filename: Some("component.tsx".to_string()),
        preserve_parens: None,
    };
    let r = parse_sync("let el = <div/>;".to_string(), Some(opts));
    assert!(r.errors.is_empty());
}

#[test]
fn unknown_extension_is_rejected_not_parsed() {
    let opts = ParserOptions {
        source_type: None,
        source_filename: Some("notes.txt".to_string()),
        preserve_parens: None,
    };
    assert!(try_parse_sync("const x = 1;".to_string(), Some(opts)).is_none());
    let opts2 = ParserOptions {
        source_type: None,
        source_filename: Some("notes.txt".to_string()),
        preserve_parens: None,
    };
    assert!(try_parse_sync_buffer("const x = 1;".to_string(), Some(opts2)).is_none());
    let opts3 = ParserOptions {
        source_type: None,
        source_filename: Some("mod.js".to_string()),
        preserve_parens: None,
    };
    assert!(try_parse_sync("const x = 1;".to_string(), Some(opts3)).is_some());
}

#[test]
fn explicit_script_overrides_module_default() {
    // A `with` statement is allowed in a script but is an error in the
    // strict code of a module.
    let script = ParserOptions {
        source_type: Some("script".to_string()),
        source_filename: None,
        preserve_parens: None,
    };
    let r = parse_sync("with (x) {}".to_string(), Some(script));
    assert!(r.errors.is_empty());
    assert!(r.program.contains("\"sourceType\":\"script\""));
    let module = ParserOptions {
        source_type: Some("module".to_string()),
        source_filename: None,
        preserve_parens: None,
    };
    let r2 = parse_sync("let x = 1;".to_string(), Some(module));
    assert!(r2.errors.is_empty());
    assert!(r2.program.contains("\"sourceType\":\"module\""));
}

#[test]
fn preserve_parens_controls_paren_nodes() {
    let keep = parse_sync("(1);".to_string(), default_options());
    assert!(keep.program.contains("ParenthesizedExpression"));
    let drop = ParserOptions {
        source_type: None,
        source_filename: None,
        preserve_parens: Some(false),
    };
    let r = parse_sync("(1);".to_string(), Some(drop));
    assert!(!r.program.contains("ParenthesizedExpression"));
}

#[test]
fn parse_without_return_runs_quietly() {
    parse_without_return("const x = 1;".to_string(), default_options());
    assert!(try_parse_without_return("const x = 1;".to_string(), default_options()));
    let bad = ParserOptions {
        source_type: None,
        source_filename: Some("notes.txt".to_string()),
        preserve_parens: None,
    };
    // The checked variant reports an unknown extension instead of parsing.
    assert!(!try_parse_without_return("const x = 1;".to_string(), Some(bad)));
}

#[test]
fn raw_preflight_validates_utf8_and_room() {
    let src = "const x = 1;".as_bytes();
    let l = parser_boundary::parse::plan_raw_parse(src).unwrap();
    assert_eq!(l.data_offset, 16);
    // Malformed UTF-8 is fatal for the raw path: no layout is produced.
    let bad: Vec<u8> = vec![0xff, 0xfe, 0x80];
    assert!(parser_boundary::parse::plan_raw_parse(&bad).is_none());
}

#[test]
fn raw_protocol_computes_an_in_range_root() {
    let src = "const x = 1;".as_bytes();
    // The root object lands at the start of the data region.
    let root = parser_boundary::parse::raw_root_offset(src, 640).unwrap();
    assert_eq!(root, 16);
    // Malformed UTF-8 or an oversized root is fatal, never truncated.
    assert!(parser_boundary::parse::raw_root_offset(&[0xff, 0x80], 640).is_none());
    assert!(
        parser_boundary::parse::raw_root_offset(src, parser_boundary::layout::TOTAL_SIZE).is_none()
    );
}
