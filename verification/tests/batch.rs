use css_pipeline::compile_single_sync;
use css_pipeline::compile_sync;
use css_pipeline::CompileOption;
use css_pipeline::CompileResult;
use css_pipeline::CompileSingleOption;
use float_pigment_css::StyleSheetResource;

fn request(output_type: &str, prefix: &str, src: Vec<(&str, &[u8])>) -> CompileOption {
    CompileOption {
        output_type: String::from(output_type),
        tag_name_prefix: String::from(prefix),
        src: src.into_iter().map(|(name, data)| (String::from(name), data.to_vec())).collect(),
    }
}

fn names(result: &CompileResult) -> Vec<String> {
    result.files.iter().map(|(name, _)| name.clone()).collect()
}

fn engine_alone(name: &str, text: &str) -> (Option<Vec<u8>>, Vec<String>) {
    let mut engine = StyleSheetResource::new();
    let warnings = engine.add_source(name, text);
    let messages = warnings.iter().map(|w| String::from(w.message.as_str())).collect();
    (engine.serialize_bincode(name), messages)
}

#[test]
fn unrecognised_output_type_gives_empty_result() {
    let result = compile_sync(request("json", "", vec![("a.css", b"view { color: red; }")]));
    assert!(result.files.is_empty());
    assert!(result.import_index.is_empty());
}

#[test]
fn output_type_is_matched_exactly() {
    for other in ["", "Bincode", "bincode ", "bin"] {
        let result = compile_sync(request(other, "p", vec![("a", b".a { color: red; }")]));
        assert!(result.files.is_empty());
        assert!(result.import_index.is_empty());
    }
}

#[test]
fn empty_batch_has_no_file() {
    let result = compile_sync(request("bincode", "", vec![]));
    assert!(result.files.is_empty());
    assert!(!result.import_index.is_empty());
}

#[test]
fn batch_has_one_entry_per_source_in_order() {
    let result = compile_sync(request(
        "bincode",
        "",
        vec![("z.css", b".z { color: red; }"), ("a.css", b""), ("m/n.css", b"view { width: 1px; }")],
    ));
    assert_eq!(names(&result), vec!["z.css", "a.css", "m/n.css"]);
}

#[test]
fn two_sources_with_one_empty() {
    let result = compile_sync(request("bincode", "", vec![("a.css", b"view { color: red; }"), ("b.css", b"")]));
    assert_eq!(names(&result), vec!["a.css", "b.css"]);
    let (a_artifact, a_warnings) = engine_alone("a.css", "view { color: red; }");
    let (b_artifact, b_warnings) = engine_alone("b.css", "");
    assert_eq!(result.files[0].1.content, a_artifact.unwrap());
    assert_eq!(result.files[0].1.warnings, a_warnings);
    assert_eq!(result.files[1].1.content, b_artifact.unwrap());
    assert_eq!(result.files[1].1.warnings, b_warnings);
    assert!(result.files[1].1.warnings.is_empty());
    assert_ne!(result.files[0].1.content, result.files[1].1.content);
    assert!(!result.import_index.is_empty());
}

#[test]
fn diagnostics_keep_the_order_of_the_engine() {
    let result = compile_sync(request("bincode", "", vec![("x", b".a { colr: 1; } ??? { }")]));
    assert_eq!(
        result.files[0].1.warnings,
        vec!["unsupported property: colr: 1;", "unsupported selector: ?"]
    );
}

#[test]
fn diagnostics_belong_to_their_own_file() {
    let result = compile_sync(request(
        "bincode",
        "",
        vec![("good", b".a { color: red; }"), ("bad", b".a { colr: 1; }"), ("fine", b"")],
    ));
    assert!(result.files[0].1.warnings.is_empty());
    assert_eq!(result.files[1].1.warnings, vec!["unsupported property: colr: 1;"]);
    assert!(result.files[2].1.warnings.is_empty());
}

#[test]
fn prefix_leaves_no_trace() {
    let src: Vec<(&str, &[u8])> = vec![("a.css", b"view { color: red; }"), ("b.css", b"text { width: 2px; }")];
    let plain = compile_sync(request("bincode", "", src.clone()));
    let prefixed = compile_sync(request("bincode", "wx-", src));
    assert_eq!(names(&plain), names(&prefixed));
    for i in 0..plain.files.len() {
        assert_eq!(plain.files[i].1.content, prefixed.files[i].1.content);
        assert_eq!(plain.files[i].1.warnings, prefixed.files[i].1.warnings);
    }
    let (alone, _) = engine_alone("a.css", "view { color: red; }");
    assert_eq!(prefixed.files[0].1.content, alone.unwrap());
}

#[test]
fn invalid_utf8_is_replaced_not_refused() {
    let result = compile_sync(request("bincode", "", vec![("bad", b"\xff\xfe { color: blue }")]));
    assert_eq!(names(&result), vec!["bad"]);
    let (artifact, warnings) = engine_alone("bad", "\u{FFFD}\u{FFFD} { color: blue }");
    assert_eq!(result.files[0].1.content, artifact.unwrap());
    assert_eq!(result.files[0].1.warnings, warnings);
}

#[test]
fn later_source_wins_a_shared_key() {
    let result = compile_sync(request(
        "bincode",
        "",
        vec![("a", b"view { color: red; } .b { colr: 1; }"), ("a.wxss", b"text { width: 2px; }")],
    ));
    assert_eq!(names(&result), vec!["a", "a.wxss"]);
    let (later, _) = engine_alone("a.wxss", "text { width: 2px; }");
    let later = later.unwrap();
    assert_eq!(result.files[0].1.content, later);
    assert_eq!(result.files[1].1.content, later);
    assert_eq!(result.files[0].1.warnings, vec!["unsupported property: colr: 1;"]);
    assert!(result.files[1].1.warnings.is_empty());
}

#[test]
fn doubled_extension_has_no_artifact() {
    let result = compile_sync(request("bincode", "", vec![("a.wxss.wxss", b"view { color: red; }")]));
    assert_eq!(names(&result), vec!["a.wxss.wxss"]);
    assert!(result.files[0].1.content.is_empty());
    assert!(result.files[0].1.warnings.is_empty());
}

#[test]
fn doubled_extension_files_for_the_plain_name() {
    let result = compile_sync(request(
        "bincode",
        "",
        vec![("a", b""), ("a.wxss.wxss", b"view { color: red; }")],
    ));
    let mut engine = StyleSheetResource::new();
    engine.add_source("a.wxss", "view { color: red; }");
    assert_eq!(result.files[0].1.content, engine.serialize_bincode("a").unwrap());
    assert!(result.files[1].1.content.is_empty());
}

#[test]
fn independent_sources_compile_as_alone() {
    let src: Vec<(&str, &[u8])> = vec![
        ("one.wxss", b"view { color: red; }"),
        ("two", b"@import 'one'; text { width: 2px; }"),
        ("dir/three.css", b".c { colr: 1; }"),
    ];
    let texts = ["view { color: red; }", "@import 'one'; text { width: 2px; }", ".c { colr: 1; }"];
    let result = compile_sync(request("bincode", "", src.clone()));
    for i in 0..src.len() {
        let (artifact, warnings) = engine_alone(src[i].0, texts[i]);
        assert_eq!(result.files[i].0, src[i].0);
        assert_eq!(result.files[i].1.content, artifact.unwrap());
        assert_eq!(result.files[i].1.warnings, warnings);
    }
}

#[test]
fn order_of_independent_sources_does_not_matter() {
    let forward = compile_sync(request(
        "bincode",
        "",
        vec![("a", b"view { color: red; }"), ("b", b".b { colr: 1; }")],
    ));
    let backward = compile_sync(request(
        "bincode",
        "",
        vec![("b", b".b { colr: 1; }"), ("a", b"view { color: red; }")],
    ));
    assert_eq!(forward.files[0].0, backward.files[1].0);
    assert_eq!(forward.files[0].1.content, backward.files[1].1.content);
    assert_eq!(forward.files[0].1.warnings, backward.files[1].1.warnings);
    assert_eq!(forward.files[1].1.content, backward.files[0].1.content);
    assert_eq!(forward.files[1].1.warnings, backward.files[0].1.warnings);
}

#[test]
fn same_request_gives_same_files() {
    let src: Vec<(&str, &[u8])> = vec![("a", b"@import 'b'; view { color: red; }"), ("b", b".b { colr: 1; }")];
    let first = compile_sync(request("bincode", "p", src.clone()));
    let second = compile_sync(request("bincode", "p", src));
    assert_eq!(names(&first), names(&second));
    for i in 0..first.files.len() {
        assert_eq!(first.files[i].1.content, second.files[i].1.content);
        assert_eq!(first.files[i].1.warnings, second.files[i].1.warnings);
    }
}

#[test]
fn import_index_covers_the_whole_batch() {
    let result = compile_sync(request("bincode", "", vec![("a", b"@import 'b';"), ("b", b"")]));
    let mut index = float_pigment_css::StyleSheetImportIndex::deserialize_bincode(result.import_index);
    assert_eq!(index.list_dependencies("a", true), vec!["b", "a"]);
    assert_eq!(index.query_and_mark_dependencies("b"), vec!["b"]);
}

#[test]
fn single_matches_batch_of_one() {
    for prefix in ["", "wx-"] {
        let single = compile_single_sync(CompileSingleOption {
            file_content: b"view { colr: 1; color: red; }".to_vec(),
            file_name: String::from("page.wxss"),
            output_type: String::from("bincode"),
            tag_name_prefix: String::from(prefix),
        });
        let batch = compile_sync(request("bincode", prefix, vec![("page.wxss", b"view { colr: 1; color: red; }")]));
        assert_eq!(batch.files.len(), 1);
        assert_eq!(batch.files[0].0, "page.wxss");
        assert_eq!(batch.files[0].1.content, single.content);
        assert_eq!(batch.files[0].1.warnings, single.warnings);
        assert_eq!(single.warnings, vec!["unsupported property: colr: 1;"]);
    }
}

#[test]
fn single_file_compiles_as_the_engine_does() {
    let single = compile_single_sync(CompileSingleOption {
        file_content: b"view { color: red; }".to_vec(),
        file_name: String::from("a.css"),
        output_type: String::from("bincode"),
        tag_name_prefix: String::new(),
    });
    let (artifact, warnings) = engine_alone("a.css", "view { color: red; }");
    assert_eq!(single.content, artifact.unwrap());
    assert_eq!(single.warnings, warnings);
}

#[test]
fn single_with_unrecognised_output_type_is_blank() {
    let single = compile_single_sync(CompileSingleOption {
        file_content: b".a { colr: 1; }".to_vec(),
        file_name: String::from("a.css"),
        output_type: String::from("json"),
        tag_name_prefix: String::from("p"),
    });
    assert!(single.content.is_empty());
    assert!(single.warnings.is_empty());
}

#[test]
fn single_with_invalid_utf8_still_compiles() {
    let single = compile_single_sync(CompileSingleOption {
        file_content: vec![b'.', b'a', 0x80, b' ', b'{', b'}'],
        file_name: String::from("a"),
        output_type: String::from("bincode"),
        tag_name_prefix: String::new(),
    });
    let (artifact, warnings) = engine_alone("a", ".a\u{FFFD} {}");
    assert_eq!(single.content, artifact.unwrap());
    assert_eq!(single.warnings, warnings);
}

#[test]
fn single_with_doubled_extension_has_no_artifact() {
    let single = compile_single_sync(CompileSingleOption {
        file_content: b".a { colr: 1; }".to_vec(),
        file_name: String::from("a.wxss.wxss"),
        output_type: String::from("bincode"),
        tag_name_prefix: String::new(),
    });
    assert!(single.content.is_empty());
    assert_eq!(single.warnings, vec!["unsupported property: colr: 1;"]);
}
