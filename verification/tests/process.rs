use mdbook_svgbob::pipeline::commit_unit;
use mdbook_svgbob::pipeline::process_units;
use mdbook_svgbob::events::TransformError;
use mdbook_svgbob::render::Settings;

#[test]
fn process_code_blocks() {
    let settings = Settings::default();
    let content = "```bob\n-->\n```";
    let result = mdbook_svgbob::pipeline::process_code_blocks(content, &settings).unwrap();
    assert!(result.contains("<svg"));
    assert!(result.contains("<line"));
    assert!(result.contains("#triangle"));
}

#[test]
fn rendered_block_loses_its_fence() {
    let settings = Settings::default();
    let content = "# Title\n\n```bob\n-->\n```\n\nafter\n";
    let result = mdbook_svgbob::pipeline::process_code_blocks(content, &settings).unwrap();
    assert!(result.contains("<svg"));
    assert!(!result.contains("```bob"));
    assert!(!result.contains("```"));
    assert!(result.contains("after"));
}

#[test]
fn untagged_document_is_formatting_equivalent() {
    let settings = Settings::default();
    let content = "# One\n\nplain *text* here\n\n```rust\nlet x = 1;\n```\n\n- a\n- b\n";
    let result = mdbook_svgbob::pipeline::process_code_blocks(content, &settings).unwrap();
    let original_events: Vec<pulldown_cmark::Event> =
        pulldown_cmark::Parser::new_ext(content, pulldown_cmark::Options::all()).collect();
    let result_events: Vec<pulldown_cmark::Event> =
        pulldown_cmark::Parser::new_ext(&result, pulldown_cmark::Options::all()).collect();
    assert_eq!(original_events, result_events);
}

#[test]
fn second_pass_renders_nothing_new() {
    let settings = Settings::default();
    let content = "intro\n\n```bob\n-->\n```\n\noutro\n";
    let once = mdbook_svgbob::pipeline::process_code_blocks(content, &settings).unwrap();
    let twice = mdbook_svgbob::pipeline::process_code_blocks(&once, &settings).unwrap();
    let thrice = mdbook_svgbob::pipeline::process_code_blocks(&twice, &settings).unwrap();
    assert_eq!(once.matches("<svg").count(), 1);
    assert_eq!(twice.matches("<svg").count(), 1);
    assert!(!twice.contains("```bob"));
    assert_eq!(thrice, twice);
}

#[test]
fn empty_tagged_block_stays_unrendered() {
    let settings = Settings::default();
    let mut units: Vec<String> = vec!["```bob\n```\n".to_owned()];
    let done = process_units(&mut units, &settings);
    assert_eq!(done, vec![false]);
    assert_eq!(units[0], "```bob\n```\n");
    assert!(!units[0].contains("<svg"));
}

#[test]
fn table_below_tagged_block_keeps_its_pipes() {
    let settings = Settings::default();
    let table = "| left | right |\n|------|-------|\n| a    | b     |\n";
    let content = format!("```bob\n-->\n```\n\n{}", table);
    let result = mdbook_svgbob::pipeline::process_code_blocks(&content, &settings).unwrap();
    assert!(result.contains("<svg"));
    let table_alone = mdbook_svgbob::pipeline::process_code_blocks(table, &settings).unwrap();
    assert!(result.ends_with(table_alone.trim_start()));
    assert!(!result.contains("\\|"));
}

#[test]
fn failed_unit_keeps_original_and_siblings_proceed() {
    let one = "first".to_owned();
    let two = "second".to_owned();
    let three = "third".to_owned();
    let kept_one = commit_unit(one, Ok("FIRST".to_owned()));
    let kept_two = commit_unit(two, Err(TransformError::Serialize));
    let kept_three = commit_unit(three, Ok("THIRD".to_owned()));
    assert_eq!(kept_one, "FIRST");
    assert_eq!(kept_two, "second");
    assert_eq!(kept_three, "THIRD");
}

#[test]
fn walker_transforms_every_unit_in_order() {
    let settings = Settings::default();
    let mut units: Vec<String> = vec![
        "# A\n\n```bob\n-->\n```\n".to_owned(),
        "just text\n".to_owned(),
    ];
    let done = process_units(&mut units, &settings);
    assert_eq!(done, vec![true, true]);
    assert!(units[0].contains("<svg"));
    assert!(units[1].contains("just text"));
}
