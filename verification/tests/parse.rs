use code_fence::{CodeParser, ExtractedBlock, Failure, ScanError};

fn block(language: &str, path: Option<&str>, body: &str) -> ExtractedBlock {
    ExtractedBlock {
        language: language.to_string(),
        path: path.map(|p| p.to_string()),
        body: body.to_string(),
    }
}

#[test]
fn plain_block_with_language() {
    let mut parser = CodeParser::from_str("```rust\nfn f(){}\n```");
    let blocks = parser.parse();
    assert_eq!(blocks, vec![block("rust", None, "fn f(){}\n")]);
    assert!(parser.failures().is_empty());
}

#[test]
fn block_with_path_annotation() {
    let mut parser = CodeParser::from_str("```ts\n// src/a.ts\nexport const x=1;\n```");
    let blocks = parser.parse();
    assert_eq!(blocks.len(), 1);
    assert_eq!(blocks[0].language, "ts");
    assert_eq!(blocks[0].path, Some("src/a.ts".to_string()));
    assert_eq!(blocks[0].body, "export const x=1;\n");
    assert!(parser.failures().is_empty());
}

#[test]
fn unterminated_fence_is_one_failure() {
    let mut parser = CodeParser::from_str("```py\nprint(1)");
    let blocks = parser.parse();
    assert!(blocks.is_empty());
    assert_eq!(
        parser.failures(),
        &vec![Failure { reason: ScanError::UnterminatedFence, fence_at: 0 }]
    );
}

#[test]
fn unterminated_fence_after_text_points_at_its_fence() {
    let mut parser = CodeParser::from_str("see: ```py\nprint(1)");
    let blocks = parser.parse();
    assert!(blocks.is_empty());
    assert_eq!(
        parser.failures(),
        &vec![Failure { reason: ScanError::UnterminatedFence, fence_at: 5 }]
    );
}

#[test]
fn text_without_backticks_has_no_block() {
    let mut parser = CodeParser::from_str("nothing fenced here, only prose.\nTwo lines.");
    let blocks = parser.parse();
    assert!(blocks.is_empty());
    assert!(parser.failures().is_empty());
    assert!(parser.is_at_end());
}

#[test]
fn lone_backtick_stays_in_body() {
    let mut parser = CodeParser::from_str("```md\nuse `x` and ``y`` here\n```");
    let blocks = parser.parse();
    assert_eq!(blocks, vec![block("md", None, "use `x` and ``y`` here\n")]);
    assert!(parser.failures().is_empty());
}

#[test]
fn empty_input_has_no_block() {
    let mut parser = CodeParser::from_str("");
    assert!(parser.is_at_end());
    let blocks = parser.parse();
    assert!(blocks.is_empty());
    assert!(parser.failures().is_empty());
}

#[test]
fn fence_without_language_or_path() {
    let mut parser = CodeParser::from_str("```\nplain text\n```");
    let blocks = parser.parse();
    assert_eq!(blocks, vec![block("", None, "plain text\n")]);
}

#[test]
fn blank_header_line_is_not_a_language() {
    let mut parser = CodeParser::from_str("```   \n\n  code();\n```");
    let blocks = parser.parse();
    assert_eq!(blocks, vec![block("", None, "code();\n")]);
}

#[test]
fn path_without_language() {
    let mut parser = CodeParser::from_str("```\n// lib/mod.rs\nmod a;\n```");
    let blocks = parser.parse();
    assert_eq!(blocks, vec![block("", Some("lib/mod.rs"), "mod a;\n")]);
}

#[test]
fn path_directly_after_fence() {
    let mut parser = CodeParser::from_str("```//p q```");
    let blocks = parser.parse();
    assert_eq!(blocks, vec![block("", Some("p"), "q")]);
}

#[test]
fn language_that_starts_with_a_symbol_is_body() {
    let mut parser = CodeParser::from_str("```#!sh\nls\n```");
    let blocks = parser.parse();
    assert_eq!(blocks, vec![block("", None, "#!sh\nls\n")]);
}

#[test]
fn trailing_text_after_last_block_is_no_error() {
    let mut parser = CodeParser::from_str("```c\nint x;\n``` and that is all, with one ` tick");
    let blocks = parser.parse();
    assert_eq!(blocks, vec![block("c", None, "int x;\n")]);
    assert!(parser.failures().is_empty());
    assert!(parser.is_at_end());
}

#[test]
fn blocks_come_in_document_order() {
    let input = "First:\n```rust\n// src/a.rs\nfn a() {}\n```\nthen\n```py\nb = 1\n```\nand\n```\nc\n```\n";
    let mut parser = CodeParser::from_str(input);
    let blocks = parser.parse();
    assert_eq!(
        blocks,
        vec![
            block("rust", Some("src/a.rs"), "fn a() {}\n"),
            block("py", None, "b = 1\n"),
            block("", None, "c\n"),
        ]
    );
    assert!(parser.failures().is_empty());
}

#[test]
fn good_blocks_before_an_open_fence_are_kept() {
    let input = "```a\n1\n``` ```b\n2\n``` ```c\n3";
    let mut parser = CodeParser::from_str(input);
    let blocks = parser.parse();
    assert_eq!(blocks, vec![block("a", None, "1\n"), block("b", None, "2\n")]);
    assert_eq!(
        parser.failures(),
        &vec![Failure { reason: ScanError::UnterminatedFence, fence_at: 22 }]
    );
}

#[test]
fn strict_and_lenient_agree() {
    let input = "```a\n1\n``` ```b\n2";
    let mut lenient = CodeParser::from_str(input);
    let mut strict = CodeParser::from_str(input).with_strict(true);
    let from_lenient = lenient.parse();
    let from_strict = strict.parse();
    assert_eq!(from_lenient, vec![block("a", None, "1\n")]);
    assert_eq!(from_lenient, from_strict);
    assert_eq!(lenient.failures(), strict.failures());
    assert_eq!(lenient.failures().len(), 1);
    assert_eq!(lenient.offset(), strict.offset());
    assert_eq!(strict.offset(), 17);
}

#[test]
fn lone_fence_is_malformed() {
    let mut parser = CodeParser::from_str("```");
    let blocks = parser.parse();
    assert!(blocks.is_empty());
    assert_eq!(
        parser.failures(),
        &vec![Failure { reason: ScanError::UnterminatedFence, fence_at: 0 }]
    );
}

#[test]
fn header_that_runs_into_the_end_is_malformed() {
    for input in ["```rust", "```rust\n//", "```rust\n// src/a.rs", "```rust\n// src/a.rs\n"] {
        let mut parser = CodeParser::from_str(input);
        let blocks = parser.parse();
        assert!(blocks.is_empty());
        assert_eq!(
            parser.failures(),
            &vec![Failure { reason: ScanError::UnterminatedFence, fence_at: 0 }]
        );
    }
}

#[test]
fn other_comment_prefix() {
    let mut parser = CodeParser::from_str("```py\n# tools/run.py\nprint(1)\n```").with_prefix("#");
    let blocks = parser.parse();
    assert_eq!(blocks, vec![block("py", Some("tools/run.py"), "print(1)\n")]);

    let mut sql = CodeParser::from_str("```sql\n-- db/init.sql\nselect 1;\n```").with_prefix("--");
    assert_eq!(sql.parse(), vec![block("sql", Some("db/init.sql"), "select 1;\n")]);

    let mut default = CodeParser::from_str("```py\n# tools/run.py\nprint(1)\n```");
    assert_eq!(default.parse(), vec![block("py", None, "# tools/run.py\nprint(1)\n")]);
}

#[test]
fn parsing_again_gives_the_same() {
    let input = "x ```rust\n// a.rs\nfn a() {}\n``` y ```\nz\n``` ```open";
    let mut parser = CodeParser::from_str(input);
    let first = parser.parse();
    let first_failures = parser.failures().clone();
    parser.rewind();
    assert_eq!(parser.offset(), 0);
    assert!(parser.failures().is_empty());
    let second = parser.parse();
    assert_eq!(first, second);
    assert_eq!(&first_failures, parser.failures());
    let mut other = CodeParser::from_str(input);
    assert_eq!(other.parse(), first);
    assert_eq!(first.len(), 2);
}

#[test]
fn parse_after_parse_finds_nothing_more() {
    let mut parser = CodeParser::from_str("```a\n1\n```");
    assert_eq!(parser.parse().len(), 1);
    assert!(parser.parse().is_empty());
    assert!(parser.failures().is_empty());
}

#[test]
fn characters_beyond_ascii_count_as_one() {
    let input = "é ```rs\n// src/ü.rs\nlet s = \"日本語\";\n```\u{a0}";
    let mut parser = CodeParser::from_str(input);
    let blocks = parser.parse();
    assert_eq!(blocks, vec![block("rs", Some("src/ü.rs"), "let s = \"日本語\";\n")]);
    assert_eq!(parser.offset(), input.chars().count());
}

#[test]
fn unicode_whitespace_separates_tokens() {
    let mut parser = CodeParser::from_str("```rs\u{2003}//\u{a0}a.rs\u{3000}x```");
    let blocks = parser.parse();
    assert_eq!(blocks, vec![block("rs", Some("a.rs"), "x")]);
}
