//! Parsing a doc block, mutating its directives, appending text, and
//! printing the file back; and signing a file's content.

use gull::docblock::SourceFile;
use gull::sign_source::sign_source;

#[test]
fn from_source() {
    let source = "
/*
 * @hello world
 * yo
 */

use a::b::c;
1 + 1";

    let mut source_file = SourceFile::from_source(source);
    source_file.set_directive("dog", Some("cat"));
    source_file.set_directive("hi", Some("hello"));
    source_file.set_directive("hello", Some("bro"));
    source_file.set_directive("ohio", None);
    source_file.add_text(
        "
Empty line followed by some text. That
spans across multiple lines.

And also hase some empty lines in between text
blocks.",
    );

    let expected = "/*\n * @hello bro\n * @dog cat\n * @hi hello\n * @ohio\n * yo\n * \n * Empty line followed by some text. That\n * spans across multiple lines.\n * \n * And also hase some empty lines in between text\n * blocks.\n */\n\nuse a::b::c;\n1 + 1";
    assert_eq!(source_file.to_source(), expected);
}

#[test]
fn test_signature() {
    let source = r#"
let a = "hello world";
console.log(1 + a);
        "#;

    let signed = sign_source(source);

    let expected = "/*\n * @generated\n * @signed_source 9c5583c9e6a1018a3ea5e32943816cd0dadd967f714aba23e31d67fd388a417d\n */\n\n\nlet a = \"hello world\";\nconsole.log(1 + a);\n        ";
    assert_eq!(sign_source(source), expected);
    assert_eq!(signed, expected);
}

#[test]
fn double_star_opener_and_bare_key() {
    // The opener may carry a doc-comment star; a lone `@word` with no
    // value is ordinary text, not a directive.
    let source = "/**\n * @flow x\n * @bare\n */\ncode();";
    let sf = SourceFile::from_source(source);
    assert_eq!(sf.rest, "code();");
    assert_eq!(sf.to_source(), "/*\n * @flow x\n * @bare\n */\n\ncode();");

    let mut sf = SourceFile::from_source(source);
    sf.set_directive("flow", Some("y"));
    sf.set_directive("bare", None);
    // `@flow x` is replaced in place; `@bare` was text, so a new directive
    // lands right after the last one.
    assert_eq!(sf.to_source(), "/*\n * @flow y\n * @bare\n * @bare\n */\n\ncode();");
}

#[test]
fn text_without_block_is_kept_whole() {
    let source = "  no comment here\njust code\n";
    let sf = SourceFile::from_source(source);
    assert_eq!(sf.rest, source);
    assert_eq!(sf.to_source(), source);
}
