//! Content signing: a `generated` marker and a digest of everything after
//! the doc block are embedded as doc-block directives, so downstream
//! tooling can detect manual edits to generated files.

use crate::docblock::{parse_spec, set_directive_spec, to_source_spec, SourceFile};
use sha2::Digest;
use vstd::prelude::*;

verus! {

/// The UTF-8 encoding of a text: a pure function of its characters.
pub uninterp spec fn utf8_bytes_of(s: Seq<char>) -> Seq<u8>;

/// Relies on `str::as_bytes`: the UTF-8 bytes of the text, a function of
/// the characters alone.
#[verifier::external_body]
fn utf8_bytes(s: &str) -> (r: Vec<u8>)
    ensures
        r@ == utf8_bytes_of(s@),
{
    s.as_bytes().to_vec()
}

/// The SHA-256 digest of a byte sequence: a pure function of the bytes.
pub uninterp spec fn sha256_of(bytes: Seq<u8>) -> Seq<u8>;

/// Relies on `sha2::Sha256::digest`: the SHA-256 digest, 32 bytes, a
/// function of the input bytes alone.
#[verifier::external_body]
fn sha256(bytes: &Vec<u8>) -> (r: Vec<u8>)
    ensures
        r@ == sha256_of(bytes@),
        r@.len() == 32,
{
    sha2::Sha256::digest(bytes.as_slice()).to_vec()
}

/// The lowercase hexadecimal digit of a value below sixteen.
pub open spec fn hex_digit(n: int) -> char {
    if n == 0 {
        '0'
    } else if n == 1 {
        '1'
    } else if n == 2 {
        '2'
    } else if n == 3 {
        '3'
    } else if n == 4 {
        '4'
    } else if n == 5 {
        '5'
    } else if n == 6 {
        '6'
    } else if n == 7 {
        '7'
    } else if n == 8 {
        '8'
    } else if n == 9 {
        '9'
    } else if n == 10 {
        'a'
    } else if n == 11 {
        'b'
    } else if n == 12 {
        'c'
    } else if n == 13 {
        'd'
    } else if n == 14 {
        'e'
    } else {
        'f'
    }
}

/// Lowercase hexadecimal: two digits per byte, high nibble first.
pub open spec fn hex_of(bytes: Seq<u8>) -> Seq<char>
    decreases bytes.len(),
{
    if bytes.len() == 0 {
        Seq::empty()
    } else {
        hex_of(bytes.drop_last()) + seq![
            hex_digit(bytes.last() as int / 16),
            hex_digit(bytes.last() as int % 16),
        ]
    }
}

/// Relies on `hex::encode`: each byte as two lowercase hexadecimal digits,
/// high nibble first.
#[verifier::external_body]
fn hex_encode(bytes: &Vec<u8>) -> (r: String)
    ensures
        r@ == hex_of(bytes@),
{
    hex::encode(bytes.as_slice())
}

/// The signature directive value for a file: the hex-encoded SHA-256
/// digest of everything after its doc block.
pub open spec fn signature_of(rest: Seq<char>) -> Seq<char> {
    hex_of(sha256_of(utf8_bytes_of(rest)))
}

/// Sign a source file: add a `generated` directive and a `signed_source`
/// directive holding the digest of the rest of the file to its doc block,
/// and print the file back.
pub fn sign_source(source: &str) -> (r: String)
    ensures
        ({
            let parsed = parse_spec(source@);
            let signed = set_directive_spec(
                set_directive_spec(parsed.doc_block, "generated"@, Option::None),
                "signed_source"@,
                Option::Some(signature_of(parsed.rest)),
            );
            r@ == to_source_spec(signed, parsed.rest)
        }),
{
    let mut source_file = SourceFile::from_source(source);
    let bytes = utf8_bytes(source_file.rest_str());
    let digest = sha256(&bytes);
    let hash = hex_encode(&digest);
    source_file.set_directive("generated", Option::None);
    source_file.set_directive("signed_source", Option::Some(hash.as_str()));
    source_file.to_source()
}

} // verus!
