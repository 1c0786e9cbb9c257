use xml_errors::{Error, ErrorPos, StreamError, TokenType};

#[test]
fn err_size_1() {
    assert!(::std::mem::size_of::<Error>() <= 64);
}

#[test]
fn err_size_2() {
    println!("{}", ::std::mem::size_of::<StreamError>());
    assert!(::std::mem::size_of::<StreamError>() <= 64);
}

#[test]
fn position_new_and_display() {
    let p = ErrorPos::new(3, 7);
    assert_eq!(p.row, 3);
    assert_eq!(p.col, 7);
    assert_eq!(p.display(), "3:7");
}

#[test]
fn position_display_multi_digit() {
    assert_eq!(ErrorPos::new(120, 4057).display(), "120:4057");
    assert_eq!(ErrorPos::new(0, 0).display(), "0:0");
    assert_eq!(ErrorPos::new(u32::MAX, 1).display(), "4294967295:1");
}

#[test]
fn unexpected_end_of_stream_display() {
    assert_eq!(
        StreamError::UnexpectedEndOfStream.display(),
        "unexpected end of stream"
    );
}

#[test]
fn invalid_name_display() {
    assert_eq!(StreamError::InvalidName.display(), "invalid name token");
}

#[test]
fn invalid_char_display() {
    let e = StreamError::InvalidChar(vec![b'x', b'a', b'b'], ErrorPos::new(1, 1));
    assert_eq!(e.display(), "expected 'a', 'b' not 'x' at 1:1");
}

#[test]
fn invalid_char_one_alternative() {
    let e = StreamError::InvalidChar(vec![b'!', b'>'], ErrorPos::new(7, 12));
    assert_eq!(e.display(), "expected '>' not '!' at 7:12");
}

#[test]
fn invalid_char_no_alternatives() {
    let e = StreamError::InvalidChar(vec![b'x'], ErrorPos::new(1, 1));
    assert_eq!(e.display(), "expected '' not 'x' at 1:1");
}

#[test]
fn invalid_quote_display() {
    let e = StreamError::InvalidQuote('x', ErrorPos::new(2, 9));
    assert_eq!(e.display(), "expected quote mark not 'x' at 2:9");
}

#[test]
fn invalid_space_display() {
    let e = StreamError::InvalidSpace('=', ErrorPos::new(14, 3));
    assert_eq!(e.display(), "expected space not '=' at 14:3");
}

#[test]
fn invalid_string_display() {
    let e = StreamError::InvalidString(
        vec!["foo".to_string(), "bar".to_string(), "baz".to_string()],
        ErrorPos::new(2, 4),
    );
    assert_eq!(e.display(), "expected 'bar', 'baz' not 'foo' at 2:4");
}

#[test]
fn invalid_string_no_alternatives() {
    let e = StreamError::InvalidString(vec!["foo".to_string()], ErrorPos::new(1, 1));
    assert_eq!(e.display(), "expected '' not 'foo' at 1:1");
}

#[test]
fn invalid_reference_display() {
    assert_eq!(StreamError::InvalidReference.display(), "invalid reference");
}

#[test]
fn invalid_external_id_display() {
    assert_eq!(
        StreamError::InvalidExternalID.display(),
        "invalid ExternalID"
    );
}

#[test]
fn invalid_token_without_cause() {
    let e = Error::InvalidToken(TokenType::Comment, ErrorPos::new(5, 6), None);
    assert_eq!(e.display(), "invalid token 'Comment' at 5:6");
}

#[test]
fn invalid_token_with_cause() {
    let cause = StreamError::InvalidQuote('x', ErrorPos::new(5, 14));
    let cause_text = cause.display();
    let e = Error::InvalidToken(TokenType::Attribute, ErrorPos::new(5, 6), Some(cause));
    let text = e.display();
    assert_eq!(
        text,
        "invalid token 'Attribute' at 5:6 cause expected quote mark not 'x' at 5:14"
    );
    // The cause text is exactly the cause's own rendering.
    assert!(text.ends_with(&format!(" cause {}", cause_text)));
}

#[test]
fn unexpected_token_display() {
    let e = Error::UnexpectedToken(TokenType::Cdata, ErrorPos::new(8, 1));
    assert_eq!(e.display(), "unexpected token 'CDATA' at 8:1");
}

#[test]
fn unknown_token_display() {
    let e = Error::UnknownToken(ErrorPos::new(42, 13));
    assert_eq!(e.display(), "unknown token at 42:13");
}

#[test]
fn descriptions() {
    let e = Error::UnknownToken(ErrorPos::new(1, 1));
    assert_eq!(e.description(), "an XML parsing error");
    let se = StreamError::InvalidName;
    assert_eq!(se.description(), "an XML stream parsing error");
}

#[test]
fn token_type_display() {
    assert_eq!(TokenType::Declaration.display(), "Declaration");
    assert_eq!(TokenType::ProcessingInstruction.display(), "Processing Instruction");
    assert_eq!(TokenType::ElementStart.display(), "Element Start");
    assert_eq!(TokenType::Text.display(), "Text");
}

#[test]
fn position_equality_and_copy() {
    let a = ErrorPos::new(9, 9);
    let b = a;
    assert_eq!(a, b);
    assert!(ErrorPos::new(1, 2) != ErrorPos::new(2, 1));
}
