//! The kind of XML token the tokenizer was scanning when an error was
//! detected.
//!
//! The tokenizer proper lives outside this crate; errors only need to
//! name the kind of token that failed, so the type here is a plain
//! enumeration of the scanned constructs together with its rendering.

use vstd::prelude::*;

verus! {

/// The kind of XML token being scanned.
#[derive(Clone, Copy, PartialEq, Eq, Structural, Debug)]
pub enum TokenType {
    /// An XML declaration, `<?xml ... ?>`.
    Declaration,
    /// A comment, `<!-- ... -->`.
    Comment,
    /// A processing instruction, `<? ... ?>`.
    ProcessingInstruction,
    /// A document type declaration, `<!DOCTYPE ... >`.
    Doctype,
    /// An entity declaration inside the DTD, `<!ENTITY ... >`.
    EntityDeclaration,
    /// The start of an element, `<name`.
    ElementStart,
    /// The closing part of an element, `>`, `/>` or `</name>`.
    ElementClose,
    /// An attribute, `name="value"`.
    Attribute,
    /// A CDATA section, `<![CDATA[ ... ]]>`.
    Cdata,
    /// Whitespace between tokens.
    Whitespace,
    /// Character data between tags.
    Text,
}

/// The human-readable name of each token kind.
pub open spec fn token_rendered(t: TokenType) -> Seq<char> {
    match t {
        TokenType::Declaration => "Declaration"@,
        TokenType::Comment => "Comment"@,
        TokenType::ProcessingInstruction => "Processing Instruction"@,
        TokenType::Doctype => "Doctype Declaration"@,
        TokenType::EntityDeclaration => "Entity Declaration"@,
        TokenType::ElementStart => "Element Start"@,
        TokenType::ElementClose => "Element Close"@,
        TokenType::Attribute => "Attribute"@,
        TokenType::Cdata => "CDATA"@,
        TokenType::Whitespace => "Whitespace"@,
        TokenType::Text => "Text"@,
    }
}

impl TokenType {
    /// Renders the token kind's human-readable name.
    pub fn display(&self) -> (r: &'static str)
        ensures
            r@ == token_rendered(*self),
    {
        match *self {
            TokenType::Declaration => "Declaration",
            TokenType::Comment => "Comment",
            TokenType::ProcessingInstruction => "Processing Instruction",
            TokenType::Doctype => "Doctype Declaration",
            TokenType::EntityDeclaration => "Entity Declaration",
            TokenType::ElementStart => "Element Start",
            TokenType::ElementClose => "Element Close",
            TokenType::Attribute => "Attribute",
            TokenType::Cdata => "CDATA",
            TokenType::Whitespace => "Whitespace",
            TokenType::Text => "Text",
        }
    }
}

} // verus!
