//! Lexical errors raised while scanning a single construct.

use vstd::prelude::*;

use crate::position::{pos_rendered, ErrorPos};
use crate::text::push_char;

verus! {

/// A stream parser errors.
#[derive(Debug)]
pub enum StreamError {
    /// The stream ended earlier than we expected.
    ///
    /// Should only appear on invalid input data.
    /// Errors in a valid XML should be handled by errors below.
    UnexpectedEndOfStream,
    /// An unknown token.
    InvalidName,
    /// An invalid/unexpected character.
    ///
    /// The first byte is an actual one, others - expected.
    ///
    /// We are using a single value to reduce the struct size.
    InvalidChar(Vec<u8>, ErrorPos),
    /// An unexpected character instead of `"` or `'`.
    InvalidQuote(char, ErrorPos),
    /// An unexpected character instead of an XML space.
    ///
    /// Includes: `' ' \n \r \t &#x20; &#x9; &#xD; &#xA;`.
    InvalidSpace(char, ErrorPos),
    /// An unexpected string.
    ///
    /// The first string is an actual one, others - expected.
    ///
    /// We are using a single value to reduce the struct size.
    InvalidString(Vec<String>, ErrorPos),
    /// An invalid reference.
    InvalidReference,
    /// An invalid ExternalID in the DTD.
    InvalidExternalID,
}

/// The separator between the expected alternatives of a list.
pub open spec fn list_sep() -> Seq<char> {
    "', '"@
}

/// The expected bytes of an `InvalidChar`, each rendered as a character
/// and joined by the list separator.
pub open spec fn joined_chars(s: Seq<u8>) -> Seq<char>
    decreases s.len(),
{
    if s.len() == 0 {
        Seq::<char>::empty()
    } else if s.len() == 1 {
        seq![s[0] as char]
    } else {
        seq![s[0] as char] + list_sep() + joined_chars(s.drop_first())
    }
}

/// The expected strings of an `InvalidString`, joined by the list
/// separator.
pub open spec fn joined_strings(s: Seq<String>) -> Seq<char>
    decreases s.len(),
{
    if s.len() == 0 {
        Seq::<char>::empty()
    } else if s.len() == 1 {
        s[0]@
    } else {
        s[0]@ + list_sep() + joined_strings(s.drop_first())
    }
}

/// The one-line diagnostic of each variant. For `InvalidChar` and
/// `InvalidString` the first element of the data is the actual value
/// found and the rest are the expected alternatives.
pub open spec fn stream_rendered(e: StreamError) -> Seq<char> {
    match e {
        StreamError::UnexpectedEndOfStream => "unexpected end of stream"@,
        StreamError::InvalidName => "invalid name token"@,
        StreamError::InvalidChar(bytes, pos) => "expected '"@ + joined_chars(bytes@.drop_first())
            + "' not '"@ + seq![bytes@[0] as char] + "' at "@ + pos_rendered(pos),
        StreamError::InvalidQuote(c, pos) => "expected quote mark not '"@ + seq![c] + "' at "@
            + pos_rendered(pos),
        StreamError::InvalidSpace(c, pos) => "expected space not '"@ + seq![c] + "' at "@
            + pos_rendered(pos),
        StreamError::InvalidString(strings, pos) => "expected '"@ + joined_strings(
            strings@.drop_first(),
        ) + "' not '"@ + strings@[0]@ + "' at "@ + pos_rendered(pos),
        StreamError::InvalidReference => "invalid reference"@,
        StreamError::InvalidExternalID => "invalid ExternalID"@,
    }
}

proof fn lemma_joined_chars_push(s: Seq<u8>, x: u8)
    ensures
        joined_chars(s.push(x)) == if s.len() == 0 {
            seq![x as char]
        } else {
            joined_chars(s) + list_sep() + seq![x as char]
        },
    decreases s.len(),
{
    if s.len() == 0 {
        assert(s.push(x) =~= seq![x]);
        assert(joined_chars(seq![x]) =~= seq![x as char]);
    } else if s.len() == 1 {
        assert(s.push(x).drop_first() =~= seq![x]);
        assert(joined_chars(seq![x]) =~= seq![x as char]);
        assert(joined_chars(s.push(x)) =~= joined_chars(s) + list_sep() + seq![x as char]);
    } else {
        lemma_joined_chars_push(s.drop_first(), x);
        assert(s.push(x).drop_first() =~= s.drop_first().push(x));
        assert(joined_chars(s.push(x)) =~= joined_chars(s) + list_sep() + seq![x as char]);
    }
}

proof fn lemma_joined_strings_push(s: Seq<String>, x: String)
    ensures
        joined_strings(s.push(x)) == if s.len() == 0 {
            x@
        } else {
            joined_strings(s) + list_sep() + x@
        },
    decreases s.len(),
{
    if s.len() == 0 {
        assert(s.push(x) =~= seq![x]);
        assert(joined_strings(seq![x]) =~= x@);
    } else if s.len() == 1 {
        assert(s.push(x).drop_first() =~= seq![x]);
        assert(joined_strings(seq![x]) =~= x@);
        assert(joined_strings(s.push(x)) =~= joined_strings(s) + list_sep() + x@);
    } else {
        lemma_joined_strings_push(s.drop_first(), x);
        assert(s.push(x).drop_first() =~= s.drop_first().push(x));
        assert(joined_strings(s.push(x)) =~= joined_strings(s) + list_sep() + x@);
    }
}

fn byte_char(b: u8) -> (c: char)
    ensures
        c == b as char,
{
    b as char
}

fn join_expected_chars(bytes: &Vec<u8>) -> (r: String)
    requires
        bytes@.len() >= 1,
    ensures
        r@ == joined_chars(bytes@.drop_first()),
{
    let mut s = String::new();
    let mut i: usize = 1;
    while i < bytes.len()
        invariant
            1 <= i <= bytes@.len(),
            s@ == joined_chars(bytes@.subrange(1, i as int)),
        decreases bytes@.len() - i,
    {
        if i > 1 {
            s.append("', '");
        }
        let c = byte_char(bytes[i]);
        push_char(&mut s, c);
        proof {
            let prefix = bytes@.subrange(1, i as int);
            lemma_joined_chars_push(prefix, bytes@[i as int]);
            assert(bytes@.subrange(1, i + 1) =~= prefix.push(bytes@[i as int]));
        }
        i = i + 1;
    }
    proof {
        assert(bytes@.subrange(1, bytes@.len() as int) =~= bytes@.drop_first());
    }
    s
}

fn join_expected_strings(strings: &Vec<String>) -> (r: String)
    requires
        strings@.len() >= 1,
    ensures
        r@ == joined_strings(strings@.drop_first()),
{
    let mut s = String::new();
    let mut i: usize = 1;
    while i < strings.len()
        invariant
            1 <= i <= strings@.len(),
            s@ == joined_strings(strings@.subrange(1, i as int)),
        decreases strings@.len() - i,
    {
        if i > 1 {
            s.append("', '");
        }
        s.append(strings[i].as_str());
        proof {
            let prefix = strings@.subrange(1, i as int);
            lemma_joined_strings_push(prefix, strings@[i as int]);
            assert(strings@.subrange(1, i + 1) =~= prefix.push(strings@[i as int]));
        }
        i = i + 1;
    }
    proof {
        assert(strings@.subrange(1, strings@.len() as int) =~= strings@.drop_first());
    }
    s
}

impl StreamError {
    /// The data sequences of `InvalidChar` and `InvalidString` always
    /// hold the actual value first, so they are never empty; the set of
    /// expected alternatives after it may be.
    pub open spec fn wf(self) -> bool {
        match self {
            StreamError::InvalidChar(bytes, _) => bytes@.len() >= 1,
            StreamError::InvalidString(strings, _) => strings@.len() >= 1,
            _ => true,
        }
    }

    /// Renders the one-line diagnostic that `stream_rendered` states.
    pub fn display(&self) -> (r: String)
        requires
            self.wf(),
        ensures
            r@ == stream_rendered(*self),
    {
        match self {
            StreamError::UnexpectedEndOfStream => String::from_str("unexpected end of stream"),
            StreamError::InvalidName => String::from_str("invalid name token"),
            StreamError::InvalidChar(bytes, pos) => {
                let mut s = String::from_str("expected '");
                let list = join_expected_chars(bytes);
                s.append(list.as_str());
                s.append("' not '");
                let c = byte_char(bytes[0]);
                push_char(&mut s, c);
                s.append("' at ");
                let p = pos.display();
                s.append(p.as_str());
                proof {
                    assert(s@ =~= stream_rendered(*self));
                }
                s
            },
            StreamError::InvalidQuote(c, pos) => {
                let mut s = String::from_str("expected quote mark not '");
                push_char(&mut s, *c);
                s.append("' at ");
                let p = pos.display();
                s.append(p.as_str());
                proof {
                    assert(s@ =~= stream_rendered(*self));
                }
                s
            },
            StreamError::InvalidSpace(c, pos) => {
                let mut s = String::from_str("expected space not '");
                push_char(&mut s, *c);
                s.append("' at ");
                let p = pos.display();
                s.append(p.as_str());
                proof {
                    assert(s@ =~= stream_rendered(*self));
                }
                s
            },
            StreamError::InvalidString(strings, pos) => {
                let mut s = String::from_str("expected '");
                let list = join_expected_strings(strings);
                s.append(list.as_str());
                s.append("' not '");
                s.append(strings[0].as_str());
                s.append("' at ");
                let p = pos.display();
                s.append(p.as_str());
                proof {
                    assert(s@ =~= stream_rendered(*self));
                }
                s
            },
            StreamError::InvalidReference => String::from_str("invalid reference"),
            StreamError::InvalidExternalID => String::from_str("invalid ExternalID"),
        }
    }

    /// A stable, coarse-grained label for this error category.
    pub fn description(&self) -> (r: &'static str)
        ensures
            r@ == "an XML stream parsing error"@,
    {
        "an XML stream parsing error"
    }
}

/// An `InvalidChar` whose data holds only the actual byte has no
/// expected alternatives: the expected list renders as the empty string
/// between its quote marks, and nothing more.
pub proof fn lemma_invalid_char_without_alternatives(bytes: Vec<u8>, pos: ErrorPos)
    requires
        bytes@.len() == 1,
    ensures
        stream_rendered(StreamError::InvalidChar(bytes, pos)) == "expected '"@ + "' not '"@
            + seq![bytes@[0] as char] + "' at "@ + pos_rendered(pos),
{
    assert(bytes@.drop_first().len() == 0);
    assert(stream_rendered(StreamError::InvalidChar(bytes, pos)) =~= "expected '"@ + "' not '"@
        + seq![bytes@[0] as char] + "' at "@ + pos_rendered(pos));
}

/// An `InvalidString` whose data holds only the actual string has no
/// expected alternatives: the expected list renders as the empty string
/// between its quote marks, and nothing more.
pub proof fn lemma_invalid_string_without_alternatives(strings: Vec<String>, pos: ErrorPos)
    requires
        strings@.len() == 1,
    ensures
        stream_rendered(StreamError::InvalidString(strings, pos)) == "expected '"@ + "' not '"@
            + strings@[0]@ + "' at "@ + pos_rendered(pos),
{
    assert(strings@.drop_first().len() == 0);
    assert(stream_rendered(StreamError::InvalidString(strings, pos)) =~= "expected '"@
        + "' not '"@ + strings@[0]@ + "' at "@ + pos_rendered(pos));
}

} // verus!
