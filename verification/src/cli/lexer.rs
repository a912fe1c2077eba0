//! The command line as `lexopt` reads it.
//!
//! What `lexopt` makes of a command line is not restated here. The state of its parser is the value
//! of a `lexopt::Parser`; what the next call returns, and the state that it leaves, are functions of
//! that value and have names.

use std::path::PathBuf;

use lexopt::Error as LexoptError;
use vstd::prelude::*;

use crate::error::{Error, ErrorView};
use crate::text;

verus! {

/// `lexopt`'s parser of a command line.
#[verifier::external_type_specification]
#[verifier::external_body]
pub struct ExParser(lexopt::Parser);

/// `lexopt`'s error.
#[verifier::external_type_specification]
#[verifier::external_body]
pub struct ExLexoptError(LexoptError);

/// An argument of the operating system, which need not be text. `PathBuf` holds it unchanged.
#[verifier::external_type_specification]
#[verifier::external_body]
pub struct ExPathBuf(PathBuf);

/// One element of a command line: a short option, a long option (without its dashes), or an
/// argument that is none.
#[derive(Debug)]
pub enum Token {
    Short(char),
    Long(String),
    Value(PathBuf),
}

/// `Token` over mathematical values.
pub enum TokenView {
    Short(char),
    Long(Seq<char>),
    Value(PathBuf),
}

impl View for Token {
    type V = TokenView;

    open spec fn view(&self) -> TokenView {
        match self {
            Token::Short(c) => TokenView::Short(*c),
            Token::Long(name) => TokenView::Long(name@),
            Token::Value(raw) => TokenView::Value(*raw),
        }
    }
}

/// What `lexopt::Parser::next` returned, over mathematical values.
pub open spec fn token_view(r: Result<Option<Token>, LexoptError>) -> Result<
    Option<TokenView>,
    LexoptError,
> {
    match r {
        Ok(Some(token)) => Ok(Some(token@)),
        Ok(None) => Ok(None),
        Err(e) => Err(e),
    }
}

/// How much of the command line a parser has not handed out: the bytes of the arguments that are
/// left, one more for each of them, and what is left of the argument that it is in.
pub uninterp spec fn unread(parser: lexopt::Parser) -> nat;

/// What `lexopt::Parser::next` returns, and the parser afterwards.
pub uninterp spec fn next_of(parser: lexopt::Parser) -> (
    Result<Option<TokenView>, LexoptError>,
    lexopt::Parser,
);

/// What `lexopt::Parser::value` returns, and the parser afterwards.
pub uninterp spec fn value_of(parser: lexopt::Parser) -> (
    Result<PathBuf, LexoptError>,
    lexopt::Parser,
);

/// What `lexopt::Arg::unexpected` makes of an element.
pub uninterp spec fn unexpected_of(token: TokenView) -> LexoptError;

/// What `lexopt::Error` says when it is displayed.
pub uninterp spec fn message_of(e: LexoptError) -> Seq<char>;

/// What `OsString::into_string` makes of an argument: its text, if it is one.
pub uninterp spec fn text_in(raw: PathBuf) -> Option<Seq<char>>;

/// The error of `lexopt::ValueExt::parse` for an argument that is no number up to 255.
pub uninterp spec fn parse_failure(raw: PathBuf) -> LexoptError;

/// The next element of the command line, by `lexopt::Parser::next`; `None` at its end.
///
/// Claimed are that the parser alone decides what is returned and how it goes on, that an element
/// that was handed out is not handed out again (less is left), and that at the end nothing is left.
#[verifier::external_body]
pub(crate) fn next_token(parser: &mut lexopt::Parser) -> (r: Result<Option<Token>, LexoptError>)
    ensures
        (token_view(r), *final(parser)) == next_of(*old(parser)),
        r matches Ok(Some(_)) ==> unread(*final(parser)) < unread(*old(parser)),
        r matches Ok(None) ==> unread(*final(parser)) == 0,
{
    match parser.next() {
        Ok(Some(lexopt::Arg::Short(c))) => Ok(Some(Token::Short(c))),
        Ok(Some(lexopt::Arg::Long(name))) => Ok(Some(Token::Long(name.to_string()))),
        Ok(Some(lexopt::Arg::Value(value))) => Ok(Some(Token::Value(PathBuf::from(value)))),
        Ok(None) => Ok(None),
        Err(e) => Err(e),
    }
}

/// The value of the option that was handed out last, by `lexopt::Parser::value`.
///
/// Claimed are that the parser alone decides what is returned and how it goes on, and that after a
/// value was handed out less is left.
#[verifier::external_body]
pub(crate) fn option_value(parser: &mut lexopt::Parser) -> (r: Result<PathBuf, LexoptError>)
    ensures
        (r, *final(parser)) == value_of(*old(parser)),
        r is Ok ==> unread(*final(parser)) < unread(*old(parser)),
{
    parser.value().map(PathBuf::from)
}

/// The error for an element that has no place, by `lexopt::Arg::unexpected`.
///
/// Claimed are that the element alone decides, and what the error says of an option.
#[verifier::external_body]
pub(crate) fn unexpected(token: Token) -> (e: LexoptError)
    ensures
        e == unexpected_of(token@),
        token@ matches TokenView::Short(c) ==> message_of(e) == "invalid option '-"@ + seq![c]
            + "'"@,
        token@ matches TokenView::Long(name) ==> message_of(e) == "invalid option '--"@ + name
            + "'"@,
{
    match token {
        Token::Short(c) => lexopt::Arg::Short(c).unexpected(),
        Token::Long(name) => lexopt::Arg::Long(&name).unexpected(),
        Token::Value(raw) => lexopt::Arg::Value(raw.into_os_string()).unexpected(),
    }
}

/// What a `lexopt::Error` says, by its `Display`.
///
/// Claimed is that the error alone decides.
#[verifier::external_body]
pub(crate) fn error_text(e: &LexoptError) -> (text: String)
    ensures
        text@ == message_of(*e),
{
    e.to_string()
}

/// The text of an argument, by `OsString::into_string`, or `None` where it is not valid Unicode.
///
/// Claimed is that the argument alone decides.
#[verifier::external_body]
pub(crate) fn into_text(raw: PathBuf) -> (text: Option<String>)
    ensures
        text_view(text) == text_in(raw),
{
    raw.into_os_string().into_string().ok()
}

/// The number that an argument spells, by `lexopt::ValueExt::parse` to a `u8`.
///
/// Claimed is that a number comes back exactly where the argument is text that `u8::from_str`
/// accepts: decimal digits after an optional plus sign, and a value up to 255. The error is not
/// described further than that the argument alone decides it.
#[verifier::external_body]
pub(crate) fn parse_u8(raw: PathBuf) -> (r: Result<u8, LexoptError>)
    ensures
        match r {
            Ok(v) => byte_in(text_in(raw)) == Some(v as nat),
            Err(e) => byte_in(text_in(raw)) is None && e == parse_failure(raw),
        },
{
    lexopt::ValueExt::parse(&raw.into_os_string())
}

/// The number up to 255 that a text spells in decimal.
pub open spec fn byte_in(text: Option<Seq<char>>) -> Option<nat> {
    match text {
        Some(s) => text::number(s, 10, 255),
        None => None,
    }
}

/// An optional text as an optional sequence of characters.
pub open spec fn text_view(text: Option<String>) -> Option<Seq<char>> {
    match text {
        Some(s) => Some(s@),
        None => None,
    }
}

/// A `lexopt` error as one of this library.
pub(crate) fn arg_error(e: &LexoptError) -> (error: Error)
    ensures
        error@ == ErrorView::Arg(message_of(*e)),
{
    Error::Arg(error_text(e))
}

} // verus!
