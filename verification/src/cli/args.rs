//! What the command line asks for.

use vstd::prelude::*;
use vstd::string::StrSliceExecFns;
use vstd::string::StringExecFns;

use super::lexer;
use super::lexer::{Token, TokenView};
use crate::error::{Error, ErrorView};
use crate::text;

verus! {

/// A subcommand with its arguments.
#[derive(Debug)]
#[allow(inconsistent_fields)]
pub enum Command {
    /// List detected devices.
    List,
    /// Show device attributes and lamp info.
    Get,
    /// Set all lamps to one color.
    SetColor { color: Vec<String>, intensity: u8 },
    /// Set individual lamps to individual colors.
    SetLamp { lamps: Vec<(u16, String)>, intensity: u8 },
    /// Toggle autonomous mode.
    Auto { state: String },
}

/// `Command` over mathematical values.
#[allow(inconsistent_fields)]
pub enum CommandView {
    List,
    Get,
    SetColor { color: Seq<Seq<char>>, intensity: u8 },
    SetLamp { lamps: Seq<(u16, Seq<char>)>, intensity: u8 },
    Auto { state: Seq<char> },
}

/// Lamps and their colors as sequences of characters.
pub open spec fn lamps_view(lamps: Seq<(u16, String)>) -> Seq<(u16, Seq<char>)> {
    lamps.map_values(|lamp: (u16, String)| (lamp.0, lamp.1@))
}

impl View for Command {
    type V = CommandView;

    open spec fn view(&self) -> CommandView {
        match self {
            Command::List => CommandView::List,
            Command::Get => CommandView::Get,
            Command::SetColor { color, intensity } => CommandView::SetColor {
                color: text::texts_view(color@),
                intensity: *intensity,
            },
            Command::SetLamp { lamps, intensity } => CommandView::SetLamp {
                lamps: lamps_view(lamps@),
                intensity: *intensity,
            },
            Command::Auto { state } => CommandView::Auto { state: state@ },
        }
    }
}

/// An optional command over mathematical values.
pub open spec fn command_view(command: Option<Command>) -> Option<CommandView> {
    match command {
        Some(c) => Some(c@),
        None => None,
    }
}

/// The parsed command line.
#[derive(Debug)]
pub struct Args {
    pub path: Option<String>,
    pub command: Option<Command>,
}

/// What a command line asks for.
#[derive(Debug)]
pub enum Invocation {
    /// Show the version.
    Version,
    /// Show the help text.
    Help,
    /// Run a command.
    Run(Args),
}

/// `Invocation` over mathematical values.
pub enum InvocationView {
    Version,
    Help,
    Run { path: Option<Seq<char>>, command: Option<CommandView> },
}

impl View for Invocation {
    type V = InvocationView;

    open spec fn view(&self) -> InvocationView {
        match self {
            Invocation::Version => InvocationView::Version,
            Invocation::Help => InvocationView::Help,
            Invocation::Run(args) => InvocationView::Run {
                path: lexer::text_view(args.path),
                command: command_view(args.command),
            },
        }
    }
}

/// The intensity where the command line gives none.
pub const DEFAULT_INTENSITY: u8 = 255;

/// What an element of the command line is to a subcommand that sets colors.
pub enum SetToken {
    /// The intensity option, whose value is to come.
    Intensity,
    /// An argument.
    Argument,
    /// An option that the subcommand does not have.
    Unknown,
}

/// What an element is to `set` and `set-lamp`.
pub open spec fn set_token(token: TokenView) -> SetToken {
    match token {
        TokenView::Short(c) => if c == 'i' {
            SetToken::Intensity
        } else {
            SetToken::Unknown
        },
        TokenView::Long(name) => if name == "intensity"@ {
            SetToken::Intensity
        } else {
            SetToken::Unknown
        },
        TokenView::Value(_) => SetToken::Argument,
    }
}

/// What an element of the command line is to `set` and `set-lamp`.
pub fn classify_set_token(token: &Token) -> (kind: SetToken)
    ensures
        kind == set_token(token@),
{
    match token {
        Token::Short(c) => if *c == 'i' {
            SetToken::Intensity
        } else {
            SetToken::Unknown
        },
        Token::Long(name) => if *name == "intensity".to_string() {
            SetToken::Intensity
        } else {
            SetToken::Unknown
        },
        Token::Value(_) => SetToken::Argument,
    }
}

/// An argument of `set`.
pub open spec fn color_argument(text: Option<Seq<char>>) -> Result<Seq<char>, ErrorView> {
    match text {
        Some(s) => Ok(s),
        None => Err(ErrorView::Arg("invalid UTF-8 in color argument"@)),
    }
}

/// A text or an error over mathematical values.
pub open spec fn text_result(r: Result<String, Error>) -> Result<Seq<char>, ErrorView> {
    match r {
        Ok(s) => Ok(s@),
        Err(e) => Err(e@),
    }
}

/// Takes an argument of `set`: it has to be text.
pub fn read_color_argument(text: Option<String>) -> (r: Result<String, Error>)
    ensures
        text_result(r) == color_argument(lexer::text_view(text)),
{
    match text {
        Some(s) => Ok(s),
        None => Err(Error::Arg("invalid UTF-8 in color argument".to_string())),
    }
}

/// Where a character stands first in a text, from `i` on.
pub open spec fn first_at(s: Seq<char>, c: char, i: int) -> Option<int>
    decreases s.len() - i,
{
    if i >= s.len() {
        None
    } else if s[i] == c {
        Some(i)
    } else {
        first_at(s, c, i + 1)
    }
}

/// An argument of `set-lamp`: a lamp ID, a colon, and a color, in which further colons may stand.
pub open spec fn lamp_argument(text: Option<Seq<char>>) -> Result<(u16, Seq<char>), ErrorView> {
    match text {
        None => Err(ErrorView::Arg("invalid UTF-8 in set-lamp argument"@)),
        Some(s) => match first_at(s, ':', 0) {
            None => Err(
                ErrorView::Arg(
                    "set-lamp arguments must be in ID:COLOR format (e.g. 0:red)"@,
                ),
            ),
            Some(colon) => match text::number(s.take(colon), 10, 0xFFFF) {
                None => Err(ErrorView::Arg("lamp ID must be a non-negative integer"@)),
                Some(id) => Ok((id as u16, s.skip(colon + 1))),
            },
        },
    }
}

/// A lamp with its color, or an error, over mathematical values.
pub open spec fn lamp_result(r: Result<(u16, String), Error>) -> Result<
    (u16, Seq<char>),
    ErrorView,
> {
    match r {
        Ok(lamp) => Ok((lamp.0, lamp.1@)),
        Err(e) => Err(e@),
    }
}

/// Where a character stands first in a text.
fn find_char(s: &str, c: char) -> (at: Option<usize>)
    ensures
        match at {
            Some(i) => first_at(s@, c, 0) == Some(i as int) && i < s@.len(),
            None => first_at(s@, c, 0) is None,
        },
{
    let chars: Vec<char> = text::chars_of(s);
    let mut i: usize = 0;
    while i < chars.len()
        invariant
            i <= chars@.len(),
            chars@ == s@,
            first_at(s@, c, 0) == first_at(s@, c, i as int),
        decreases chars@.len() - i,
    {
        if chars[i] == c {
            return Some(i);
        }
        i = i + 1;
    }
    None
}

/// Takes an argument of `set-lamp`, in the format `ID:COLOR` (e.g. "0:red", "1:ff0000").
pub fn read_lamp_argument(text: Option<String>) -> (r: Result<(u16, String), Error>)
    ensures
        lamp_result(r) == lamp_argument(lexer::text_view(text)),
{
    let s: String = match text {
        Some(s) => s,
        None => {
            return Err(Error::Arg("invalid UTF-8 in set-lamp argument".to_string()));
        },
    };
    match find_char(s.as_str(), ':') {
        None => Err(
            Error::Arg(
                "set-lamp arguments must be in ID:COLOR format (e.g. 0:red)".to_string(),
            ),
        ),
        Some(colon) => {
            let n: usize = s.as_str().unicode_len();
            let id_text: &str = s.as_str().substring_char(0, colon);
            let color_text: &str = s.as_str().substring_char(colon + 1, n);
            assert(id_text@ =~= s@.take(colon as int));
            assert(color_text@ =~= s@.skip(colon + 1));
            match text::parse_number(id_text, 10, 0xFFFF) {
                None => Err(Error::Arg("lamp ID must be a non-negative integer".to_string())),
                Some(id) => Ok((id as u16, color_text.to_string())),
            }
        },
    }
}

/// The intensity that an argument gives, or the parser's error.
pub open spec fn intensity_in(raw: std::path::PathBuf) -> Result<u8, ErrorView> {
    match lexer::byte_in(lexer::text_in(raw)) {
        Some(v) => Ok(v as u8),
        None => Err(ErrorView::Arg(lexer::message_of(lexer::parse_failure(raw)))),
    }
}

/// The value of the intensity option, and the parser afterwards.
pub open spec fn intensity_of(parser: lexopt::Parser) -> (Result<u8, ErrorView>, lexopt::Parser) {
    let (r, after) = lexer::value_of(parser);
    (
        match r {
            Ok(raw) => intensity_in(raw),
            Err(e) => Err(ErrorView::Arg(lexer::message_of(e))),
        },
        after,
    )
}

/// A number or an error over mathematical values.
pub open spec fn byte_result(r: Result<u8, Error>) -> Result<u8, ErrorView> {
    match r {
        Ok(v) => Ok(v),
        Err(e) => Err(e@),
    }
}

/// Reads the value of the intensity option.
fn read_intensity(parser: &mut lexopt::Parser) -> (r: Result<u8, Error>)
    ensures
        (byte_result(r), *final(parser)) == intensity_of(*old(parser)),
        r is Ok ==> lexer::unread(*final(parser)) < lexer::unread(*old(parser)),
{
    match lexer::option_value(parser) {
        Err(e) => Err(lexer::arg_error(&e)),
        Ok(raw) => match lexer::parse_u8(raw) {
            Ok(v) => Ok(v),
            Err(e) => Err(lexer::arg_error(&e)),
        },
    }
}

/// What would become of a parser that handed something out and had as much left as before. None
/// does: each element that is handed out leaves less.
pub open spec fn stuck() -> ErrorView {
    ErrorView::Arg(Seq::empty())
}

/// What the arguments of `set` are, after those in `color`, and the parser afterwards.
pub open spec fn set_args(
    parser: lexopt::Parser,
    color: Seq<Seq<char>>,
    intensity: u8,
) -> (Result<(Seq<Seq<char>>, u8), ErrorView>, lexopt::Parser)
    decreases lexer::unread(parser),
{
    let (r, next) = lexer::next_of(parser);
    match r {
        Err(e) => (Err(ErrorView::Arg(lexer::message_of(e))), next),
        Ok(None) => (Ok((color, intensity)), next),
        Ok(Some(token)) => match set_token(token) {
            SetToken::Intensity => {
                let (value, after) = intensity_of(next);
                match value {
                    Err(e) => (Err(e), after),
                    Ok(v) => if lexer::unread(after) < lexer::unread(parser) {
                        set_args(after, color, v)
                    } else {
                        (Err(stuck()), after)
                    },
                }
            },
            SetToken::Argument => match color_argument(lexer::text_in(token->Value_0)) {
                Err(e) => (Err(e), next),
                Ok(s) => if lexer::unread(next) < lexer::unread(parser) {
                    set_args(next, color.push(s), intensity)
                } else {
                    (Err(stuck()), next)
                },
            },
            SetToken::Unknown => (
                Err(ErrorView::Arg(lexer::message_of(lexer::unexpected_of(token)))),
                next,
            ),
        },
    }
}

/// Colors and an intensity, or an error, over mathematical values.
pub open spec fn set_result(r: Result<(Vec<String>, u8), Error>) -> Result<
    (Seq<Seq<char>>, u8),
    ErrorView,
> {
    match r {
        Ok(args) => Ok((text::texts_view(args.0@), args.1)),
        Err(e) => Err(e@),
    }
}

/// Reads the arguments of `set`, to the end of the command line.
pub fn parse_set_args(parser: &mut lexopt::Parser) -> (r: Result<(Vec<String>, u8), Error>)
    ensures
        (set_result(r), *final(parser)) == set_args(
            *old(parser),
            Seq::empty(),
            DEFAULT_INTENSITY,
        ),
        r is Ok ==> lexer::unread(*final(parser)) <= lexer::unread(*old(parser)),
{
    let mut color: Vec<String> = Vec::new();
    let mut intensity: u8 = DEFAULT_INTENSITY;
    assert(text::texts_view(color@) =~= Seq::empty());
    loop
        invariant
            set_args(*old(parser), Seq::empty(), DEFAULT_INTENSITY) == set_args(
                *parser,
                text::texts_view(color@),
                intensity,
            ),
            lexer::unread(*parser) <= lexer::unread(*old(parser)),
        decreases lexer::unread(*parser),
    {
        match lexer::next_token(parser) {
            Err(e) => {
                return Err(lexer::arg_error(&e));
            },
            Ok(None) => {
                return Ok((color, intensity));
            },
            Ok(Some(token)) => match classify_set_token(&token) {
                SetToken::Intensity => match read_intensity(parser) {
                    Err(e) => {
                        return Err(e);
                    },
                    Ok(v) => {
                        intensity = v;
                    },
                },
                _ => match token {
                    Token::Value(raw) => match read_color_argument(lexer::into_text(raw)) {
                        Err(e) => {
                            return Err(e);
                        },
                        Ok(s) => {
                            let ghost before = text::texts_view(color@);
                            let ghost added = s@;
                            color.push(s);
                            assert(text::texts_view(color@) =~= before.push(added));
                        },
                    },
                    other => {
                        return Err(lexer::arg_error(&lexer::unexpected(other)));
                    },
                },
            },
        }
    }
}

/// What the arguments of `set-lamp` are, after those in `lamps`, and the parser afterwards.
pub open spec fn set_lamp_args(
    parser: lexopt::Parser,
    lamps: Seq<(u16, Seq<char>)>,
    intensity: u8,
) -> (Result<(Seq<(u16, Seq<char>)>, u8), ErrorView>, lexopt::Parser)
    decreases lexer::unread(parser),
{
    let (r, next) = lexer::next_of(parser);
    match r {
        Err(e) => (Err(ErrorView::Arg(lexer::message_of(e))), next),
        Ok(None) => (Ok((lamps, intensity)), next),
        Ok(Some(token)) => match set_token(token) {
            SetToken::Intensity => {
                let (value, after) = intensity_of(next);
                match value {
                    Err(e) => (Err(e), after),
                    Ok(v) => if lexer::unread(after) < lexer::unread(parser) {
                        set_lamp_args(after, lamps, v)
                    } else {
                        (Err(stuck()), after)
                    },
                }
            },
            SetToken::Argument => match lamp_argument(lexer::text_in(token->Value_0)) {
                Err(e) => (Err(e), next),
                Ok(lamp) => if lexer::unread(next) < lexer::unread(parser) {
                    set_lamp_args(next, lamps.push(lamp), intensity)
                } else {
                    (Err(stuck()), next)
                },
            },
            SetToken::Unknown => (
                Err(ErrorView::Arg(lexer::message_of(lexer::unexpected_of(token)))),
                next,
            ),
        },
    }
}

/// Lamps and an intensity, or an error, over mathematical values.
pub open spec fn set_lamp_result(r: Result<(Vec<(u16, String)>, u8), Error>) -> Result<
    (Seq<(u16, Seq<char>)>, u8),
    ErrorView,
> {
    match r {
        Ok(args) => Ok((lamps_view(args.0@), args.1)),
        Err(e) => Err(e@),
    }
}

/// Reads the arguments of `set-lamp`, to the end of the command line.
pub fn parse_set_lamp_args(parser: &mut lexopt::Parser) -> (r: Result<
    (Vec<(u16, String)>, u8),
    Error,
>)
    ensures
        (set_lamp_result(r), *final(parser)) == set_lamp_args(
            *old(parser),
            Seq::empty(),
            DEFAULT_INTENSITY,
        ),
        r is Ok ==> lexer::unread(*final(parser)) <= lexer::unread(*old(parser)),
{
    let mut lamps: Vec<(u16, String)> = Vec::new();
    let mut intensity: u8 = DEFAULT_INTENSITY;
    assert(lamps_view(lamps@) =~= Seq::empty());
    loop
        invariant
            set_lamp_args(*old(parser), Seq::empty(), DEFAULT_INTENSITY) == set_lamp_args(
                *parser,
                lamps_view(lamps@),
                intensity,
            ),
            lexer::unread(*parser) <= lexer::unread(*old(parser)),
        decreases lexer::unread(*parser),
    {
        match lexer::next_token(parser) {
            Err(e) => {
                return Err(lexer::arg_error(&e));
            },
            Ok(None) => {
                return Ok((lamps, intensity));
            },
            Ok(Some(token)) => match classify_set_token(&token) {
                SetToken::Intensity => match read_intensity(parser) {
                    Err(e) => {
                        return Err(e);
                    },
                    Ok(v) => {
                        intensity = v;
                    },
                },
                _ => match token {
                    Token::Value(raw) => match read_lamp_argument(lexer::into_text(raw)) {
                        Err(e) => {
                            return Err(e);
                        },
                        Ok(lamp) => {
                            let ghost before = lamps_view(lamps@);
                            let ghost added = (lamp.0, lamp.1@);
                            lamps.push(lamp);
                            assert(lamps_view(lamps@) =~= before.push(added));
                        },
                    },
                    other => {
                        return Err(lexer::arg_error(&lexer::unexpected(other)));
                    },
                },
            },
        }
    }
}

/// What an element of the command line is outside the arguments of a subcommand.
pub enum TopToken {
    Version,
    Help,
    /// The path option, whose value is to come.
    Path,
    /// An argument.
    Argument,
    /// An unknown option.
    Unknown,
}

/// What an element is outside the arguments of a subcommand.
pub open spec fn top_token(token: TokenView) -> TopToken {
    match token {
        TokenView::Short(c) => if c == 'V' {
            TopToken::Version
        } else if c == 'h' {
            TopToken::Help
        } else if c == 'p' {
            TopToken::Path
        } else {
            TopToken::Unknown
        },
        TokenView::Long(name) => if name == "version"@ {
            TopToken::Version
        } else if name == "help"@ {
            TopToken::Help
        } else if name == "path"@ {
            TopToken::Path
        } else {
            TopToken::Unknown
        },
        TokenView::Value(_) => TopToken::Argument,
    }
}

/// What an element of the command line is outside the arguments of a subcommand.
pub fn classify_top_token(token: &Token) -> (kind: TopToken)
    ensures
        kind == top_token(token@),
{
    match token {
        Token::Short(c) => match *c {
            'V' => TopToken::Version,
            'h' => TopToken::Help,
            'p' => TopToken::Path,
            _ => TopToken::Unknown,
        },
        Token::Long(name) => if *name == "version".to_string() {
            TopToken::Version
        } else if *name == "help".to_string() {
            TopToken::Help
        } else if *name == "path".to_string() {
            TopToken::Path
        } else {
            TopToken::Unknown
        },
        Token::Value(_) => TopToken::Argument,
    }
}

/// A text, or the given complaint where it is none.
pub open spec fn text_or(text: Option<Seq<char>>, complaint: Seq<char>) -> Result<
    Seq<char>,
    ErrorView,
> {
    match text {
        Some(s) => Ok(s),
        None => Err(ErrorView::InvalidArgument(complaint)),
    }
}

/// A text, or the given complaint where it is none.
pub fn require_text(text: Option<String>, complaint: &str) -> (r: Result<String, Error>)
    ensures
        text_result(r) == text_or(lexer::text_view(text), complaint@),
{
    match text {
        Some(s) => Ok(s),
        None => Err(Error::InvalidArgument(complaint.to_string())),
    }
}

/// The names of the subcommands.
pub enum Word {
    List,
    Get,
    SetColor,
    SetLamp,
    Auto,
}

/// The subcommand that an argument names.
pub open spec fn command_word(text: Option<Seq<char>>) -> Result<Word, ErrorView> {
    match text {
        None => Err(ErrorView::InvalidArgument("invalid UTF-8 in command"@)),
        Some(s) => if s == "list"@ {
            Ok(Word::List)
        } else if s == "get"@ {
            Ok(Word::Get)
        } else if s == "set"@ {
            Ok(Word::SetColor)
        } else if s == "set-lamp"@ {
            Ok(Word::SetLamp)
        } else if s == "auto"@ {
            Ok(Word::Auto)
        } else {
            Err(ErrorView::InvalidArgument("unknown command: "@ + s))
        },
    }
}

/// A subcommand or an error over mathematical values.
pub open spec fn word_result(r: Result<Word, Error>) -> Result<Word, ErrorView> {
    match r {
        Ok(word) => Ok(word),
        Err(e) => Err(e@),
    }
}

/// Reads the name of a subcommand.
pub fn read_command_word(text: Option<String>) -> (r: Result<Word, Error>)
    ensures
        word_result(r) == command_word(lexer::text_view(text)),
{
    let s: String = match text {
        Some(s) => s,
        None => {
            return Err(Error::InvalidArgument("invalid UTF-8 in command".to_string()));
        },
    };
    if s == "list".to_string() {
        Ok(Word::List)
    } else if s == "get".to_string() {
        Ok(Word::Get)
    } else if s == "set".to_string() {
        Ok(Word::SetColor)
    } else if s == "set-lamp".to_string() {
        Ok(Word::SetLamp)
    } else if s == "auto".to_string() {
        Ok(Word::Auto)
    } else {
        Err(Error::InvalidArgument("unknown command: ".to_string().concat(s.as_str())))
    }
}

/// The state that an argument of `auto` gives.
pub open spec fn auto_state(text: Option<Seq<char>>) -> Result<Seq<char>, ErrorView> {
    match text {
        None => Err(ErrorView::InvalidArgument("invalid UTF-8 in auto state"@)),
        Some(s) => if s == "on"@ || s == "off"@ {
            Ok(s)
        } else {
            Err(
                ErrorView::InvalidArgument("auto: expected 'on' or 'off', got '"@ + s + "'"@),
            )
        },
    }
}

/// Reads the argument of `auto`.
pub fn read_auto_state(text: Option<String>) -> (r: Result<String, Error>)
    ensures
        text_result(r) == auto_state(lexer::text_view(text)),
{
    let s: String = match text {
        Some(s) => s,
        None => {
            return Err(Error::InvalidArgument("invalid UTF-8 in auto state".to_string()));
        },
    };
    if s == "on".to_string() || s == "off".to_string() {
        Ok(s)
    } else {
        Err(
            Error::InvalidArgument(
                "auto: expected 'on' or 'off', got '".to_string().concat(s.as_str()).concat("'"),
            ),
        )
    }
}

/// A subcommand with its arguments, and the parser afterwards.
pub open spec fn command_args(word: Word, parser: lexopt::Parser) -> (
    Result<CommandView, ErrorView>,
    lexopt::Parser,
) {
    match word {
        Word::List => (Ok(CommandView::List), parser),
        Word::Get => (Ok(CommandView::Get), parser),
        Word::SetColor => {
            let (r, after) = set_args(parser, Seq::empty(), DEFAULT_INTENSITY);
            (
                match r {
                    Ok((color, intensity)) => Ok(CommandView::SetColor { color, intensity }),
                    Err(e) => Err(e),
                },
                after,
            )
        },
        Word::SetLamp => {
            let (r, after) = set_lamp_args(parser, Seq::empty(), DEFAULT_INTENSITY);
            (
                match r {
                    Ok((lamps, intensity)) => Ok(CommandView::SetLamp { lamps, intensity }),
                    Err(e) => Err(e),
                },
                after,
            )
        },
        Word::Auto => {
            let (r, after) = lexer::value_of(parser);
            (
                match r {
                    Err(_) => Err(
                        ErrorView::InvalidArgument("auto command requires 'on' or 'off'"@),
                    ),
                    Ok(raw) => match auto_state(lexer::text_in(raw)) {
                        Ok(state) => Ok(CommandView::Auto { state }),
                        Err(e) => Err(e),
                    },
                },
                after,
            )
        },
    }
}

/// A command or an error over mathematical values.
pub open spec fn command_result(r: Result<Command, Error>) -> Result<CommandView, ErrorView> {
    match r {
        Ok(c) => Ok(c@),
        Err(e) => Err(e@),
    }
}

/// Reads the arguments of a subcommand.
pub fn parse_command(word: Word, parser: &mut lexopt::Parser) -> (r: Result<Command, Error>)
    ensures
        (command_result(r), *final(parser)) == command_args(word, *old(parser)),
        r is Ok ==> lexer::unread(*final(parser)) <= lexer::unread(*old(parser)),
{
    match word {
        Word::List => Ok(Command::List),
        Word::Get => Ok(Command::Get),
        Word::SetColor => match parse_set_args(parser) {
            Ok((color, intensity)) => Ok(Command::SetColor { color, intensity }),
            Err(e) => Err(e),
        },
        Word::SetLamp => match parse_set_lamp_args(parser) {
            Ok((lamps, intensity)) => Ok(Command::SetLamp { lamps, intensity }),
            Err(e) => Err(e),
        },
        Word::Auto => match lexer::option_value(parser) {
            Err(_) => Err(
                Error::InvalidArgument("auto command requires 'on' or 'off'".to_string()),
            ),
            Ok(raw) => match read_auto_state(lexer::into_text(raw)) {
                Ok(state) => Ok(Command::Auto { state }),
                Err(e) => Err(e),
            },
        },
    }
}

/// What the rest of a command line asks for, after a path and a subcommand have been read or not,
/// and the parser afterwards.
pub open spec fn args_from(
    parser: lexopt::Parser,
    path: Option<Seq<char>>,
    command: Option<CommandView>,
) -> (Result<InvocationView, ErrorView>, lexopt::Parser)
    decreases lexer::unread(parser),
{
    let (r, next) = lexer::next_of(parser);
    match r {
        Err(e) => (Err(ErrorView::Arg(lexer::message_of(e))), next),
        Ok(None) => (Ok(InvocationView::Run { path, command }), next),
        Ok(Some(token)) => match top_token(token) {
            TopToken::Version => (Ok(InvocationView::Version), next),
            TopToken::Help => (Ok(InvocationView::Help), next),
            TopToken::Path => {
                let (value, after) = lexer::value_of(next);
                match value {
                    Err(e) => (Err(ErrorView::Arg(lexer::message_of(e))), after),
                    Ok(raw) => match text_or(lexer::text_in(raw), "invalid UTF-8 in path"@) {
                        Err(e) => (Err(e), after),
                        Ok(s) => if lexer::unread(after) < lexer::unread(parser) {
                            args_from(after, Some(s), command)
                        } else {
                            (Err(stuck()), after)
                        },
                    },
                }
            },
            TopToken::Argument if command is None => match command_word(
                lexer::text_in(token->Value_0),
            ) {
                Err(e) => (Err(e), next),
                Ok(word) => {
                    let (c, after) = command_args(word, next);
                    match c {
                        Err(e) => (Err(e), after),
                        Ok(c) => if lexer::unread(after) < lexer::unread(parser) {
                            args_from(after, path, Some(c))
                        } else {
                            (Err(stuck()), after)
                        },
                    }
                },
            },
            _ => (Err(ErrorView::Arg(lexer::message_of(lexer::unexpected_of(token)))), next),
        },
    }
}

/// An invocation or an error over mathematical values.
pub open spec fn invocation_result(r: Result<Invocation, Error>) -> Result<
    InvocationView,
    ErrorView,
> {
    match r {
        Ok(invocation) => Ok(invocation@),
        Err(e) => Err(e@),
    }
}

/// Reads a command line.
///
/// The version and help options end it at once; a second argument outside a subcommand, and
/// options that nothing takes, are errors.
pub fn parse_args(parser: &mut lexopt::Parser) -> (r: Result<Invocation, Error>)
    ensures
        (invocation_result(r), *final(parser)) == args_from(*old(parser), None, None),
        r matches Ok(Invocation::Run(_)) ==> lexer::unread(*final(parser)) == 0,
{
    let mut path: Option<String> = None;
    let mut command: Option<Command> = None;
    loop
        invariant
            args_from(*old(parser), None, None) == args_from(
                *parser,
                lexer::text_view(path),
                command_view(command),
            ),
        decreases lexer::unread(*parser),
    {
        let token: Token = match lexer::next_token(parser) {
            Err(e) => {
                return Err(lexer::arg_error(&e));
            },
            Ok(None) => {
                return Ok(Invocation::Run(Args { path, command }));
            },
            Ok(Some(token)) => token,
        };
        match classify_top_token(&token) {
            TopToken::Version => {
                return Ok(Invocation::Version);
            },
            TopToken::Help => {
                return Ok(Invocation::Help);
            },
            TopToken::Path => {
                let raw = match lexer::option_value(parser) {
                    Err(e) => {
                        return Err(lexer::arg_error(&e));
                    },
                    Ok(raw) => raw,
                };
                match require_text(lexer::into_text(raw), "invalid UTF-8 in path") {
                    Err(e) => {
                        return Err(e);
                    },
                    Ok(s) => {
                        path = Some(s);
                    },
                }
            },
            TopToken::Unknown => {
                return Err(lexer::arg_error(&lexer::unexpected(token)));
            },
            TopToken::Argument => {
                if command.is_some() {
                    return Err(lexer::arg_error(&lexer::unexpected(token)));
                }
                if let Token::Value(raw) = token {
                    let word: Word = match read_command_word(lexer::into_text(raw)) {
                        Err(e) => {
                            return Err(e);
                        },
                        Ok(word) => word,
                    };
                    match parse_command(word, parser) {
                        Err(e) => {
                            return Err(e);
                        },
                        Ok(c) => {
                            command = Some(c);
                        },
                    }
                }
            },
        }
    }
}

proof fn no_earlier_colon(id: Seq<char>, color: Seq<char>, i: int)
    requires
        0 <= i <= id.len(),
        forall|k: int| 0 <= k < id.len() ==> '0' <= #[trigger] id[k] <= '9',
    ensures
        first_at(id + seq![':'] + color, ':', i) == Some(id.len() as int),
    decreases id.len() - i,
{
    let s = id + seq![':'] + color;
    if i < id.len() {
        assert(s[i] == id[i]);
        no_earlier_colon(id, color, i + 1);
    }
}

/// A lamp ID and a color, whatever it is, joined by a colon are taken apart again.
pub proof fn lamp_arguments_are_read_back(id: u16, color: Seq<char>)
    ensures
        lamp_argument(Some(text::decimal(id as nat) + seq![':'] + color)) == Ok::<
            (u16, Seq<char>),
            ErrorView,
        >((id, color)),
{
    let digits = text::decimal(id as nat);
    let s = digits + seq![':'] + color;
    text::decimal_has_digits(id as nat);
    no_earlier_colon(digits, color, 0);
    assert(s.take(digits.len() as int) =~= digits);
    assert(s.skip(digits.len() as int + 1) =~= color);
    text::decimal_is_read_back(id as nat, 0xFFFF);
}

} // verus!
