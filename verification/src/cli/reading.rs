//! How a command line is read: what each element does, and what later elements leave alone.

use vstd::prelude::*;

use super::args::{CommandView, InvocationView};
use super::lexer::TokenView;
use super::{args, lexer};
use crate::error::ErrorView;
use crate::text;

verus! {

/// Whether an element is the option with this letter or this name.
pub open spec fn is_option(token: TokenView, letter: char, name: Seq<char>) -> bool {
    token == TokenView::Short(letter) || token == TokenView::Long(name)
}

/// After a path, a command line that is read to its end has a path, whichever subcommand follows.
pub proof fn paths_do_not_vanish(
    parser: lexopt::Parser,
    path: Seq<char>,
    command: Option<CommandView>,
)
    ensures
        args::args_from(parser, Some(path), command).0 matches Ok(
            InvocationView::Run { path: p, .. },
        ) ==> p is Some,
    decreases lexer::unread(parser),
{
    let (r, next) = lexer::next_of(parser);
    if let Ok(Some(token)) = r {
        match args::top_token(token) {
            args::TopToken::Path => {
                let (value, after) = lexer::value_of(next);
                if let Ok(raw) = value {
                    if let Some(p) = lexer::text_in(raw) {
                        if lexer::unread(after) < lexer::unread(parser) {
                            paths_do_not_vanish(after, p, command);
                        }
                    }
                }
            },
            args::TopToken::Argument if command is None => {
                let word = args::command_word(lexer::text_in(token->Value_0));
                if let Ok(word) = word {
                    let (c, after) = args::command_args(word, next);
                    if c is Ok && lexer::unread(after) < lexer::unread(parser) {
                        paths_do_not_vanish(after, path, Some(c->Ok_0));
                    }
                }
            },
            _ => {},
        }
    }
}

/// A path that was read is kept to the end, whatever follows it, subcommands included: reading the
/// rest of a command line after a path gives what reading it without gives, with that path, unless
/// a later path took its place. Without a path, none comes up but by a path option.
pub proof fn paths_are_kept(
    parser: lexopt::Parser,
    path: Seq<char>,
    command: Option<CommandView>,
)
    ensures
        ({
            let without = args::args_from(parser, None, command);
            let with = args::args_from(parser, Some(path), command);
            &&& with.1 == without.1
            &&& with.0 == match without.0 {
                Ok(InvocationView::Run { path: None, command: c }) => Ok::<
                    InvocationView,
                    ErrorView,
                >(InvocationView::Run { path: Some(path), command: c }),
                other => other,
            }
        }),
    decreases lexer::unread(parser),
{
    let (r, next) = lexer::next_of(parser);
    if let Ok(Some(token)) = r {
        match args::top_token(token) {
            args::TopToken::Path => {
                let (value, after) = lexer::value_of(next);
                if let Ok(raw) = value {
                    if let Some(p) = lexer::text_in(raw) {
                        paths_do_not_vanish(after, p, command);
                    }
                }
            },
            args::TopToken::Argument if command is None => {
                let word = args::command_word(lexer::text_in(token->Value_0));
                if let Ok(word) = word {
                    let (c, after) = args::command_args(word, next);
                    if c is Ok && lexer::unread(after) < lexer::unread(parser) {
                        paths_are_kept(after, path, Some(c->Ok_0));
                    }
                }
            },
            _ => {},
        }
    }
}

/// A path option gives its path to whatever the command line goes on with, in place of any path
/// before it, and leaves the subcommand as it is.
pub proof fn path_options_give_the_path(
    parser: lexopt::Parser,
    path: Option<Seq<char>>,
    command: Option<CommandView>,
    token: TokenView,
)
    requires
        lexer::next_of(parser).0 == Ok::<Option<TokenView>, lexopt::Error>(Some(token)),
        is_option(token, 'p', "path"@),
    ensures
        ({
            let (value, after) = lexer::value_of(lexer::next_of(parser).1);
            let (r, rest) = args::args_from(parser, path, command);
            match value {
                Err(e) => r == Err::<InvocationView, ErrorView>(
                    ErrorView::Arg(lexer::message_of(e)),
                ),
                Ok(raw) => match lexer::text_in(raw) {
                    None => r == Err::<InvocationView, ErrorView>(
                        ErrorView::InvalidArgument("invalid UTF-8 in path"@),
                    ),
                    Some(p) => lexer::unread(after) < lexer::unread(parser) ==> (r, rest)
                        == args::args_from(after, Some(p), command),
                },
            }
        }),
{
    long_names_differ();
}

/// The last path wins: with a path option still to come, it makes no difference which path was read
/// before it.
pub proof fn the_last_path_wins(
    parser: lexopt::Parser,
    one: Option<Seq<char>>,
    other: Option<Seq<char>>,
    command: Option<CommandView>,
    token: TokenView,
)
    requires
        lexer::next_of(parser).0 == Ok::<Option<TokenView>, lexopt::Error>(Some(token)),
        is_option(token, 'p', "path"@),
    ensures
        args::args_from(parser, one, command) == args::args_from(parser, other, command),
{
    long_names_differ();
}

/// A subcommand that was read is kept to the end, and changes nothing else: after any two
/// subcommands the rest of a command line is read alike.
pub proof fn commands_are_kept(
    parser: lexopt::Parser,
    path: Option<Seq<char>>,
    one: CommandView,
    other: CommandView,
)
    ensures
        ({
            let (a, after_a) = args::args_from(parser, path, Some(one));
            let (b, after_b) = args::args_from(parser, path, Some(other));
            &&& after_a == after_b
            &&& match a {
                Ok(InvocationView::Run { path: p, command }) => {
                    &&& command == Some(one)
                    &&& b == Ok::<InvocationView, ErrorView>(
                        InvocationView::Run { path: p, command: Some(other) },
                    )
                },
                _ => a == b,
            }
        }),
    decreases lexer::unread(parser),
{
    let (r, next) = lexer::next_of(parser);
    if let Ok(Some(token)) = r {
        if args::top_token(token) is Path {
            let (value, after) = lexer::value_of(next);
            if let Ok(raw) = value {
                if let Some(p) = lexer::text_in(raw) {
                    if lexer::unread(after) < lexer::unread(parser) {
                        commands_are_kept(after, Some(p), one, other);
                    }
                }
            }
        }
    }
}

/// At its end, a command line asks for what was read; what `lexopt` objects to is passed on; and the
/// options for the version and for help end it at once.
pub proof fn command_lines_end(
    parser: lexopt::Parser,
    path: Option<Seq<char>>,
    command: Option<CommandView>,
)
    ensures
        ({
            let r = args::args_from(parser, path, command).0;
            match lexer::next_of(parser).0 {
                Err(e) => r == Err::<InvocationView, ErrorView>(
                    ErrorView::Arg(lexer::message_of(e)),
                ),
                Ok(None) => r == Ok::<InvocationView, ErrorView>(
                    InvocationView::Run { path, command },
                ),
                Ok(Some(token)) => {
                    &&& is_option(token, 'V', "version"@) ==> r == Ok::<InvocationView, ErrorView>(
                        InvocationView::Version,
                    )
                    &&& is_option(token, 'h', "help"@) ==> r == Ok::<InvocationView, ErrorView>(
                        InvocationView::Help,
                    )
                },
            }
        }),
{
    long_names_differ();
}

/// What has no place is an error: any other option, and an argument behind a subcommand.
pub proof fn what_has_no_place_is_refused(
    parser: lexopt::Parser,
    path: Option<Seq<char>>,
    command: Option<CommandView>,
    token: TokenView,
)
    requires
        lexer::next_of(parser).0 == Ok::<Option<TokenView>, lexopt::Error>(Some(token)),
        token is Value ==> command is Some,
        !is_option(token, 'V', "version"@),
        !is_option(token, 'h', "help"@),
        !is_option(token, 'p', "path"@),
    ensures
        args::args_from(parser, path, command).0 == Err::<InvocationView, ErrorView>(
            ErrorView::Arg(lexer::message_of(lexer::unexpected_of(token))),
        ),
{
}

/// An argument names the subcommand. `list` and `get` have no arguments of their own; `auto` has one,
/// which is "on" or "off"; what `set` and `set-lamp` read goes with them unchanged, and they begin
/// with no color and the full intensity. The path stays as it was.
pub proof fn arguments_name_the_command(
    parser: lexopt::Parser,
    path: Option<Seq<char>>,
    raw: std::path::PathBuf,
    name: Seq<char>,
)
    requires
        lexer::next_of(parser).0 == Ok::<Option<TokenView>, lexopt::Error>(
            Some(TokenView::Value(raw)),
        ),
        lexer::text_in(raw) == Some(name),
    ensures
        ({
            let next = lexer::next_of(parser).1;
            let r = args::args_from(parser, path, None);
            let moved = lexer::unread(next) < lexer::unread(parser);
            &&& name == "list"@ && moved ==> r == args::args_from(
                next,
                path,
                Some(CommandView::List),
            )
            &&& name == "get"@ && moved ==> r == args::args_from(next, path, Some(CommandView::Get))
            &&& name == "set"@ ==> ({
                let (read, after) = args::set_args(next, Seq::empty(), 255);
                match read {
                    Err(e) => r.0 == Err::<InvocationView, ErrorView>(e),
                    Ok((color, intensity)) => lexer::unread(after) < lexer::unread(parser) ==> r
                        == args::args_from(
                        after,
                        path,
                        Some(CommandView::SetColor { color, intensity }),
                    ),
                }
            })
            &&& name == "set-lamp"@ ==> ({
                let (read, after) = args::set_lamp_args(next, Seq::empty(), 255);
                match read {
                    Err(e) => r.0 == Err::<InvocationView, ErrorView>(e),
                    Ok((lamps, intensity)) => lexer::unread(after) < lexer::unread(parser) ==> r
                        == args::args_from(
                        after,
                        path,
                        Some(CommandView::SetLamp { lamps, intensity }),
                    ),
                }
            })
            &&& name == "auto"@ ==> ({
                let (value, after) = lexer::value_of(next);
                match value {
                    Err(_) => r.0 == Err::<InvocationView, ErrorView>(
                        ErrorView::InvalidArgument("auto command requires 'on' or 'off'"@),
                    ),
                    Ok(state) => match lexer::text_in(state) {
                        None => r.0 == Err::<InvocationView, ErrorView>(
                            ErrorView::InvalidArgument("invalid UTF-8 in auto state"@),
                        ),
                        Some(s) => if s != "on"@ && s != "off"@ {
                            r.0 == Err::<InvocationView, ErrorView>(
                                ErrorView::InvalidArgument(
                                    "auto: expected 'on' or 'off', got '"@ + s + "'"@,
                                ),
                            )
                        } else {
                            lexer::unread(after) < lexer::unread(parser) ==> r == args::args_from(
                                after,
                                path,
                                Some(CommandView::Auto { state: s }),
                            )
                        },
                    },
                }
            })
            &&& name != "list"@ && name != "get"@ && name != "set"@ && name != "set-lamp"@ && name
                != "auto"@ ==> r.0 == Err::<InvocationView, ErrorView>(
                ErrorView::InvalidArgument("unknown command: "@ + name),
            )
        }),
{
    command_names_differ();
}

/// An argument that is no text names no subcommand.
pub proof fn commands_are_text(
    parser: lexopt::Parser,
    path: Option<Seq<char>>,
    raw: std::path::PathBuf,
)
    requires
        lexer::next_of(parser).0 == Ok::<Option<TokenView>, lexopt::Error>(
            Some(TokenView::Value(raw)),
        ),
        lexer::text_in(raw) is None,
    ensures
        args::args_from(parser, path, None).0 == Err::<InvocationView, ErrorView>(
            ErrorView::InvalidArgument("invalid UTF-8 in command"@),
        ),
{
}

/// The colors of `set` are its arguments in the order given: what was read before comes first and
/// has no influence on what follows.
pub proof fn colors_are_collected_in_order(
    parser: lexopt::Parser,
    color: Seq<Seq<char>>,
    intensity: u8,
)
    ensures
        ({
            let (r, after) = args::set_args(parser, color, intensity);
            let (fresh, after_fresh) = args::set_args(parser, Seq::empty(), intensity);
            &&& after == after_fresh
            &&& match fresh {
                Ok((more, i)) => r == Ok::<(Seq<Seq<char>>, u8), ErrorView>((color + more, i)),
                Err(e) => r == Err::<(Seq<Seq<char>>, u8), ErrorView>(e),
            }
        }),
    decreases lexer::unread(parser),
{
    let (r, next) = lexer::next_of(parser);
    if let Ok(Some(token)) = r {
        match args::set_token(token) {
            args::SetToken::Intensity => {
                let (value, after) = args::intensity_of(next);
                if value is Ok && lexer::unread(after) < lexer::unread(parser) {
                    colors_are_collected_in_order(after, color, value->Ok_0);
                }
            },
            args::SetToken::Argument => {
                if let Some(s) = lexer::text_in(token->Value_0) {
                    if lexer::unread(next) < lexer::unread(parser) {
                        colors_are_collected_in_order(next, color.push(s), intensity);
                        colors_are_collected_in_order(next, Seq::empty().push(s), intensity);
                        if let Ok((more, _)) = args::set_args(next, Seq::empty(), intensity).0 {
                            assert(color.push(s) + more =~= color + (Seq::empty().push(s) + more));
                        }
                    }
                }
            },
            _ => {},
        }
    } else if r is Ok {
        assert(color + Seq::<Seq<char>>::empty() =~= color);
    }
}

/// The lamps of `set-lamp` are its arguments in the order given: what was read before comes first
/// and has no influence on what follows.
pub proof fn lamps_are_collected_in_order(
    parser: lexopt::Parser,
    lamps: Seq<(u16, Seq<char>)>,
    intensity: u8,
)
    ensures
        ({
            let (r, after) = args::set_lamp_args(parser, lamps, intensity);
            let (fresh, after_fresh) = args::set_lamp_args(parser, Seq::empty(), intensity);
            &&& after == after_fresh
            &&& match fresh {
                Ok((more, i)) => r == Ok::<(Seq<(u16, Seq<char>)>, u8), ErrorView>(
                    (lamps + more, i),
                ),
                Err(e) => r == Err::<(Seq<(u16, Seq<char>)>, u8), ErrorView>(e),
            }
        }),
    decreases lexer::unread(parser),
{
    let (r, next) = lexer::next_of(parser);
    if let Ok(Some(token)) = r {
        match args::set_token(token) {
            args::SetToken::Intensity => {
                let (value, after) = args::intensity_of(next);
                if value is Ok && lexer::unread(after) < lexer::unread(parser) {
                    lamps_are_collected_in_order(after, lamps, value->Ok_0);
                }
            },
            args::SetToken::Argument => {
                if let Ok(s) = args::lamp_argument(lexer::text_in(token->Value_0)) {
                    if lexer::unread(next) < lexer::unread(parser) {
                        lamps_are_collected_in_order(next, lamps.push(s), intensity);
                        lamps_are_collected_in_order(next, Seq::empty().push(s), intensity);
                        if let Ok((more, _)) = args::set_lamp_args(next, Seq::empty(), intensity).0 {
                            assert(lamps.push(s) + more =~= lamps + (Seq::empty().push(s) + more));
                        }
                    }
                }
            },
            _ => {},
        }
    } else if r is Ok {
        assert(lamps + Seq::<(u16, Seq<char>)>::empty() =~= lamps);
    }
}

/// The intensity is the last one given, or else the one to begin with, and decides nothing else.
pub proof fn the_last_intensity_wins(
    parser: lexopt::Parser,
    color: Seq<Seq<char>>,
    lamps: Seq<(u16, Seq<char>)>,
    one: u8,
    other: u8,
)
    ensures
        ({
            let (a, after_a) = args::set_args(parser, color, one);
            let (b, after_b) = args::set_args(parser, color, other);
            &&& after_a == after_b
            &&& match a {
                Ok((colors, i)) => {
                    &&& b is Ok
                    &&& b->Ok_0.0 == colors
                    &&& (i == one && b->Ok_0.1 == other) || i == b->Ok_0.1
                },
                Err(e) => a == b,
            }
        }),
        ({
            let (a, after_a) = args::set_lamp_args(parser, lamps, one);
            let (b, after_b) = args::set_lamp_args(parser, lamps, other);
            &&& after_a == after_b
            &&& match a {
                Ok((colors, i)) => {
                    &&& b is Ok
                    &&& b->Ok_0.0 == colors
                    &&& (i == one && b->Ok_0.1 == other) || i == b->Ok_0.1
                },
                Err(e) => a == b,
            }
        }),
    decreases lexer::unread(parser),
{
    let (r, next) = lexer::next_of(parser);
    if let Ok(Some(token)) = r {
        if args::set_token(token) is Argument && lexer::unread(next) < lexer::unread(parser) {
            let text = lexer::text_in(token->Value_0);
            let c = match text {
                Some(s) => color.push(s),
                None => color,
            };
            let l = match args::lamp_argument(text) {
                Ok(lamp) => lamps.push(lamp),
                Err(_) => lamps,
            };
            the_last_intensity_wins(next, c, l, one, other);
        }
    }
}

/// What each element is to `set` and `set-lamp`: an argument adds a color or a lamp; the intensity
/// option sets the intensity to the number that follows it, which is up to 255; the end hands out
/// what was read; and everything else is an error.
pub proof fn elements_of_set(
    parser: lexopt::Parser,
    color: Seq<Seq<char>>,
    lamps: Seq<(u16, Seq<char>)>,
    intensity: u8,
)
    ensures
        ({
            let (element, next) = lexer::next_of(parser);
            let moved = lexer::unread(next) < lexer::unread(parser);
            let set = args::set_args(parser, color, intensity);
            let each = args::set_lamp_args(parser, lamps, intensity);
            match element {
                Err(e) => {
                    &&& set.0 == Err::<(Seq<Seq<char>>, u8), ErrorView>(
                        ErrorView::Arg(lexer::message_of(e)),
                    )
                    &&& each.0 == Err::<(Seq<(u16, Seq<char>)>, u8), ErrorView>(
                        ErrorView::Arg(lexer::message_of(e)),
                    )
                },
                Ok(None) => {
                    &&& set.0 == Ok::<(Seq<Seq<char>>, u8), ErrorView>((color, intensity))
                    &&& each.0 == Ok::<(Seq<(u16, Seq<char>)>, u8), ErrorView>((lamps, intensity))
                },
                Ok(Some(TokenView::Value(raw))) => {
                    &&& match lexer::text_in(raw) {
                        Some(s) => moved ==> set == args::set_args(next, color.push(s), intensity),
                        None => set.0 == Err::<(Seq<Seq<char>>, u8), ErrorView>(
                            ErrorView::Arg("invalid UTF-8 in color argument"@),
                        ),
                    }
                    &&& match args::lamp_argument(lexer::text_in(raw)) {
                        Ok(lamp) => moved ==> each == args::set_lamp_args(
                            next,
                            lamps.push(lamp),
                            intensity,
                        ),
                        Err(e) => each.0 == Err::<(Seq<(u16, Seq<char>)>, u8), ErrorView>(e),
                    }
                },
                Ok(Some(token)) => if is_option(token, 'i', "intensity"@) {
                    let (value, after) = lexer::value_of(next);
                    match value {
                        Err(e) => {
                            &&& set.0 == Err::<(Seq<Seq<char>>, u8), ErrorView>(
                                ErrorView::Arg(lexer::message_of(e)),
                            )
                            &&& each.0 == Err::<(Seq<(u16, Seq<char>)>, u8), ErrorView>(
                                ErrorView::Arg(lexer::message_of(e)),
                            )
                        },
                        Ok(raw) => {
                            &&& lexer::text_in(raw) is None ==> set.0 is Err && each.0 is Err
                            &&& lexer::text_in(raw) matches Some(s) ==> match text::number(
                                s,
                                10,
                                255,
                            ) {
                                Some(v) => lexer::unread(after) < lexer::unread(parser) ==> {
                                    &&& set == args::set_args(after, color, v as u8)
                                    &&& each == args::set_lamp_args(after, lamps, v as u8)
                                },
                                None => {
                                    let failure = ErrorView::Arg(
                                        lexer::message_of(lexer::parse_failure(raw)),
                                    );
                                    &&& set.0 == Err::<(Seq<Seq<char>>, u8), ErrorView>(failure)
                                    &&& each.0 == Err::<(Seq<(u16, Seq<char>)>, u8), ErrorView>(
                                        failure,
                                    )
                                },
                            }
                        },
                    }
                } else {
                    let refusal = ErrorView::Arg(lexer::message_of(lexer::unexpected_of(token)));
                    &&& set.0 == Err::<(Seq<Seq<char>>, u8), ErrorView>(refusal)
                    &&& each.0 == Err::<(Seq<(u16, Seq<char>)>, u8), ErrorView>(refusal)
                },
            }
        }),
{
}

proof fn first_colon(s: Seq<char>, colon: int, i: int)
    requires
        0 <= i <= colon < s.len(),
        s[colon] == ':',
        forall|k: int| 0 <= k < colon ==> s[k] != ':',
    ensures
        args::first_at(s, ':', i) == Some(colon),
    decreases colon - i,
{
    if i < colon {
        assert(s[i] != ':');
        first_colon(s, colon, i + 1);
    }
}

proof fn no_colon(s: Seq<char>, i: int)
    requires
        0 <= i <= s.len(),
        forall|k: int| 0 <= k < s.len() ==> s[k] != ':',
    ensures
        args::first_at(s, ':', i) is None,
    decreases s.len() - i,
{
    if i < s.len() {
        assert(s[i] != ':');
        no_colon(s, i + 1);
    }
}

/// An argument of `set-lamp` is parted at its first colon: before it stands the lamp ID, a number up
/// to 65535, and after it the color, whatever it holds.
pub proof fn lamp_arguments_are_parted(s: Seq<char>, colon: int)
    requires
        0 <= colon < s.len(),
        s[colon] == ':',
        forall|k: int| 0 <= k < colon ==> s[k] != ':',
    ensures
        args::lamp_argument(Some(s)) == match text::number(
            s.subrange(0, colon),
            10,
            65535,
        ) {
            Some(id) => Ok::<(u16, Seq<char>), ErrorView>(
                (id as u16, s.subrange(colon + 1, s.len() as int)),
            ),
            None => Err::<(u16, Seq<char>), ErrorView>(
                ErrorView::Arg("lamp ID must be a non-negative integer"@),
            ),
        },
{
    first_colon(s, colon, 0);
    assert(s.take(colon) =~= s.subrange(0, colon));
    assert(s.skip(colon + 1) =~= s.subrange(colon + 1, s.len() as int));
}

/// An argument of `set-lamp` without a colon, and one that is no text, is refused.
pub proof fn lamp_arguments_need_a_colon(s: Seq<char>)
    requires
        forall|k: int| 0 <= k < s.len() ==> s[k] != ':',
    ensures
        args::lamp_argument(Some(s)) == Err::<(u16, Seq<char>), ErrorView>(
            ErrorView::Arg("set-lamp arguments must be in ID:COLOR format (e.g. 0:red)"@),
        ),
        args::lamp_argument(None) == Err::<(u16, Seq<char>), ErrorView>(
            ErrorView::Arg("invalid UTF-8 in set-lamp argument"@),
        ),
{
    no_colon(s, 0);
}

proof fn long_names_differ()
    ensures
        "version"@ != "help"@,
        "version"@ != "path"@,
        "help"@ != "path"@,
{
    reveal_strlit("version");
    reveal_strlit("help");
    reveal_strlit("path");
    assert("version"@.len() == 7);
    assert("help"@[0] == 'h');
    assert("path"@[0] == 'p');
}

proof fn command_names_differ()
    ensures
        "list"@ != "get"@,
        "list"@ != "set"@,
        "list"@ != "set-lamp"@,
        "list"@ != "auto"@,
        "get"@ != "set"@,
        "get"@ != "set-lamp"@,
        "get"@ != "auto"@,
        "set"@ != "set-lamp"@,
        "set"@ != "auto"@,
        "set-lamp"@ != "auto"@,
{
    reveal_strlit("list");
    reveal_strlit("get");
    reveal_strlit("set");
    reveal_strlit("set-lamp");
    reveal_strlit("auto");
    assert("list"@[0] == 'l');
    assert("get"@[0] == 'g');
    assert("set"@[0] == 's' && "set"@.len() == 3);
    assert("set-lamp"@[0] == 's' && "set-lamp"@.len() == 8);
    assert("auto"@[0] == 'a');
}

} // verus!
