//! The grammar of the command line.
//!
//! The arguments are read from left to right. Before the subcommand only the
//! switches of the program itself may stand. After it, an argument is
//!
//! - `--`, after which every argument is a positional one;
//! - a long option, `--name` or `--name=value`;
//! - a short option, `-n`, `-nvalue` or `-n=value`;
//! - or else a positional argument (a lone `-` and the empty text too).
//!
//! An option that takes a value and has none attached takes the next
//! argument for it, unless that one looks like an option itself. The first
//! argument that breaks the grammar ends the reading with its error; a
//! request for help or for the version ends it too.
//!
//! The grammar is strict where others are lenient:
//!
//! - short options are not bundled: `-r -f ext4`, never `-rf ext4`;
//! - a long name is written in full, and names and values are matched
//!   letter for letter, upper and lower case apart;
//! - an option is given once at most, a switch too;
//! - the switches of the program stand before the subcommand and are not
//!   known after it.

use crate::cli::{
    same_text, Arch, BakeCli, BakeCliView, Cli, CliView, Commands, CommandsView, FileSystemFormat,
    RenderCli, RenderCliView,
};
use crate::text::{chars_of, scan, span, CharClass};
use vstd::prelude::*;
use vstd::string::*;

verus! {

/// The subcommands, as names.
#[derive(Clone, Copy, Debug, PartialEq, Eq, Structural)]
pub enum Subcommand {
    Bake,
    Render,
}

/// Why a command line was refused.
#[derive(Debug)]
pub enum CliError {
    /// There is no argument at all.
    MissingCommand,
    /// The first positional argument names no subcommand.
    UnknownSubcommand(String),
    /// The argument names an option that does not exist here.
    UnknownOption(String),
    /// The argument is an option that takes a value, and none follows.
    MissingValue(String),
    /// The argument gives a value to an option that takes none.
    UnexpectedValue(String),
    /// The argument gives an option a value that it does not accept.
    InvalidValue { argument: String, value: String },
    /// The argument gives an option that was given before.
    Repeated(String),
    /// The argument is a positional one, and no more are taken.
    UnexpectedArgument(String),
    /// `bake` was not told the name of the extension.
    MissingName,
}

/// The mathematical value of a [`CliError`].
pub enum CliErrorView {
    MissingCommand,
    UnknownSubcommand(Seq<char>),
    UnknownOption(Seq<char>),
    MissingValue(Seq<char>),
    UnexpectedValue(Seq<char>),
    InvalidValue { argument: Seq<char>, value: Seq<char> },
    Repeated(Seq<char>),
    UnexpectedArgument(Seq<char>),
    MissingName,
}

impl View for CliError {
    type V = CliErrorView;

    open spec fn view(&self) -> CliErrorView {
        match *self {
            CliError::MissingCommand => CliErrorView::MissingCommand,
            CliError::UnknownSubcommand(arg) => CliErrorView::UnknownSubcommand(arg@),
            CliError::UnknownOption(arg) => CliErrorView::UnknownOption(arg@),
            CliError::MissingValue(arg) => CliErrorView::MissingValue(arg@),
            CliError::UnexpectedValue(arg) => CliErrorView::UnexpectedValue(arg@),
            CliError::InvalidValue { argument, value } => CliErrorView::InvalidValue {
                argument: argument@,
                value: value@,
            },
            CliError::Repeated(arg) => CliErrorView::Repeated(arg@),
            CliError::UnexpectedArgument(arg) => CliErrorView::UnexpectedArgument(arg@),
            CliError::MissingName => CliErrorView::MissingName,
        }
    }
}

/// What a command line asks for.
#[derive(Debug)]
pub enum Parsed {
    /// To run with these options.
    Run(Cli),
    /// To show the help of the program, or of a subcommand.
    Help(Option<Subcommand>),
    /// To show the version.
    Version,
}

/// The mathematical value of a [`Parsed`].
pub enum ParsedView {
    Run(CliView),
    Help(Option<Subcommand>),
    Version,
}

impl View for Parsed {
    type V = ParsedView;

    open spec fn view(&self) -> ParsedView {
        match *self {
            Parsed::Run(cli) => ParsedView::Run(cli@),
            Parsed::Help(topic) => ParsedView::Help(topic),
            Parsed::Version => ParsedView::Version,
        }
    }
}

/// The short letter of the option with the long name `name`, if the
/// subcommand `sub` has such an option.
pub open spec fn short_of(sub: Subcommand, name: Seq<char>) -> Option<char> {
    if name == "help"@ {
        Some('h')
    } else if name == "version"@ {
        Some('V')
    } else {
        match sub {
            Subcommand::Bake => if name == "os"@ {
                Some('o')
            } else if name == "format"@ {
                Some('f')
            } else if name == "arch"@ {
                Some('a')
            } else if name == "reload"@ {
                Some('r')
            } else {
                None
            },
            Subcommand::Render => if name == "template-file"@ {
                Some('t')
            } else if name == "output-file"@ {
                Some('o')
            } else if name == "config-file"@ {
                Some('c')
            } else {
                None
            },
        }
    }
}

/// Whether the option with the short letter `short` takes a value; `None`
/// if the subcommand `sub` has no such option.
pub open spec fn takes_value(sub: Subcommand, short: char) -> Option<bool> {
    if short == 'h' || short == 'V' {
        Some(false)
    } else {
        match sub {
            Subcommand::Bake => if short == 'o' || short == 'f' || short == 'a' {
                Some(true)
            } else if short == 'r' {
                Some(false)
            } else {
                None
            },
            Subcommand::Render => if short == 't' || short == 'o' || short == 'c' {
                Some(true)
            } else {
                None
            },
        }
    }
}

/// One argument, or an option with the argument that is its value, as the
/// grammar reads it.
#[derive(Debug)]
pub(crate) enum Item {
    /// An option without a value, by its short letter.
    Flag(char),
    /// An option with its value, by its short letter.
    Value(char, String),
    /// A positional argument.
    Positional(String),
    /// The `--` that ends the options.
    Separator,
}

/// The mathematical value of an [`Item`].
pub enum ItemView {
    Flag(char),
    Value(char, Seq<char>),
    Positional(Seq<char>),
    Separator,
}

impl View for Item {
    type V = ItemView;

    closed spec fn view(&self) -> ItemView {
        match *self {
            Item::Flag(short) => ItemView::Flag(short),
            Item::Value(short, value) => ItemView::Value(short, value@),
            Item::Positional(arg) => ItemView::Positional(arg@),
            Item::Separator => ItemView::Separator,
        }
    }
}

/// Whether `arg` looks like an option: a `-` and at least one more
/// character.
pub open spec fn looks_like_option(arg: Seq<char>) -> bool {
    arg.len() >= 2 && arg[0] == '-'
}

/// The item that the option `short` makes at position `i` of `args`, with
/// the value `attached` to it if there is one, and whether the argument
/// after it was taken for its value.
pub open spec fn option_item(
    sub: Subcommand,
    short: char,
    attached: Option<Seq<char>>,
    args: Seq<Seq<char>>,
    i: int,
) -> Result<(ItemView, bool), CliErrorView> {
    match takes_value(sub, short) {
        None => Err(CliErrorView::UnknownOption(args[i])),
        Some(false) => if attached is Some {
            Err(CliErrorView::UnexpectedValue(args[i]))
        } else {
            Ok((ItemView::Flag(short), false))
        },
        Some(true) => match attached {
            Some(value) => Ok((ItemView::Value(short, value), false)),
            None => if i + 1 < args.len() && !looks_like_option(args[i + 1]) {
                Ok((ItemView::Value(short, args[i + 1]), true))
            } else {
                Err(CliErrorView::MissingValue(args[i]))
            },
        },
    }
}

/// The item at position `i` of `args`, read as an argument of the
/// subcommand `sub`, and whether the argument after it belongs to it.
pub open spec fn item_at(sub: Subcommand, args: Seq<Seq<char>>, i: int) -> Result<
    (ItemView, bool),
    CliErrorView,
> {
    let arg = args[i];
    if arg.len() == 2 && arg[0] == '-' && arg[1] == '-' {
        Ok((ItemView::Separator, false))
    } else if arg.len() > 2 && arg[0] == '-' && arg[1] == '-' {
        let body = arg.skip(2);
        let name_len = span(body, CharClass::Except('='));
        match short_of(sub, body.take(name_len as int)) {
            None => Err(CliErrorView::UnknownOption(arg)),
            Some(short) => option_item(
                sub,
                short,
                if name_len < body.len() {
                    Some(body.skip(name_len as int + 1))
                } else {
                    None
                },
                args,
                i,
            ),
        }
    } else if looks_like_option(arg) {
        option_item(
            sub,
            arg[1],
            if arg.len() == 2 {
                None
            } else if arg[2] == '=' {
                Some(arg.skip(3))
            } else {
                Some(arg.skip(2))
            },
            args,
            i,
        )
    } else {
        Ok((ItemView::Positional(arg), false))
    }
}

/// The view of what reading one item gave.
pub(crate) open spec fn item_view(out: Result<(Item, bool), CliError>) -> Result<
    (ItemView, bool),
    CliErrorView,
> {
    match out {
        Ok((item, took_next)) => Ok((item@, took_next)),
        Err(error) => Err(error@),
    }
}

fn long_option(sub: Subcommand, name: &str) -> (short: Option<char>)
    ensures
        short == short_of(sub, name@),
{
    if same_text(name, "help") {
        Some('h')
    } else if same_text(name, "version") {
        Some('V')
    } else {
        match sub {
            Subcommand::Bake => if same_text(name, "os") {
                Some('o')
            } else if same_text(name, "format") {
                Some('f')
            } else if same_text(name, "arch") {
                Some('a')
            } else if same_text(name, "reload") {
                Some('r')
            } else {
                None
            },
            Subcommand::Render => if same_text(name, "template-file") {
                Some('t')
            } else if same_text(name, "output-file") {
                Some('o')
            } else if same_text(name, "config-file") {
                Some('c')
            } else {
                None
            },
        }
    }
}

fn option_kind(sub: Subcommand, short: char) -> (kind: Option<bool>)
    ensures
        kind == takes_value(sub, short),
{
    if short == 'h' || short == 'V' {
        Some(false)
    } else {
        match sub {
            Subcommand::Bake => if short == 'o' || short == 'f' || short == 'a' {
                Some(true)
            } else if short == 'r' {
                Some(false)
            } else {
                None
            },
            Subcommand::Render => if short == 't' || short == 'o' || short == 'c' {
                Some(true)
            } else {
                None
            },
        }
    }
}

fn is_option_like(arg: &str) -> (b: bool)
    ensures
        b == looks_like_option(arg@),
{
    arg.unicode_len() >= 2 && arg.get_char(0) == '-'
}

fn read_option(
    sub: Subcommand,
    short: char,
    attached: Option<String>,
    args: &Vec<String>,
    i: usize,
) -> (out: Result<(Item, bool), CliError>)
    requires
        i < args.len(),
    ensures
        item_view(out) == option_item(sub, short, attached.deep_view(), args.deep_view(), i as int),
{
    match option_kind(sub, short) {
        None => Err(CliError::UnknownOption(args[i].clone())),
        Some(false) => if attached.is_some() {
            Err(CliError::UnexpectedValue(args[i].clone()))
        } else {
            Ok((Item::Flag(short), false))
        },
        Some(true) => match attached {
            Some(value) => Ok((Item::Value(short, value), false)),
            None => if i + 1 < args.len() && !is_option_like(args[i + 1].as_str()) {
                Ok((Item::Value(short, args[i + 1].clone()), true))
            } else {
                Err(CliError::MissingValue(args[i].clone()))
            },
        },
    }
}

/// Reads the item at position `i` of `args` as an argument of `sub`.
pub(crate) fn read_item(sub: Subcommand, args: &Vec<String>, i: usize) -> (out: Result<
    (Item, bool),
    CliError,
>)
    requires
        i < args.len(),
    ensures
        item_view(out) == item_at(sub, args.deep_view(), i as int),
{
    let arg = args[i].as_str();
    let v = chars_of(arg);
    let n = v.len();
    if n == 2 && v[0] == '-' && v[1] == '-' {
        Ok((Item::Separator, false))
    } else if n > 2 && v[0] == '-' && v[1] == '-' {
        let name_end = scan(&v, 2, n, CharClass::Except('='));
        proof {
            let body = arg@.skip(2);
            assert(body =~= v@.subrange(2, n as int));
            assert(body.take(name_end - 2) =~= arg@.subrange(2, name_end as int));
            if name_end < n {
                assert(body.skip(name_end - 2 + 1) =~= arg@.subrange(name_end + 1, n as int));
            }
        }
        match long_option(sub, arg.substring_char(2, name_end)) {
            None => Err(CliError::UnknownOption(args[i].clone())),
            Some(short) => {
                let attached = if name_end < n {
                    Some(arg.substring_char(name_end + 1, n).to_owned())
                } else {
                    None
                };
                read_option(sub, short, attached, args, i)
            },
        }
    } else if n >= 2 && v[0] == '-' {
        let attached = if n == 2 {
            None
        } else if v[2] == '=' {
            assert(arg@.skip(3) =~= arg@.subrange(3, n as int));
            Some(arg.substring_char(3, n).to_owned())
        } else {
            assert(arg@.skip(2) =~= arg@.subrange(2, n as int));
            Some(arg.substring_char(2, n).to_owned())
        };
        read_option(sub, v[1], attached, args, i)
    } else {
        Ok((Item::Positional(args[i].clone()), false))
    }
}

/// Why the reading of a subcommand's arguments ended before their end.
#[derive(Debug)]
pub(crate) enum Stop {
    /// Help was asked for.
    Help,
    /// The version was asked for.
    Version,
    /// An argument broke the grammar.
    Error(CliError),
}

/// The mathematical value of a [`Stop`].
pub enum StopView {
    Help,
    Version,
    Error(CliErrorView),
}

impl View for Stop {
    type V = StopView;

    closed spec fn view(&self) -> StopView {
        match *self {
            Stop::Help => StopView::Help,
            Stop::Version => StopView::Version,
            Stop::Error(error) => StopView::Error(error@),
        }
    }
}

/// The options of `bake` as far as they were given.
#[derive(Debug)]
pub(crate) struct BakeArgs {
    pub name: Option<String>,
    pub os: Option<String>,
    pub format: Option<FileSystemFormat>,
    pub arch: Option<Arch>,
    pub reload: bool,
}

/// The mathematical value of a [`BakeArgs`].
pub struct BakeArgsView {
    pub name: Option<Seq<char>>,
    pub os: Option<Seq<char>>,
    pub format: Option<FileSystemFormat>,
    pub arch: Option<Arch>,
    pub reload: bool,
}

impl View for BakeArgs {
    type V = BakeArgsView;

    closed spec fn view(&self) -> BakeArgsView {
        BakeArgsView {
            name: self.name.deep_view(),
            os: self.os.deep_view(),
            format: self.format,
            arch: self.arch,
            reload: self.reload,
        }
    }
}

impl BakeArgsView {
    /// Nothing given yet.
    pub open spec fn none() -> BakeArgsView {
        BakeArgsView { name: None, os: None, format: None, arch: None, reload: false }
    }

    /// The options with `item` taken in, which was read from the argument
    /// `arg`. Each option may be given once, and one positional argument,
    /// the name.
    pub open spec fn with_item(self, item: ItemView, arg: Seq<char>) -> Result<
        BakeArgsView,
        StopView,
    > {
        match item {
            ItemView::Separator => Ok(self),
            ItemView::Positional(name) => if self.name is Some {
                Err(StopView::Error(CliErrorView::UnexpectedArgument(arg)))
            } else {
                Ok(BakeArgsView { name: Some(name), ..self })
            },
            ItemView::Flag(short) => if short == 'h' {
                Err(StopView::Help)
            } else if short == 'V' {
                Err(StopView::Version)
            } else if self.reload {
                Err(StopView::Error(CliErrorView::Repeated(arg)))
            } else {
                Ok(BakeArgsView { reload: true, ..self })
            },
            ItemView::Value(short, value) => if short == 'o' {
                if self.os is Some {
                    Err(StopView::Error(CliErrorView::Repeated(arg)))
                } else {
                    Ok(BakeArgsView { os: Some(value), ..self })
                }
            } else if short == 'f' {
                match FileSystemFormat::named(value) {
                    None => Err(
                        StopView::Error(CliErrorView::InvalidValue { argument: arg, value }),
                    ),
                    Some(format) => if self.format is Some {
                        Err(StopView::Error(CliErrorView::Repeated(arg)))
                    } else {
                        Ok(BakeArgsView { format: Some(format), ..self })
                    },
                }
            } else {
                match Arch::named(value) {
                    None => Err(
                        StopView::Error(CliErrorView::InvalidValue { argument: arg, value }),
                    ),
                    Some(arch) => if self.arch is Some {
                        Err(StopView::Error(CliErrorView::Repeated(arg)))
                    } else {
                        Ok(BakeArgsView { arch: Some(arch), ..self })
                    },
                }
            },
        }
    }

    /// The options after the arguments of `args` from position `i` on;
    /// `raw` says that `--` was passed.
    pub open spec fn with_args(self, args: Seq<Seq<char>>, i: int, raw: bool) -> Result<
        BakeArgsView,
        StopView,
    >
        decreases args.len() - i,
    {
        if i < 0 || i >= args.len() {
            Ok(self)
        } else if raw {
            match self.with_item(ItemView::Positional(args[i]), args[i]) {
                Err(stop) => Err(stop),
                Ok(next) => next.with_args(args, i + 1, true),
            }
        } else {
            match item_at(Subcommand::Bake, args, i) {
                Err(error) => Err(StopView::Error(error)),
                Ok((item, took_next)) => match self.with_item(item, args[i]) {
                    Err(stop) => Err(stop),
                    Ok(next) => next.with_args(
                        args,
                        if took_next {
                            i + 2
                        } else {
                            i + 1
                        },
                        item is Separator,
                    ),
                },
            }
        }
    }

    /// The options of `bake` that these stand for: the name must be there;
    /// the system is `_any` and the format squashfs unless given.
    pub open spec fn finish(self) -> Result<BakeCliView, CliErrorView> {
        match self.name {
            None => Err(CliErrorView::MissingName),
            Some(name) => Ok(
                BakeCliView {
                    name,
                    os: match self.os {
                        Some(os) => os,
                        None => "_any"@,
                    },
                    format: match self.format {
                        Some(format) => format,
                        None => FileSystemFormat::Squashfs,
                    },
                    arch: self.arch,
                    reload: self.reload,
                },
            ),
        }
    }
}

impl RenderCliView {
    /// Nothing given yet.
    pub open spec fn none() -> RenderCliView {
        RenderCliView {
            template_file: None,
            output_file: None,
            config_file: None,
            values: Seq::empty(),
        }
    }

    /// The options with `item` taken in, which was read from the argument
    /// `arg`. Each option may be given once; every positional argument is a
    /// value.
    pub open spec fn with_item(self, item: ItemView, arg: Seq<char>) -> Result<
        RenderCliView,
        StopView,
    > {
        match item {
            ItemView::Separator => Ok(self),
            ItemView::Positional(value) => Ok(
                RenderCliView { values: self.values.push(value), ..self },
            ),
            ItemView::Flag(short) => if short == 'h' {
                Err(StopView::Help)
            } else {
                Err(StopView::Version)
            },
            ItemView::Value(short, value) => if short == 't' {
                if self.template_file is Some {
                    Err(StopView::Error(CliErrorView::Repeated(arg)))
                } else {
                    Ok(RenderCliView { template_file: Some(value), ..self })
                }
            } else if short == 'o' {
                if self.output_file is Some {
                    Err(StopView::Error(CliErrorView::Repeated(arg)))
                } else {
                    Ok(RenderCliView { output_file: Some(value), ..self })
                }
            } else {
                if self.config_file is Some {
                    Err(StopView::Error(CliErrorView::Repeated(arg)))
                } else {
                    Ok(RenderCliView { config_file: Some(value), ..self })
                }
            },
        }
    }

    /// The options after the arguments of `args` from position `i` on;
    /// `raw` says that `--` was passed.
    pub open spec fn with_args(self, args: Seq<Seq<char>>, i: int, raw: bool) -> Result<
        RenderCliView,
        StopView,
    >
        decreases args.len() - i,
    {
        if i < 0 || i >= args.len() {
            Ok(self)
        } else if raw {
            match self.with_item(ItemView::Positional(args[i]), args[i]) {
                Err(stop) => Err(stop),
                Ok(next) => next.with_args(args, i + 1, true),
            }
        } else {
            match item_at(Subcommand::Render, args, i) {
                Err(error) => Err(StopView::Error(error)),
                Ok((item, took_next)) => match self.with_item(item, args[i]) {
                    Err(stop) => Err(stop),
                    Ok(next) => next.with_args(
                        args,
                        if took_next {
                            i + 2
                        } else {
                            i + 1
                        },
                        item is Separator,
                    ),
                },
            }
        }
    }
}

/// What the command line asks for when its subcommand is `sub` and the
/// arguments of the subcommand start at position `i` of `args`; `test` says
/// whether the test switch stood before the subcommand.
pub open spec fn parse_subcommand(sub: Subcommand, args: Seq<Seq<char>>, i: int, test: bool) -> Result<
    ParsedView,
    CliErrorView,
> {
    match sub {
        Subcommand::Bake => match BakeArgsView::none().with_args(args, i, false) {
            Err(StopView::Help) => Ok(ParsedView::Help(Some(sub))),
            Err(StopView::Version) => Ok(ParsedView::Version),
            Err(StopView::Error(error)) => Err(error),
            Ok(given) => match given.finish() {
                Err(error) => Err(error),
                Ok(cli) => Ok(ParsedView::Run(CliView { cmd: Some(CommandsView::Bake(cli)), test })),
            },
        },
        Subcommand::Render => match RenderCliView::none().with_args(args, i, false) {
            Err(StopView::Help) => Ok(ParsedView::Help(Some(sub))),
            Err(StopView::Version) => Ok(ParsedView::Version),
            Err(StopView::Error(error)) => Err(error),
            Ok(cli) => Ok(ParsedView::Run(CliView { cmd: Some(CommandsView::Render(cli)), test })),
        },
    }
}

/// What the arguments `args` ask for, read from position `i` on, before any
/// subcommand; `test` says whether the test switch was passed already.
///
/// `-t` or `--test` sets the test switch. `-h` and `--help` ask for the
/// help of the program, `-V` and `--version` for its version. The word
/// `help` asks for the help of the subcommand named after it, or of the
/// program if nothing follows. `bake` and `render` are the subcommands, and
/// all that follows is theirs. At the end of the arguments, the test switch
/// alone is a command line; without it, the command is missing.
pub open spec fn parse_program(args: Seq<Seq<char>>, i: int, test: bool) -> Result<
    ParsedView,
    CliErrorView,
>
    decreases args.len() - i,
{
    if i < 0 || i >= args.len() {
        if test {
            Ok(ParsedView::Run(CliView { cmd: None, test: true }))
        } else {
            Err(CliErrorView::MissingCommand)
        }
    } else {
        let arg = args[i];
        if arg == "-t"@ || arg == "--test"@ {
            if test {
                Err(CliErrorView::Repeated(arg))
            } else {
                parse_program(args, i + 1, true)
            }
        } else if arg == "-h"@ || arg == "--help"@ {
            Ok(ParsedView::Help(None))
        } else if arg == "help"@ {
            if i + 1 >= args.len() {
                Ok(ParsedView::Help(None))
            } else if args[i + 1] == "bake"@ {
                Ok(ParsedView::Help(Some(Subcommand::Bake)))
            } else if args[i + 1] == "render"@ {
                Ok(ParsedView::Help(Some(Subcommand::Render)))
            } else {
                Err(CliErrorView::UnknownSubcommand(args[i + 1]))
            }
        } else if arg == "-V"@ || arg == "--version"@ {
            Ok(ParsedView::Version)
        } else if arg == "bake"@ {
            parse_subcommand(Subcommand::Bake, args, i + 1, test)
        } else if arg == "render"@ {
            parse_subcommand(Subcommand::Render, args, i + 1, test)
        } else if looks_like_option(arg) {
            Err(CliErrorView::UnknownOption(arg))
        } else {
            Err(CliErrorView::UnknownSubcommand(arg))
        }
    }
}

/// What the arguments `args` of the program ask for. The name of the
/// program is not among them.
pub open spec fn parse_args(args: Seq<Seq<char>>) -> Result<ParsedView, CliErrorView> {
    parse_program(args, 0, false)
}

/// The view of a result of reading a command line.
pub open spec fn parsed_view(out: Result<Parsed, CliError>) -> Result<ParsedView, CliErrorView> {
    match out {
        Ok(parsed) => Ok(parsed@),
        Err(error) => Err(error@),
    }
}

/// The view of a result of reading the arguments of a subcommand.
pub(crate) open spec fn given_view<T: View>(out: Result<T, Stop>) -> Result<T::V, StopView> {
    match out {
        Ok(given) => Ok(given@),
        Err(stop) => Err(stop@),
    }
}

impl BakeArgs {
    /// Takes `item` in, which was read from the argument `arg`.
    fn with_item(self, item: Item, arg: &String) -> (out: Result<BakeArgs, Stop>)
        requires
            item@ is Flag ==> takes_value(Subcommand::Bake, item@->Flag_0) == Some(false),
            item@ is Value ==> takes_value(Subcommand::Bake, item@->Value_0) == Some(true),
        ensures
            given_view(out) == self@.with_item(item@, arg@),
    {
        let mut given = self;
        match item {
            Item::Separator => Ok(given),
            Item::Positional(name) => if given.name.is_some() {
                Err(Stop::Error(CliError::UnexpectedArgument(arg.clone())))
            } else {
                given.name = Some(name);
                Ok(given)
            },
            Item::Flag(short) => if short == 'h' {
                Err(Stop::Help)
            } else if short == 'V' {
                Err(Stop::Version)
            } else if given.reload {
                Err(Stop::Error(CliError::Repeated(arg.clone())))
            } else {
                given.reload = true;
                Ok(given)
            },
            Item::Value(short, value) => if short == 'o' {
                if given.os.is_some() {
                    Err(Stop::Error(CliError::Repeated(arg.clone())))
                } else {
                    given.os = Some(value);
                    Ok(given)
                }
            } else if short == 'f' {
                match FileSystemFormat::from_value(value.as_str()) {
                    None => Err(
                        Stop::Error(CliError::InvalidValue { argument: arg.clone(), value }),
                    ),
                    Some(format) => if given.format.is_some() {
                        Err(Stop::Error(CliError::Repeated(arg.clone())))
                    } else {
                        given.format = Some(format);
                        Ok(given)
                    },
                }
            } else {
                match Arch::from_value(value.as_str()) {
                    None => Err(
                        Stop::Error(CliError::InvalidValue { argument: arg.clone(), value }),
                    ),
                    Some(arch) => if given.arch.is_some() {
                        Err(Stop::Error(CliError::Repeated(arg.clone())))
                    } else {
                        given.arch = Some(arch);
                        Ok(given)
                    },
                }
            },
        }
    }

    /// Reads the arguments of `bake`, which start at position `from` of
    /// `args`.
    pub(crate) fn read(args: &Vec<String>, from: usize) -> (out: Result<BakeArgs, Stop>)
        ensures
            given_view(out) == BakeArgsView::none().with_args(args.deep_view(), from as int, false),
    {
        let mut given = BakeArgs { name: None, os: None, format: None, arch: None, reload: false };
        let mut i = from;
        let mut raw = false;
        while i < args.len()
            invariant
                BakeArgsView::none().with_args(args.deep_view(), from as int, false)
                    == given@.with_args(args.deep_view(), i as int, raw),
            decreases args.len() - i,
        {
            let (item, took_next) = if raw {
                (Item::Positional(args[i].clone()), false)
            } else {
                match read_item(Subcommand::Bake, args, i) {
                    Ok(read) => read,
                    Err(error) => { return Err(Stop::Error(error)); },
                }
            };
            if let Item::Separator = &item {
                raw = true;
            }
            given = match given.with_item(item, &args[i]) {
                Ok(given) => given,
                Err(stop) => { return Err(stop); },
            };
            i = if took_next {
                i + 2
            } else {
                i + 1
            };
        }
        Ok(given)
    }

    /// The options of `bake` that these stand for.
    pub(crate) fn finish(self) -> (out: Result<BakeCli, CliError>)
        ensures
            match out {
                Ok(cli) => self@.finish() == Ok::<_, CliErrorView>(cli@),
                Err(error) => self@.finish() == Err::<BakeCliView, _>(error@),
            },
    {
        let BakeArgs { name, os, format, arch, reload } = self;
        match name {
            None => Err(CliError::MissingName),
            Some(name) => Ok(
                BakeCli {
                    name,
                    os: match os {
                        Some(os) => os,
                        None => "_any".to_owned(),
                    },
                    format: match format {
                        Some(format) => format,
                        None => FileSystemFormat::Squashfs,
                    },
                    arch,
                    reload,
                },
            ),
        }
    }
}

impl RenderCli {
    /// Takes `item` in, which was read from the argument `arg`.
    fn with_item(self, item: Item, arg: &String) -> (out: Result<RenderCli, Stop>)
        requires
            item@ is Flag ==> takes_value(Subcommand::Render, item@->Flag_0) == Some(false),
            item@ is Value ==> takes_value(Subcommand::Render, item@->Value_0) == Some(true),
        ensures
            given_view(out) == self@.with_item(item@, arg@),
    {
        let mut given = self;
        match item {
            Item::Separator => Ok(given),
            Item::Positional(value) => {
                let ghost before = given.values.deep_view();
                given.values.push(value);
                assert(given.values.deep_view() =~= before.push(value@));
                Ok(given)
            },
            Item::Flag(short) => if short == 'h' {
                Err(Stop::Help)
            } else {
                Err(Stop::Version)
            },
            Item::Value(short, value) => if short == 't' {
                if given.template_file.is_some() {
                    Err(Stop::Error(CliError::Repeated(arg.clone())))
                } else {
                    given.template_file = Some(value);
                    Ok(given)
                }
            } else if short == 'o' {
                if given.output_file.is_some() {
                    Err(Stop::Error(CliError::Repeated(arg.clone())))
                } else {
                    given.output_file = Some(value);
                    Ok(given)
                }
            } else {
                if given.config_file.is_some() {
                    Err(Stop::Error(CliError::Repeated(arg.clone())))
                } else {
                    given.config_file = Some(value);
                    Ok(given)
                }
            },
        }
    }

    /// Reads the arguments of `render`, which start at position `from` of
    /// `args`.
    pub(crate) fn read(args: &Vec<String>, from: usize) -> (out: Result<RenderCli, Stop>)
        ensures
            given_view(out) == RenderCliView::none().with_args(
                args.deep_view(),
                from as int,
                false,
            ),
    {
        let mut given = RenderCli {
            template_file: None,
            output_file: None,
            config_file: None,
            values: Vec::new(),
        };
        assert(given.values.deep_view() =~= Seq::empty());
        let mut i = from;
        let mut raw = false;
        while i < args.len()
            invariant
                RenderCliView::none().with_args(args.deep_view(), from as int, false)
                    == given@.with_args(args.deep_view(), i as int, raw),
            decreases args.len() - i,
        {
            let (item, took_next) = if raw {
                (Item::Positional(args[i].clone()), false)
            } else {
                match read_item(Subcommand::Render, args, i) {
                    Ok(read) => read,
                    Err(error) => { return Err(Stop::Error(error)); },
                }
            };
            if let Item::Separator = &item {
                raw = true;
            }
            given = match given.with_item(item, &args[i]) {
                Ok(given) => given,
                Err(stop) => { return Err(stop); },
            };
            i = if took_next {
                i + 2
            } else {
                i + 1
            };
        }
        Ok(given)
    }
}

fn read_subcommand(sub: Subcommand, args: &Vec<String>, from: usize, test: bool) -> (out: Result<
    Parsed,
    CliError,
>)
    ensures
        parsed_view(out) == parse_subcommand(sub, args.deep_view(), from as int, test),
{
    match sub {
        Subcommand::Bake => match BakeArgs::read(args, from) {
            Err(Stop::Help) => Ok(Parsed::Help(Some(sub))),
            Err(Stop::Version) => Ok(Parsed::Version),
            Err(Stop::Error(error)) => Err(error),
            Ok(given) => match given.finish() {
                Err(error) => Err(error),
                Ok(cli) => Ok(Parsed::Run(Cli { cmd: Some(Commands::Bake(cli)), test })),
            },
        },
        Subcommand::Render => match RenderCli::read(args, from) {
            Err(Stop::Help) => Ok(Parsed::Help(Some(sub))),
            Err(Stop::Version) => Ok(Parsed::Version),
            Err(Stop::Error(error)) => Err(error),
            Ok(cli) => Ok(Parsed::Run(Cli { cmd: Some(Commands::Render(cli)), test })),
        },
    }
}

impl Cli {
    /// Reads the arguments `args` of the program, without the name of the
    /// program itself.
    pub fn parse_from(args: &Vec<String>) -> (out: Result<Parsed, CliError>)
        ensures
            parsed_view(out) == parse_args(args.deep_view()),
    {
        let mut test = false;
        let mut i: usize = 0;
        while i < args.len()
            invariant
                parse_args(args.deep_view()) == parse_program(args.deep_view(), i as int, test),
            decreases args.len() - i,
        {
            let arg = args[i].as_str();
            if same_text(arg, "-t") || same_text(arg, "--test") {
                if test {
                    return Err(CliError::Repeated(args[i].clone()));
                }
                test = true;
            } else if same_text(arg, "-h") || same_text(arg, "--help") {
                return Ok(Parsed::Help(None));
            } else if same_text(arg, "help") {
                if i + 1 >= args.len() {
                    return Ok(Parsed::Help(None));
                } else if same_text(args[i + 1].as_str(), "bake") {
                    return Ok(Parsed::Help(Some(Subcommand::Bake)));
                } else if same_text(args[i + 1].as_str(), "render") {
                    return Ok(Parsed::Help(Some(Subcommand::Render)));
                } else {
                    return Err(CliError::UnknownSubcommand(args[i + 1].clone()));
                }
            } else if same_text(arg, "-V") || same_text(arg, "--version") {
                return Ok(Parsed::Version);
            } else if same_text(arg, "bake") {
                return read_subcommand(Subcommand::Bake, args, i + 1, test);
            } else if same_text(arg, "render") {
                return read_subcommand(Subcommand::Render, args, i + 1, test);
            } else if is_option_like(arg) {
                return Err(CliError::UnknownOption(args[i].clone()));
            } else {
                return Err(CliError::UnknownSubcommand(args[i].clone()));
            }
            i += 1;
        }
        if test {
            Ok(Parsed::Run(Cli { cmd: None, test: true }))
        } else {
            Err(CliError::MissingCommand)
        }
    }
}

} // verus!
