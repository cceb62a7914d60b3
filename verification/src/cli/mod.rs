//! The command line of the program: the two subcommands and their options.

pub mod parse;

use vstd::prelude::*;
use vstd::string::*;

verus! {

/// Whether `a` and `b` are the same text.
pub fn same_text(a: &str, b: &str) -> (same: bool)
    ensures
        same == (a@ == b@),
{
    a.to_owned() == b.to_owned()
}

/// The processor architectures an extension can be bound to.
#[derive(Copy, Clone, PartialEq, Eq, PartialOrd, Ord, Debug, Structural)]
pub enum Arch {
    Amd64,
    X86_64,
    Aarch64,
}

/// The filesystems an image can be built with.
#[derive(Copy, Clone, PartialEq, Eq, PartialOrd, Ord, Debug, Structural)]
pub enum FileSystemFormat {
    Btrfs,
    Ext4,
    Ext2,
    Squashfs,
}

impl Arch {
    /// The name of the variant, as it is written in this crate.
    pub open spec fn variant(self) -> Seq<char> {
        match self {
            Arch::Amd64 => "Amd64"@,
            Arch::X86_64 => "X86_64"@,
            Arch::Aarch64 => "Aarch64"@,
        }
    }

    /// The name of the variant, as it is written in this crate.
    pub fn variant_name(&self) -> (name: &'static str)
        ensures
            name@ == self.variant(),
    {
        match self {
            Arch::Amd64 => "Amd64",
            Arch::X86_64 => "X86_64",
            Arch::Aarch64 => "Aarch64",
        }
    }

    /// The architecture that `value` names on the command line.
    pub open spec fn named(value: Seq<char>) -> Option<Arch> {
        if value == "amd64"@ {
            Some(Arch::Amd64)
        } else if value == "x86-64"@ {
            Some(Arch::X86_64)
        } else if value == "aarch64"@ {
            Some(Arch::Aarch64)
        } else {
            None
        }
    }

    /// The architecture that `value` names on the command line: one of
    /// `amd64`, `x86-64` and `aarch64`, in lower case.
    pub fn from_value(value: &str) -> (arch: Option<Arch>)
        ensures
            arch == Arch::named(value@),
    {
        if same_text(value, "amd64") {
            Some(Arch::Amd64)
        } else if same_text(value, "x86-64") {
            Some(Arch::X86_64)
        } else if same_text(value, "aarch64") {
            Some(Arch::Aarch64)
        } else {
            None
        }
    }
}

impl FileSystemFormat {
    /// The name of the variant, as it is written in this crate.
    pub open spec fn variant(self) -> Seq<char> {
        match self {
            FileSystemFormat::Btrfs => "Btrfs"@,
            FileSystemFormat::Ext4 => "Ext4"@,
            FileSystemFormat::Ext2 => "Ext2"@,
            FileSystemFormat::Squashfs => "Squashfs"@,
        }
    }

    /// The name of the variant, as it is written in this crate.
    pub fn variant_name(&self) -> (name: &'static str)
        ensures
            name@ == self.variant(),
    {
        match self {
            FileSystemFormat::Btrfs => "Btrfs",
            FileSystemFormat::Ext4 => "Ext4",
            FileSystemFormat::Ext2 => "Ext2",
            FileSystemFormat::Squashfs => "Squashfs",
        }
    }

    /// The format that `value` names on the command line.
    pub open spec fn named(value: Seq<char>) -> Option<FileSystemFormat> {
        if value == "btrfs"@ {
            Some(FileSystemFormat::Btrfs)
        } else if value == "ext4"@ {
            Some(FileSystemFormat::Ext4)
        } else if value == "ext2"@ {
            Some(FileSystemFormat::Ext2)
        } else if value == "squashfs"@ {
            Some(FileSystemFormat::Squashfs)
        } else {
            None
        }
    }

    /// The format that `value` names on the command line: one of `btrfs`,
    /// `ext4`, `ext2` and `squashfs`, in lower case.
    pub fn from_value(value: &str) -> (format: Option<FileSystemFormat>)
        ensures
            format == FileSystemFormat::named(value@),
    {
        if same_text(value, "btrfs") {
            Some(FileSystemFormat::Btrfs)
        } else if same_text(value, "ext4") {
            Some(FileSystemFormat::Ext4)
        } else if same_text(value, "ext2") {
            Some(FileSystemFormat::Ext2)
        } else if same_text(value, "squashfs") {
            Some(FileSystemFormat::Squashfs)
        } else {
            None
        }
    }
}

/// The options of the `bake` subcommand.
#[derive(Debug)]
pub struct BakeCli {
    /// Name of the extension to build: the directory that holds its files,
    /// and the stem of the image's file name.
    pub name: String,
    /// The operating system the extension is for: an `ID` as in
    /// `etc/os-release`, or `_any`.
    pub os: String,
    /// The filesystem of the image.
    pub format: FileSystemFormat,
    /// The architecture the extension is bound to, if any.
    pub arch: Option<Arch>,
    /// Whether the extension asks for a reload after it is merged.
    pub reload: bool,
}

/// The options of the `render` subcommand.
#[derive(Debug)]
pub struct RenderCli {
    /// The template to render; without it the files are taken from the
    /// configuration file.
    pub template_file: Option<String>,
    /// Where the rendered text goes; the template's own path if `None`.
    pub output_file: Option<String>,
    /// The configuration file to read when no template is given.
    pub config_file: Option<String>,
    /// Values for the template, each in the form `key=value`.
    pub values: Vec<String>,
}

/// The subcommands.
#[derive(Debug)]
pub enum Commands {
    Bake(BakeCli),
    Render(RenderCli),
}

/// A parsed command line.
#[derive(Debug)]
pub struct Cli {
    /// The subcommand, if one was given.
    pub cmd: Option<Commands>,
    /// The hidden self-test switch.
    pub test: bool,
}

/// The mathematical value of a [`BakeCli`].
pub struct BakeCliView {
    pub name: Seq<char>,
    pub os: Seq<char>,
    pub format: FileSystemFormat,
    pub arch: Option<Arch>,
    pub reload: bool,
}

impl View for BakeCli {
    type V = BakeCliView;

    open spec fn view(&self) -> BakeCliView {
        BakeCliView {
            name: self.name@,
            os: self.os@,
            format: self.format,
            arch: self.arch,
            reload: self.reload,
        }
    }
}

/// The mathematical value of a [`RenderCli`].
pub struct RenderCliView {
    pub template_file: Option<Seq<char>>,
    pub output_file: Option<Seq<char>>,
    pub config_file: Option<Seq<char>>,
    pub values: Seq<Seq<char>>,
}

impl View for RenderCli {
    type V = RenderCliView;

    open spec fn view(&self) -> RenderCliView {
        RenderCliView {
            template_file: self.template_file.deep_view(),
            output_file: self.output_file.deep_view(),
            config_file: self.config_file.deep_view(),
            values: self.values.deep_view(),
        }
    }
}

/// The mathematical value of a [`Commands`].
pub enum CommandsView {
    Bake(BakeCliView),
    Render(RenderCliView),
}

impl View for Commands {
    type V = CommandsView;

    open spec fn view(&self) -> CommandsView {
        match *self {
            Commands::Bake(cli) => CommandsView::Bake(cli@),
            Commands::Render(cli) => CommandsView::Render(cli@),
        }
    }
}

/// The mathematical value of a [`Cli`].
pub struct CliView {
    pub cmd: Option<CommandsView>,
    pub test: bool,
}

impl View for Cli {
    type V = CliView;

    open spec fn view(&self) -> CliView {
        CliView {
            cmd: match self.cmd {
                Some(cmd) => Some(cmd@),
                None => None,
            },
            test: self.test,
        }
    }
}

} // verus!
