use bakery::cli::parse::{CliError, Parsed, Subcommand};
use bakery::cli::{Arch, Cli, Commands, FileSystemFormat};

fn args(list: &[&str]) -> Vec<String> {
    list.iter().map(|arg| arg.to_string()).collect()
}

fn bake_options(list: &[&str]) -> bakery::cli::BakeCli {
    match Cli::parse_from(&args(list)) {
        Ok(Parsed::Run(Cli { cmd: Some(Commands::Bake(cli)), test: false })) => cli,
        other => panic!("not a bake command line: {:?}", other),
    }
}

fn render_options(list: &[&str]) -> bakery::cli::RenderCli {
    match Cli::parse_from(&args(list)) {
        Ok(Parsed::Run(Cli { cmd: Some(Commands::Render(cli)), test: false })) => cli,
        other => panic!("not a render command line: {:?}", other),
    }
}

#[test]
fn test_cli_help() {
    let parsed = Cli::parse_from(&args(&["--help"]));
    assert!(matches!(parsed, Ok(Parsed::Help(None))));
}

#[test]
fn help_is_known_in_short_and_as_a_word() {
    assert!(matches!(Cli::parse_from(&args(&["-h"])), Ok(Parsed::Help(None))));
    assert!(matches!(Cli::parse_from(&args(&["help"])), Ok(Parsed::Help(None))));
}

#[test]
fn the_word_help_can_name_a_subcommand() {
    assert!(matches!(
        Cli::parse_from(&args(&["help", "bake"])),
        Ok(Parsed::Help(Some(Subcommand::Bake)))
    ));
    assert!(matches!(
        Cli::parse_from(&args(&["help", "render", "ignored"])),
        Ok(Parsed::Help(Some(Subcommand::Render)))
    ));
    match Cli::parse_from(&args(&["help", "brew"])) {
        Err(CliError::UnknownSubcommand(arg)) => assert_eq!(arg, "brew"),
        other => panic!("unexpected: {:?}", other),
    }
}

#[test]
fn help_of_a_subcommand_names_it() {
    assert!(matches!(
        Cli::parse_from(&args(&["bake", "--help"])),
        Ok(Parsed::Help(Some(Subcommand::Bake)))
    ));
    assert!(matches!(
        Cli::parse_from(&args(&["render", "-h"])),
        Ok(Parsed::Help(Some(Subcommand::Render)))
    ));
}

#[test]
fn help_comes_before_a_missing_name() {
    assert!(matches!(
        Cli::parse_from(&args(&["bake", "-h"])),
        Ok(Parsed::Help(Some(Subcommand::Bake)))
    ));
}

#[test]
fn version_is_asked_for_anywhere() {
    assert!(matches!(Cli::parse_from(&args(&["--version"])), Ok(Parsed::Version)));
    assert!(matches!(Cli::parse_from(&args(&["-V"])), Ok(Parsed::Version)));
    assert!(matches!(Cli::parse_from(&args(&["bake", "-V"])), Ok(Parsed::Version)));
    assert!(matches!(Cli::parse_from(&args(&["render", "--version"])), Ok(Parsed::Version)));
}

#[test]
fn no_argument_is_a_missing_command() {
    assert!(matches!(Cli::parse_from(&args(&[])), Err(CliError::MissingCommand)));
}

#[test]
fn the_test_switch_alone_is_a_command_line() {
    match Cli::parse_from(&args(&["--test"])) {
        Ok(Parsed::Run(cli)) => {
            assert!(cli.test);
            assert!(cli.cmd.is_none());
        }
        other => panic!("unexpected: {:?}", other),
    }
    assert!(matches!(
        Cli::parse_from(&args(&["-t"])),
        Ok(Parsed::Run(Cli { cmd: None, test: true }))
    ));
}

#[test]
fn the_test_switch_stands_before_the_subcommand() {
    match Cli::parse_from(&args(&["-t", "bake", "demo"])) {
        Ok(Parsed::Run(Cli { cmd: Some(Commands::Bake(cli)), test })) => {
            assert!(test);
            assert_eq!(cli.name, "demo");
        }
        other => panic!("unexpected: {:?}", other),
    }
}

#[test]
fn the_test_switch_twice_is_refused() {
    match Cli::parse_from(&args(&["-t", "--test"])) {
        Err(CliError::Repeated(arg)) => assert_eq!(arg, "--test"),
        other => panic!("unexpected: {:?}", other),
    }
}

#[test]
fn an_unknown_word_is_no_subcommand() {
    match Cli::parse_from(&args(&["brew", "demo"])) {
        Err(CliError::UnknownSubcommand(arg)) => assert_eq!(arg, "brew"),
        other => panic!("unexpected: {:?}", other),
    }
}

#[test]
fn an_unknown_switch_of_the_program_is_refused() {
    match Cli::parse_from(&args(&["--quiet", "bake", "demo"])) {
        Err(CliError::UnknownOption(arg)) => assert_eq!(arg, "--quiet"),
        other => panic!("unexpected: {:?}", other),
    }
}

#[test]
fn bake_defaults() {
    let cli = bake_options(&["bake", "demo"]);
    assert_eq!(cli.name, "demo");
    assert_eq!(cli.os, "_any");
    assert_eq!(cli.format, FileSystemFormat::Squashfs);
    assert_eq!(cli.arch, None);
    assert!(!cli.reload);
}

#[test]
fn bake_takes_every_option_in_its_long_form() {
    let cli = bake_options(&[
        "bake", "--os", "debian", "--format", "ext4", "--arch", "x86-64", "--reload", "demo",
    ]);
    assert_eq!(cli.name, "demo");
    assert_eq!(cli.os, "debian");
    assert_eq!(cli.format, FileSystemFormat::Ext4);
    assert_eq!(cli.arch, Some(Arch::X86_64));
    assert!(cli.reload);
}

#[test]
fn bake_takes_every_option_in_its_short_form() {
    let cli = bake_options(&["bake", "demo", "-o", "fedora", "-f", "btrfs", "-a", "aarch64", "-r"]);
    assert_eq!(cli.name, "demo");
    assert_eq!(cli.os, "fedora");
    assert_eq!(cli.format, FileSystemFormat::Btrfs);
    assert_eq!(cli.arch, Some(Arch::Aarch64));
    assert!(cli.reload);
}

#[test]
fn values_can_be_attached() {
    let cli = bake_options(&["bake", "--os=debian", "-fext2", "-a=amd64", "demo"]);
    assert_eq!(cli.os, "debian");
    assert_eq!(cli.format, FileSystemFormat::Ext2);
    assert_eq!(cli.arch, Some(Arch::Amd64));
}

#[test]
fn an_attached_value_may_hold_an_equals_sign() {
    let cli = bake_options(&["bake", "--os=a=b", "demo"]);
    assert_eq!(cli.os, "a=b");
}

#[test]
fn an_attached_value_may_be_empty() {
    let cli = bake_options(&["bake", "--os=", "demo"]);
    assert_eq!(cli.os, "");
}

#[test]
fn every_format_has_its_name() {
    assert_eq!(FileSystemFormat::from_value("btrfs"), Some(FileSystemFormat::Btrfs));
    assert_eq!(FileSystemFormat::from_value("ext4"), Some(FileSystemFormat::Ext4));
    assert_eq!(FileSystemFormat::from_value("ext2"), Some(FileSystemFormat::Ext2));
    assert_eq!(FileSystemFormat::from_value("squashfs"), Some(FileSystemFormat::Squashfs));
    assert_eq!(FileSystemFormat::from_value("Squashfs"), None);
    assert_eq!(FileSystemFormat::from_value("xfs"), None);
    assert_eq!(FileSystemFormat::from_value(""), None);
}

#[test]
fn every_architecture_has_its_name() {
    assert_eq!(Arch::from_value("amd64"), Some(Arch::Amd64));
    assert_eq!(Arch::from_value("x86-64"), Some(Arch::X86_64));
    assert_eq!(Arch::from_value("aarch64"), Some(Arch::Aarch64));
    assert_eq!(Arch::from_value("x86_64"), None);
    assert_eq!(Arch::from_value("X86-64"), None);
}

#[test]
fn variants_are_named_as_they_are_written() {
    assert_eq!(Arch::Amd64.variant_name(), "Amd64");
    assert_eq!(Arch::X86_64.variant_name(), "X86_64");
    assert_eq!(Arch::Aarch64.variant_name(), "Aarch64");
    assert_eq!(FileSystemFormat::Btrfs.variant_name(), "Btrfs");
    assert_eq!(FileSystemFormat::Ext4.variant_name(), "Ext4");
    assert_eq!(FileSystemFormat::Ext2.variant_name(), "Ext2");
    assert_eq!(FileSystemFormat::Squashfs.variant_name(), "Squashfs");
}

#[test]
fn an_unknown_format_is_refused() {
    match Cli::parse_from(&args(&["bake", "demo", "--format=xfs"])) {
        Err(CliError::InvalidValue { argument, value }) => {
            assert_eq!(argument, "--format=xfs");
            assert_eq!(value, "xfs");
        }
        other => panic!("unexpected: {:?}", other),
    }
}

#[test]
fn an_option_without_its_value_is_refused() {
    match Cli::parse_from(&args(&["bake", "demo", "--os"])) {
        Err(CliError::MissingValue(arg)) => assert_eq!(arg, "--os"),
        other => panic!("unexpected: {:?}", other),
    }
    match Cli::parse_from(&args(&["bake", "demo", "-o", "--reload"])) {
        Err(CliError::MissingValue(arg)) => assert_eq!(arg, "-o"),
        other => panic!("unexpected: {:?}", other),
    }
}

#[test]
fn a_lone_dash_can_be_a_value() {
    let cli = bake_options(&["bake", "demo", "--os", "-"]);
    assert_eq!(cli.os, "-");
}

#[test]
fn a_switch_takes_no_value() {
    match Cli::parse_from(&args(&["bake", "demo", "--reload=yes"])) {
        Err(CliError::UnexpectedValue(arg)) => assert_eq!(arg, "--reload=yes"),
        other => panic!("unexpected: {:?}", other),
    }
    match Cli::parse_from(&args(&["bake", "demo", "-rf"])) {
        Err(CliError::UnexpectedValue(arg)) => assert_eq!(arg, "-rf"),
        other => panic!("unexpected: {:?}", other),
    }
}

#[test]
fn an_option_given_twice_is_refused() {
    match Cli::parse_from(&args(&["bake", "demo", "--os", "a", "-o", "b"])) {
        Err(CliError::Repeated(arg)) => assert_eq!(arg, "-o"),
        other => panic!("unexpected: {:?}", other),
    }
    match Cli::parse_from(&args(&["bake", "demo", "-r", "--reload"])) {
        Err(CliError::Repeated(arg)) => assert_eq!(arg, "--reload"),
        other => panic!("unexpected: {:?}", other),
    }
    match Cli::parse_from(&args(&["bake", "-f", "ext4", "--format", "ext2", "demo"])) {
        Err(CliError::Repeated(arg)) => assert_eq!(arg, "--format"),
        other => panic!("unexpected: {:?}", other),
    }
    match Cli::parse_from(&args(&["bake", "-a", "amd64", "-a", "amd64", "demo"])) {
        Err(CliError::Repeated(arg)) => assert_eq!(arg, "-a"),
        other => panic!("unexpected: {:?}", other),
    }
}

#[test]
fn an_unknown_option_of_bake_is_refused() {
    match Cli::parse_from(&args(&["bake", "demo", "--template-file", "x"])) {
        Err(CliError::UnknownOption(arg)) => assert_eq!(arg, "--template-file"),
        other => panic!("unexpected: {:?}", other),
    }
    match Cli::parse_from(&args(&["bake", "demo", "-x"])) {
        Err(CliError::UnknownOption(arg)) => assert_eq!(arg, "-x"),
        other => panic!("unexpected: {:?}", other),
    }
}

#[test]
fn a_second_name_is_refused() {
    match Cli::parse_from(&args(&["bake", "one", "two"])) {
        Err(CliError::UnexpectedArgument(arg)) => assert_eq!(arg, "two"),
        other => panic!("unexpected: {:?}", other),
    }
}

#[test]
fn the_first_error_from_the_left_is_reported() {
    match Cli::parse_from(&args(&["bake", "--arch", "unknown", "--nonsense"])) {
        Err(CliError::InvalidValue { value, .. }) => assert_eq!(value, "unknown"),
        other => panic!("unexpected: {:?}", other),
    }
    match Cli::parse_from(&args(&["bake", "--nonsense", "--arch", "unknown"])) {
        Err(CliError::UnknownOption(arg)) => assert_eq!(arg, "--nonsense"),
        other => panic!("unexpected: {:?}", other),
    }
}

#[test]
fn after_two_dashes_everything_is_positional() {
    let cli = bake_options(&["bake", "--", "--reload"]);
    assert_eq!(cli.name, "--reload");
    assert!(!cli.reload);
    match Cli::parse_from(&args(&["bake", "--", "-r", "demo"])) {
        Err(CliError::UnexpectedArgument(arg)) => assert_eq!(arg, "demo"),
        other => panic!("unexpected: {:?}", other),
    }
}

#[test]
fn a_lone_dash_is_a_name() {
    let cli = bake_options(&["bake", "-"]);
    assert_eq!(cli.name, "-");
}

#[test]
fn render_without_arguments_reads_the_configuration() {
    let cli = render_options(&["render"]);
    assert_eq!(cli.template_file, None);
    assert_eq!(cli.output_file, None);
    assert_eq!(cli.config_file, None);
    assert!(cli.values.is_empty());
}

#[test]
fn render_takes_its_options_and_values() {
    let cli = render_options(&[
        "render",
        "-t",
        "./tests/templates/sample_template.txt",
        "-o",
        "./test-render-cli-args.txt",
        "documentation_url=https://somewhere.over.the.rainbow.dev",
        "executable_path=/usr/bin/some-executable",
        "wants=network-online.target",
    ]);
    assert_eq!(cli.template_file.as_deref(), Some("./tests/templates/sample_template.txt"));
    assert_eq!(cli.output_file.as_deref(), Some("./test-render-cli-args.txt"));
    assert_eq!(cli.config_file, None);
    assert_eq!(
        cli.values,
        vec![
            "documentation_url=https://somewhere.over.the.rainbow.dev",
            "executable_path=/usr/bin/some-executable",
            "wants=network-online.target",
        ]
    );
}

#[test]
fn render_takes_a_configuration_file() {
    let cli = render_options(&["render", "-c", "./tests/config.yml"]);
    assert_eq!(cli.config_file.as_deref(), Some("./tests/config.yml"));
    let cli = render_options(&["render", "--config-file=conf.yml", "--template-file", "t", "--output-file", "o"]);
    assert_eq!(cli.config_file.as_deref(), Some("conf.yml"));
    assert_eq!(cli.template_file.as_deref(), Some("t"));
    assert_eq!(cli.output_file.as_deref(), Some("o"));
}

#[test]
fn render_refuses_what_bake_takes() {
    match Cli::parse_from(&args(&["render", "--reload"])) {
        Err(CliError::UnknownOption(arg)) => assert_eq!(arg, "--reload"),
        other => panic!("unexpected: {:?}", other),
    }
    match Cli::parse_from(&args(&["render", "-t", "a", "-t", "b"])) {
        Err(CliError::Repeated(arg)) => assert_eq!(arg, "-t"),
        other => panic!("unexpected: {:?}", other),
    }
}
