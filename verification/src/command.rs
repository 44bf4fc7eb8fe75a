//! The command lines of a run. Each is a sequence of texts, the program's
//! name first.

use crate::config::{ConfigView, NixosUpgradeConfig};
use vstd::prelude::*;
use vstd::string::*;

verus! {

/// What the command says of the source to build from: a flake, refreshed,
/// where one is configured, and otherwise an upgrade of the channel.
pub open spec fn source_arguments(config: ConfigView) -> Seq<Seq<char>> {
    match config.flake {
        Some(flake) => seq!["--refresh"@, "--flake"@, flake],
        None => seq!["--upgrade"@],
    }
}

/// The include path that takes `nixpkgs` from the configured channel.
pub open spec fn channel_arguments(config: ConfigView) -> Seq<Seq<char>> {
    match config.channel {
        Some(channel) => seq!["-I"@, "nixpkgs="@ + channel + "/nixexprs.tar.xz"@],
        None => seq![],
    }
}

/// The rebuild command of a configuration: the program, the operation, the
/// source, the channel, then the configured flags as they are.
pub open spec fn rebuild_command(config: ConfigView) -> Seq<Seq<char>> {
    seq!["nixos-rebuild"@, config.operation] + source_arguments(config) + channel_arguments(
        config,
    ) + config.flags
}

/// The command that resolves the images the machine was booted from.
pub open spec fn booted_image_query() -> Seq<Seq<char>> {
    seq![
        "readlink"@,
        "-f"@,
        "/run/booted-system/kernel"@,
        "/run/booted-system/initrd"@,
        "/run/booted-system/kernel-modules"@,
    ]
}

/// The command that resolves the images of the system profile.
pub open spec fn built_image_query() -> Seq<Seq<char>> {
    seq![
        "readlink"@,
        "-f"@,
        "/nix/var/nix/profiles/system/kernel"@,
        "/nix/var/nix/profiles/system/initrd"@,
        "/nix/var/nix/profiles/system/kernel-modules"@,
    ]
}

/// The command that prints the time of day as "HH:MM".
pub open spec fn clock_query() -> Seq<Seq<char>> {
    seq!["date"@, "+%H:%M"@]
}

/// The command that schedules the reboot, one minute ahead.
pub open spec fn reboot_command() -> Seq<Seq<char>> {
    seq!["shutdown"@, "-r"@, "+1"@, "NixOS upgrade requires reboot"@]
}

/// Appends one text to a command line.
fn push_text(line: &mut Vec<String>, text: String)
    ensures
        final(line).deep_view() == old(line).deep_view().push(text@),
{
    line.push(text);
    assert(line.deep_view() =~= old(line).deep_view().push(text@));
}

/// Appends a literal to a command line.
fn push_literal(line: &mut Vec<String>, literal: &'static str)
    ensures
        final(line).deep_view() == old(line).deep_view().push(literal@),
{
    push_text(line, String::from_str(literal));
}

/// An empty command line.
fn empty_line() -> (line: Vec<String>)
    ensures
        line.deep_view() == Seq::<Seq<char>>::empty(),
{
    let line: Vec<String> = Vec::new();
    assert(line.deep_view() =~= Seq::<Seq<char>>::empty());
    line
}

/// Builds the rebuild command of `config`.
pub fn build_rebuild_command(config: &NixosUpgradeConfig) -> (line: Vec<String>)
    ensures
        line.deep_view() == rebuild_command(config@),
{
    let mut line = empty_line();
    push_literal(&mut line, "nixos-rebuild");
    push_text(&mut line, config.operation.clone());
    match &config.flake {
        Some(flake) => {
            push_literal(&mut line, "--refresh");
            push_literal(&mut line, "--flake");
            push_text(&mut line, flake.clone());
        },
        None => {
            push_literal(&mut line, "--upgrade");
        },
    }
    match &config.channel {
        Some(channel) => {
            push_literal(&mut line, "-I");
            let path = String::from_str("nixpkgs=").concat(channel.as_str()).concat(
                "/nixexprs.tar.xz",
            );
            push_text(&mut line, path);
        },
        None => {},
    }
    let ghost fixed = line.deep_view();
    assert(fixed =~= seq!["nixos-rebuild"@, config@.operation] + source_arguments(config@)
        + channel_arguments(config@));
    let mut i: usize = 0;
    while i < config.flags.len()
        invariant
            i <= config.flags.len(),
            line.deep_view() == fixed + config.flags.deep_view().take(i as int),
        decreases config.flags.len() - i,
    {
        push_text(&mut line, config.flags[i].clone());
        assert(config.flags.deep_view().take(i as int).push(config.flags[i as int]@)
            =~= config.flags.deep_view().take(i + 1));
        i = i + 1;
    }
    assert(config.flags.deep_view().take(i as int) =~= config.flags.deep_view());
    line
}

/// Builds the command that resolves the images the machine was booted from.
pub fn build_booted_image_query() -> (line: Vec<String>)
    ensures
        line.deep_view() == booted_image_query(),
{
    let mut line = empty_line();
    push_literal(&mut line, "readlink");
    push_literal(&mut line, "-f");
    push_literal(&mut line, "/run/booted-system/kernel");
    push_literal(&mut line, "/run/booted-system/initrd");
    push_literal(&mut line, "/run/booted-system/kernel-modules");
    assert(line.deep_view() =~= booted_image_query());
    line
}

/// Builds the command that resolves the images of the system profile.
pub fn build_built_image_query() -> (line: Vec<String>)
    ensures
        line.deep_view() == built_image_query(),
{
    let mut line = empty_line();
    push_literal(&mut line, "readlink");
    push_literal(&mut line, "-f");
    push_literal(&mut line, "/nix/var/nix/profiles/system/kernel");
    push_literal(&mut line, "/nix/var/nix/profiles/system/initrd");
    push_literal(&mut line, "/nix/var/nix/profiles/system/kernel-modules");
    assert(line.deep_view() =~= built_image_query());
    line
}

/// Builds the command that prints the time of day.
pub fn build_clock_query() -> (line: Vec<String>)
    ensures
        line.deep_view() == clock_query(),
{
    let mut line = empty_line();
    push_literal(&mut line, "date");
    push_literal(&mut line, "+%H:%M");
    assert(line.deep_view() =~= clock_query());
    line
}

/// Builds the command that schedules the reboot.
pub fn build_reboot_command() -> (line: Vec<String>)
    ensures
        line.deep_view() == reboot_command(),
{
    let mut line = empty_line();
    push_literal(&mut line, "shutdown");
    push_literal(&mut line, "-r");
    push_literal(&mut line, "+1");
    push_literal(&mut line, "NixOS upgrade requires reboot");
    assert(line.deep_view() =~= reboot_command());
    line
}

/// Two configurations with the same settings give the same rebuild command.
pub proof fn lemma_rebuild_command_deterministic(a: NixosUpgradeConfig, b: NixosUpgradeConfig)
    requires
        a@ == b@,
    ensures
        rebuild_command(a@) == rebuild_command(b@),
{
}

/// With a flake configured the rebuild command is the program, the
/// operation, the refresh and flake arguments, the channel's arguments and
/// the configured flags: no upgrade of the channel is asked for.
pub proof fn lemma_flake_replaces_upgrade(config: ConfigView)
    requires
        config.flake is Some,
    ensures
        rebuild_command(config) == seq![
            "nixos-rebuild"@,
            config.operation,
            "--refresh"@,
            "--flake"@,
            config.flake->Some_0,
        ] + channel_arguments(config) + config.flags,
        !channel_arguments(config).contains("--upgrade"@),
{
    assert(rebuild_command(config) =~= seq![
        "nixos-rebuild"@,
        config.operation,
        "--refresh"@,
        "--flake"@,
        config.flake->Some_0,
    ] + channel_arguments(config) + config.flags);
    reveal_strlit("--upgrade");
    reveal_strlit("-I");
    reveal_strlit("nixpkgs=");
    if let Some(channel) = config.channel {
        let path = "nixpkgs="@ + channel + "/nixexprs.tar.xz"@;
        assert(path[0] == 'n');
        assert("--upgrade"@[0] == '-');
        assert("-I"@.len() == 2);
        assert("--upgrade"@.len() == 9);
    }
}

/// With a flake configured, and unless the operation, the flake or one of
/// the configured flags is itself the text "--upgrade", that text is no
/// argument of the rebuild command.
pub proof fn lemma_flake_suppresses_upgrade(config: ConfigView)
    requires
        config.flake is Some,
        config.operation != "--upgrade"@,
        config.flake != Some("--upgrade"@),
        !config.flags.contains("--upgrade"@),
    ensures
        !rebuild_command(config).contains("--upgrade"@),
{
    lemma_flake_replaces_upgrade(config);
    reveal_strlit("--upgrade");
    reveal_strlit("nixos-rebuild");
    reveal_strlit("--refresh");
    reveal_strlit("--flake");
    let head = seq![
        "nixos-rebuild"@,
        config.operation,
        "--refresh"@,
        "--flake"@,
        config.flake->Some_0,
    ];
    let line = rebuild_command(config);
    assert("nixos-rebuild"@[0] == 'n');
    assert("--upgrade"@[2] == 'u');
    assert("--refresh"@[2] == 'r');
    assert("--flake"@[2] == 'f');
    assert forall|i: int| 0 <= i < line.len() implies line[i] != "--upgrade"@ by {
        if i < 5 {
            assert(line[i] == head[i]);
        } else if i < 5 + channel_arguments(config).len() {
            assert(line[i] == channel_arguments(config)[i - 5]);
            assert(channel_arguments(config).contains(line[i]));
        } else {
            let k = i - 5 - channel_arguments(config).len();
            assert(line[i] == config.flags[k]);
            assert(config.flags.contains(line[i]));
        }
    }
}

} // verus!
