use nixos_upgrade::command::{
    build_booted_image_query, build_built_image_query, build_clock_query, build_reboot_command,
    build_rebuild_command,
};
use nixos_upgrade::config::NixosUpgradeConfig;
use nixos_upgrade::image::{has_image_changed, SystemImageIdentity};

fn config(flake: Option<&str>, channel: Option<&str>, flags: &[&str]) -> NixosUpgradeConfig {
    NixosUpgradeConfig {
        operation: "boot".to_string(),
        flake: flake.map(|s| s.to_string()),
        channel: channel.map(|s| s.to_string()),
        flags: flags.iter().map(|s| s.to_string()).collect(),
        allow_reboot: false,
        reboot_window: None,
    }
}

#[test]
fn default_config_upgrades_the_channel() {
    assert_eq!(
        build_rebuild_command(&NixosUpgradeConfig::default()),
        vec!["nixos-rebuild", "boot", "--upgrade", "--no-build-output"]
    );
}

#[test]
fn flake_and_channel_give_both_and_no_upgrade() {
    let line = build_rebuild_command(&config(
        Some("github:org/repo"),
        Some("https://nixos.org/channels/nixos-23.11"),
        &["--no-build-output"],
    ));
    assert_eq!(
        line,
        vec![
            "nixos-rebuild",
            "boot",
            "--refresh",
            "--flake",
            "github:org/repo",
            "-I",
            "nixpkgs=https://nixos.org/channels/nixos-23.11/nixexprs.tar.xz",
            "--no-build-output",
        ]
    );
    assert!(!line.iter().any(|argument| argument == "--upgrade"));
}

#[test]
fn channel_alone_combines_with_upgrade() {
    assert_eq!(
        build_rebuild_command(&config(None, Some("/srv/channel"), &[])),
        vec!["nixos-rebuild", "boot", "--upgrade", "-I", "nixpkgs=/srv/channel/nixexprs.tar.xz"]
    );
}

#[test]
fn flake_alone_suppresses_upgrade() {
    assert_eq!(
        build_rebuild_command(&config(Some(".#host"), None, &[])),
        vec!["nixos-rebuild", "boot", "--refresh", "--flake", ".#host"]
    );
}

#[test]
fn flags_follow_in_their_order() {
    let line = build_rebuild_command(&config(None, None, &["-b", "-a", "", "-b"]));
    assert_eq!(line, vec!["nixos-rebuild", "boot", "--upgrade", "-b", "-a", "", "-b"]);
}

#[test]
fn operation_is_the_first_argument() {
    let mut switching = config(None, None, &[]);
    switching.operation = "switch".to_string();
    assert_eq!(build_rebuild_command(&switching), vec!["nixos-rebuild", "switch", "--upgrade"]);
}

#[test]
fn same_config_gives_the_same_command() {
    let c = config(Some("github:org/repo"), Some("chan"), &["x", "y"]);
    assert_eq!(build_rebuild_command(&c), build_rebuild_command(&c.clone()));
}

#[test]
fn image_queries_resolve_the_three_paths() {
    assert_eq!(
        build_booted_image_query(),
        vec![
            "readlink",
            "-f",
            "/run/booted-system/kernel",
            "/run/booted-system/initrd",
            "/run/booted-system/kernel-modules",
        ]
    );
    assert_eq!(
        build_built_image_query(),
        vec![
            "readlink",
            "-f",
            "/nix/var/nix/profiles/system/kernel",
            "/nix/var/nix/profiles/system/initrd",
            "/nix/var/nix/profiles/system/kernel-modules",
        ]
    );
}

#[test]
fn clock_query_asks_for_hours_and_minutes() {
    assert_eq!(build_clock_query(), vec!["date", "+%H:%M"]);
}

#[test]
fn reboot_is_scheduled_a_minute_ahead() {
    assert_eq!(
        build_reboot_command(),
        vec!["shutdown", "-r", "+1", "NixOS upgrade requires reboot"]
    );
}

#[test]
fn identical_images_are_unchanged() {
    let identity = SystemImageIdentity {
        booted: b"/nix/store/a/kernel\n/nix/store/a/initrd\n/nix/store/a/kernel-modules\n".to_vec(),
        built: b"/nix/store/a/kernel\n/nix/store/a/initrd\n/nix/store/a/kernel-modules\n".to_vec(),
    };
    assert!(!has_image_changed(&identity));
}

#[test]
fn empty_outputs_are_unchanged() {
    assert!(!has_image_changed(&SystemImageIdentity { booted: Vec::new(), built: Vec::new() }));
}

#[test]
fn any_differing_byte_is_a_change() {
    let booted = b"/nix/store/a/kernel\n/nix/store/a/initrd\n/nix/store/a/modules\n".to_vec();
    for at in 0..booted.len() {
        let mut built = booted.clone();
        built[at] ^= 1;
        assert!(has_image_changed(&SystemImageIdentity { booted: booted.clone(), built }));
    }
}

#[test]
fn differing_length_is_a_change() {
    let identity = SystemImageIdentity { booted: b"/a\n".to_vec(), built: b"/a\n\n".to_vec() };
    assert!(has_image_changed(&identity));
    let identity = SystemImageIdentity { booted: b"/a\n".to_vec(), built: Vec::new() };
    assert!(has_image_changed(&identity));
}
