use git_switch_branch::config::{alias_from_input, git_alias_key};
use git_switch_branch::Command;

#[test]
fn command_names() {
    for a in ["help", "--help", "-h"] {
        assert_eq!(Command::from(a), Command::Help);
    }
    for a in ["version", "--version", "-v"] {
        assert_eq!(Command::from(a), Command::Version);
    }
    assert_eq!(Command::from("alias"), Command::Alias);
    for a in ["remote", "r"] {
        assert_eq!(Command::from(a), Command::Remote);
    }
    for a in ["all", "a"] {
        assert_eq!(Command::from(a), Command::All);
    }
}

#[test]
fn unknown_command_is_invalid() {
    for a in ["", "hel", "helpp", "HELP", "--all", "remotes", "x"] {
        assert_eq!(Command::from(a), Command::Invalid);
    }
}

#[test]
fn alias_input_is_trimmed() {
    assert_eq!(alias_from_input("  sw \n"), Some("sw".to_string()));
    assert_eq!(alias_from_input("co"), Some("co".to_string()));
    assert_eq!(alias_from_input("\u{3000}go to\t"), Some("go to".to_string()));
}

#[test]
fn blank_alias_input_is_refused() {
    assert_eq!(alias_from_input(""), None);
    assert_eq!(alias_from_input(" \t\r\n"), None);
}

#[test]
fn alias_key() {
    assert_eq!(git_alias_key("sw"), "alias.sw");
}
