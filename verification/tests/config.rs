use rustrdp::config::{
    config_path, config_path_in, default_port, password_from_command, CommandOutcome, Config,
    ConfigError, Credential, PasswordSource, Server,
};

fn server(credential_id: Option<&str>, username: &str, password: &str) -> Server {
    Server {
        name: "s".into(),
        host: "h".into(),
        port: 3389,
        credential_id: credential_id.map(|id| id.to_owned()),
        username: username.into(),
        password: password.into(),
        domain: String::new(),
    }
}

fn credential(id: &str, username: &str) -> Credential {
    Credential {
        id: id.into(),
        label: "label".into(),
        username: username.into(),
        password: "pw".into(),
        domain: "D".into(),
    }
}

#[test]
fn credential_round_trip() {
    let cfg = Config {
        clipboard_passthrough: false,
        credentials: vec![Credential {
            id: "corp".into(),
            label: "Corp Admin".into(),
            username: "administrator".into(),
            password: "secret".into(),
            domain: "CORP".into(),
        }],
        servers: vec![Server {
            name: "dc01".into(),
            host: "10.0.0.1".into(),
            port: 3389,
            credential_id: Some("corp".into()),
            username: String::new(),
            password: String::new(),
            domain: String::new(),
        }],
    };
    let back: Config = cfg.clone();
    assert_eq!(back.credentials.len(), 1);
    assert_eq!(back.credentials[0].id, "corp");
    let (u, p, d) = back.resolve_credentials(&back.servers[0]);
    assert_eq!(u, "administrator");
    assert_eq!(p, "secret");
    assert_eq!(d, "CORP");
}

#[test]
fn resolve_falls_back_to_inline_when_no_credential_id() {
    let cfg = Config {
        clipboard_passthrough: false,
        credentials: vec![],
        servers: vec![Server {
            name: "s".into(),
            host: "h".into(),
            port: 3389,
            credential_id: None,
            username: "inlineuser".into(),
            password: "inlinepw".into(),
            domain: String::new(),
        }],
    };
    let (u, p, _d) = cfg.resolve_credentials(&cfg.servers[0]);
    assert_eq!(u, "inlineuser");
    assert_eq!(p, "inlinepw");
}

#[test]
fn config_path_uses_dot_config() {
    let p = config_path().unwrap();
    let s = p.to_string_lossy();
    assert!(s.contains("/.config/rustrdp/servers.json"), "path was {s}");
}

#[test]
fn config_path_joins_below_the_home_directory() {
    let path = config_path_in(Some(std::path::PathBuf::from("/home/me"))).unwrap();
    assert_eq!(path, std::path::PathBuf::from("/home/me/.config/rustrdp/servers.json"));
}

#[test]
fn no_home_directory_is_an_error() {
    let error = config_path_in(None).unwrap_err();
    assert!(matches!(error, ConfigError::NoHomeDirectory));
    assert_eq!(error.message(), "could not determine home directory");
}

#[test]
fn linked_credential_wins_over_inline_fields() {
    let cfg = Config {
        clipboard_passthrough: false,
        credentials: vec![credential("a", "first"), credential("b", "second"), credential("b", "third")],
        servers: vec![server(Some("b"), "inline", "inline"), server(Some("c"), "inline", "x")],
    };
    assert_eq!(cfg.resolve_credentials(&cfg.servers[0]), ("second", "pw", "D"));
    assert_eq!(cfg.resolve_credentials(&cfg.servers[1]), ("inline", "x", ""));
}

#[test]
fn defaults_are_blank_with_the_usual_port() {
    assert_eq!(default_port(), 3389);
    let server = Server::default();
    assert_eq!(server.port, 3389);
    assert!(server.name.is_empty() && server.host.is_empty() && server.credential_id.is_none());
    let credential = Credential::default();
    assert!(credential.id.is_empty() && credential.domain.is_empty());
    let config = Config::default();
    assert!(config.servers.is_empty() && config.credentials.is_empty());
    assert!(!config.clipboard_passthrough);
}

#[test]
fn unreadable_config_is_the_empty_one() {
    assert!(Config::load(None).servers.is_empty());
    let read = Config {
        clipboard_passthrough: true,
        credentials: vec![],
        servers: vec![server(None, "u", "p")],
    };
    let config = Config::load(Some(read));
    assert!(config.clipboard_passthrough);
    assert_eq!(config.servers[0].username, "u");
}

#[test]
fn servers_without_a_name_show_their_host() {
    let mut s = server(None, "", "");
    assert_eq!(s.display_name(), "s");
    s.name = String::new();
    assert_eq!(s.display_name(), "h");
}

#[test]
fn cmd_prefix_marks_a_command() {
    match PasswordSource::of_field("cmd:pass show rdp/myserver") {
        PasswordSource::Command(command) => assert_eq!(command, "pass show rdp/myserver"),
        PasswordSource::Literal(_) => panic!("a command"),
    }
    match PasswordSource::of_field("cm:d") {
        PasswordSource::Literal(password) => assert_eq!(password, "cm:d"),
        PasswordSource::Command(_) => panic!("a password"),
    }
    assert!(matches!(PasswordSource::of_field("cmd:"), PasswordSource::Command(c) if c.is_empty()));
    assert!(matches!(PasswordSource::of_field(""), PasswordSource::Literal(p) if p.is_empty()));
}

#[test]
fn command_output_is_trimmed() {
    let ok = CommandOutcome::Succeeded(" s3cret word\r\n\u{a0}".into());
    assert_eq!(password_from_command(&ok), Ok("s3cret word".into()));
    let failed = CommandOutcome::Failed("exit status: 1".into());
    assert_eq!(password_from_command(&failed), Err("password command failed: exit status: 1".into()));
}
