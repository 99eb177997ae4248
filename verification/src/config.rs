//! Servers, shared credentials and where they are kept.
use std::path::PathBuf;

use vstd::prelude::*;

use crate::text::{strip_prefix, trim, trimmed};

verus! {

/// The port that RDP servers listen on unless the configuration says otherwise.
pub fn default_port() -> (port: u16)
    ensures
        port == 3389,
{
    3389
}

/// A named set of RDP credentials that can be shared across servers.
#[derive(Debug)]
pub struct Credential {
    /// Unique identifier (a short human-readable slug, e.g. "corp-admin").
    pub id: String,
    /// Display label shown in the UI.
    pub label: String,
    pub username: String,
    pub password: String,
    pub domain: String,
}

/// A remote desktop to connect to.
#[derive(Debug)]
pub struct Server {
    pub name: String,
    pub host: String,
    pub port: u16,
    /// If set, credentials are taken from the matching entry in
    /// `Config::credentials` instead of the inline fields below.
    pub credential_id: Option<String>,
    pub username: String,
    pub password: String,
    pub domain: String,
}

/// The configuration file.
#[derive(Debug)]
pub struct Config {
    /// Whether sessions share the clipboard with the remote desktop.
    pub clipboard_passthrough: bool,
    pub credentials: Vec<Credential>,
    pub servers: Vec<Server>,
}

/// User name, password and domain, as they stand in the configuration.
pub struct LoginView {
    pub username: Seq<char>,
    pub password: Seq<char>,
    pub domain: Seq<char>,
}

impl Credential {
    /// The login that the credential holds.
    pub open spec fn login(self) -> LoginView {
        LoginView {
            username: self.username@,
            password: self.password@,
            domain: self.domain@,
        }
    }
}

impl Server {
    /// The login that stands in the server entry itself.
    pub open spec fn inline_login(self) -> LoginView {
        LoginView {
            username: self.username@,
            password: self.password@,
            domain: self.domain@,
        }
    }

    /// Whether nothing is filled in yet: empty texts, the default port and no credential.
    pub open spec fn is_blank(self) -> bool {
        &&& self.name@.len() == 0
        &&& self.host@.len() == 0
        &&& self.port == 3389
        &&& self.credential_id is None
        &&& self.username@.len() == 0
        &&& self.password@.len() == 0
        &&& self.domain@.len() == 0
    }

    /// The text for the server in the list: its name, or its host where it has no name.
    pub open spec fn display_text(self) -> Seq<char> {
        if self.name@.len() == 0 {
            self.host@
        } else {
            self.name@
        }
    }
}

impl Default for Credential {
    fn default() -> (credential: Self)
        ensures
            credential.id@.len() == 0,
            credential.label@.len() == 0,
            credential.username@.len() == 0,
            credential.password@.len() == 0,
            credential.domain@.len() == 0,
    {
        Credential {
            id: String::new(),
            label: String::new(),
            username: String::new(),
            password: String::new(),
            domain: String::new(),
        }
    }
}

impl Default for Server {
    fn default() -> (server: Self)
        ensures
            server.is_blank(),
    {
        Server {
            name: String::new(),
            host: String::new(),
            port: default_port(),
            credential_id: None,
            username: String::new(),
            password: String::new(),
            domain: String::new(),
        }
    }
}

impl Default for Config {
    fn default() -> (config: Self)
        ensures
            config.is_empty(),
    {
        Config { clipboard_passthrough: false, credentials: Vec::new(), servers: Vec::new() }
    }
}

impl Clone for Server {
    fn clone(&self) -> (server: Self)
        ensures
            server == *self,
    {
        Server {
            name: self.name.clone(),
            host: self.host.clone(),
            port: self.port,
            credential_id: match &self.credential_id {
                Some(id) => Some(id.clone()),
                None => None,
            },
            username: self.username.clone(),
            password: self.password.clone(),
            domain: self.domain.clone(),
        }
    }
}

impl Clone for Credential {
    fn clone(&self) -> (credential: Self)
        ensures
            credential == *self,
    {
        Credential {
            id: self.id.clone(),
            label: self.label.clone(),
            username: self.username.clone(),
            password: self.password.clone(),
            domain: self.domain.clone(),
        }
    }
}

impl Clone for Config {
    fn clone(&self) -> (config: Self)
        ensures
            config.clipboard_passthrough == self.clipboard_passthrough,
            config.credentials@ == self.credentials@,
            config.servers@ == self.servers@,
    {
        let config = Config {
            clipboard_passthrough: self.clipboard_passthrough,
            credentials: self.credentials.clone(),
            servers: self.servers.clone(),
        };
        assert(config.credentials@ =~= self.credentials@);
        assert(config.servers@ =~= self.servers@);
        config
    }
}

impl Server {
    /// The text for the server in the list.
    pub fn display_name(&self) -> (text: String)
        ensures
            text@ == self.display_text(),
    {
        if self.name.as_str().is_empty() {
            self.host.clone()
        } else {
            self.name.clone()
        }
    }
}

/// The first credential with the given identifier.
pub open spec fn find_credential(credentials: Seq<Credential>, id: Seq<char>) -> Option<Credential>
    decreases credentials.len(),
{
    if credentials.len() == 0 {
        None
    } else if credentials[0].id@ == id {
        Some(credentials[0])
    } else {
        find_credential(credentials.skip(1), id)
    }
}

impl Config {
    /// No credentials, no servers and no clipboard.
    pub open spec fn is_empty(self) -> bool {
        &&& !self.clipboard_passthrough
        &&& self.credentials@.len() == 0
        &&& self.servers@.len() == 0
    }

    /// The credential that a server is linked to.
    pub open spec fn linked_credential(self, server: Server) -> Option<Credential> {
        match server.credential_id {
            Some(id) => find_credential(self.credentials@, id@),
            None => None,
        }
    }

    /// The login to use for a server: that of the linked credential, else the inline one.
    pub open spec fn effective_login(self, server: Server) -> LoginView {
        match self.linked_credential(server) {
            Some(credential) => credential.login(),
            None => server.inline_login(),
        }
    }

    /// Whether credential `i` is the one that a server is linked to: the first with the identifier
    /// that the server names.
    pub open spec fn is_linked_to(self, server: Server, i: int) -> bool {
        &&& 0 <= i < self.credentials@.len()
        &&& server.credential_id matches Some(id)
        &&& self.credentials@[i].id@ == id@
        &&& forall|j: int| 0 <= j < i ==> #[trigger] self.credentials@[j].id@ != id@
    }

    /// Whether a login is the right one for a server: field by field that of the credential that
    /// the server is linked to, and its own where there is none.
    pub open spec fn login_is_resolved(
        self,
        server: Server,
        username: Seq<char>,
        password: Seq<char>,
        domain: Seq<char>,
    ) -> bool {
        &&& forall|i: int| #[trigger]
            self.is_linked_to(server, i) ==> {
                &&& username == self.credentials@[i].username@
                &&& password == self.credentials@[i].password@
                &&& domain == self.credentials@[i].domain@
            }
        &&& (forall|i: int| !(#[trigger] self.is_linked_to(server, i))) ==> {
            &&& username == server.username@
            &&& password == server.password@
            &&& domain == server.domain@
        }
    }

    /// Resolves the effective (username, password, domain) for a server,
    /// preferring a linked credential over the server's inline fields.
    pub fn resolve_credentials<'a>(&'a self, server: &'a Server) -> (login: (
        &'a str,
        &'a str,
        &'a str,
    ))
        ensures
            login.0@ == self.effective_login(*server).username,
            login.1@ == self.effective_login(*server).password,
            login.2@ == self.effective_login(*server).domain,
            self.login_is_resolved(*server, login.0@, login.1@, login.2@),
    {
        proof {
            lemma_resolved_login(*self, *server);
        }
        if let Some(id) = &server.credential_id {
            let mut i: usize = 0;
            assert(self.credentials@.skip(0) == self.credentials@);
            while i < self.credentials.len()
                invariant
                    i <= self.credentials.len(),
                    server.credential_id == Some(*id),
                    self.login_is_resolved(
                        *server,
                        self.effective_login(*server).username,
                        self.effective_login(*server).password,
                        self.effective_login(*server).domain,
                    ),
                    find_credential(self.credentials@, id@) == find_credential(
                        self.credentials@.skip(i as int),
                        id@,
                    ),
                decreases self.credentials.len() - i,
            {
                let cred = &self.credentials[i];
                if cred.id.eq(id) {
                    return (cred.username.as_str(), cred.password.as_str(), cred.domain.as_str());
                }
                assert(self.credentials@.skip(i as int).skip(1) == self.credentials@.skip(i + 1));
                i = i + 1;
            }
        }
        (server.username.as_str(), server.password.as_str(), server.domain.as_str())
    }

    /// The configuration to start with, given what was read and understood of the file: the
    /// empty one where there is no home directory, no readable file or no valid content.
    pub fn load(parsed: Option<Config>) -> (config: Config)
        ensures
            match parsed {
                Some(read) => config == read,
                None => config.is_empty(),
            },
    {
        match parsed {
            Some(read) => read,
            None => Config::default(),
        }
    }
}

/// Why there is no place for the configuration file.
#[derive(Debug, Clone, Copy, PartialEq, Eq, Structural)]
pub enum ConfigError {
    /// The home directory of the user is not known.
    NoHomeDirectory,
}

impl ConfigError {
    /// The text of the error.
    pub fn message(&self) -> (text: String)
        ensures
            text@ == "could not determine home directory"@,
    {
        "could not determine home directory".to_owned()
    }
}

/// A path of the file system.
#[verifier::external_type_specification]
#[verifier::external_body]
pub struct ExPathBuf(std::path::PathBuf);

/// The components of a path, from its start.
pub uninterp spec fn path_segments(path: PathBuf) -> Seq<Seq<char>>;

/// Whether `text` names one entry of a directory: it is not empty, means neither the directory
/// nor its parent, and holds no separator and no drive colon.
pub open spec fn is_plain_segment(text: Seq<char>) -> bool {
    &&& text.len() > 0
    &&& text != seq!['.']
    &&& text != seq!['.', '.']
    &&& forall|i: int|
        0 <= i < text.len() ==> #[trigger] text[i] != '/' && text[i] != '\\' && text[i] != ':'
}

/// `dirs::home_dir`. What it returns rests on the environment, so nothing is said of it.
#[verifier::external_body]
fn home_dir() -> Option<PathBuf> {
    dirs::home_dir()
}

/// `std::path::Path::join` of a plain segment: the path gets that one component more.
#[verifier::external_body]
fn join_segment(base: &PathBuf, segment: &str) -> (path: PathBuf)
    requires
        is_plain_segment(segment@),
    ensures
        path_segments(path) == path_segments(*base).push(segment@),
{
    base.join(segment)
}

/// The components of the configuration file's path below the home directory.
pub open spec fn config_segments() -> Seq<Seq<char>> {
    seq![".config"@, "rustrdp"@, "servers.json"@]
}

/// A text of three or more characters without separators names one entry of a directory.
proof fn lemma_long_segment(text: Seq<char>)
    requires
        text.len() > 2,
        forall|i: int|
            0 <= i < text.len() ==> #[trigger] text[i] != '/' && text[i] != '\\' && text[i] != ':',
    ensures
        is_plain_segment(text),
{
    assert(seq!['.'].len() == 1);
    assert(seq!['.', '.'].len() == 2);
}

proof fn lemma_config_segments_are_plain()
    ensures
        is_plain_segment(".config"@),
        is_plain_segment("rustrdp"@),
        is_plain_segment("servers.json"@),
{
    assert(is_plain_segment(".config"@)) by {
        reveal_strlit(".config");
        let text = ".config"@;
        lemma_long_segment(text);
    }
    assert(is_plain_segment("rustrdp"@)) by {
        reveal_strlit("rustrdp");
        let text = "rustrdp"@;
        lemma_long_segment(text);
    }
    assert(is_plain_segment("servers.json"@)) by {
        reveal_strlit("servers.json");
        let text = "servers.json"@;
        lemma_long_segment(text);
    }
}

/// The path of the configuration file of a user with the given home directory.
pub fn config_path_in(home: Option<PathBuf>) -> (path: Result<PathBuf, ConfigError>)
    ensures
        match (home, path) {
            (Some(home), Ok(path)) => path_segments(path) == path_segments(home)
                + config_segments(),
            (Some(_), Err(_)) => false,
            (None, path) => path == Err::<PathBuf, ConfigError>(ConfigError::NoHomeDirectory),
        },
{
    match home {
        Some(home) => {
            proof {
                lemma_config_segments_are_plain();
            }
            let config = join_segment(&home, ".config");
            let dir = join_segment(&config, "rustrdp");
            let path = join_segment(&dir, "servers.json");
            assert(path_segments(path) == path_segments(home) + config_segments());
            Ok(path)
        },
        None => Err(ConfigError::NoHomeDirectory),
    }
}

/// The path of the configuration file: `~/.config/rustrdp/servers.json` on every platform.
pub fn config_path() -> (path: Result<PathBuf, ConfigError>)
    ensures
        match path {
            Ok(path) => config_segments().is_suffix_of(path_segments(path)),
            Err(error) => error == ConfigError::NoHomeDirectory,
        },
{
    let home = home_dir();
    config_path_in(home)
}

/// Where the password of a login comes from.
#[derive(Debug)]
pub enum PasswordSource {
    /// The password itself.
    Literal(String),
    /// A shell command that prints the password.
    Command(String),
}

/// The prefix of a password field that holds a command.
pub open spec fn command_prefix() -> Seq<char> {
    "cmd:"@
}

impl PasswordSource {
    /// Whether this is what the password field `field` means.
    pub open spec fn is_meant_by(self, field: Seq<char>) -> bool {
        match self {
            PasswordSource::Literal(password) => {
                &&& !command_prefix().is_prefix_of(field)
                &&& password@ == field
            },
            PasswordSource::Command(command) => field == command_prefix() + command@,
        }
    }

    /// What a password field means: behind `cmd:` stands a shell command, anything else is the
    /// password.
    pub fn of_field(field: &str) -> (source: PasswordSource)
        ensures
            source.is_meant_by(field@),
    {
        match strip_prefix(field, "cmd:") {
            Some(command) => PasswordSource::Command(command.to_owned()),
            None => PasswordSource::Literal(field.to_owned()),
        }
    }
}

/// How a password command ended.
#[derive(Debug)]
pub enum CommandOutcome {
    /// It exited with status zero and printed this.
    Succeeded(String),
    /// It could not be run, or exited with another status, for this reason.
    Failed(String),
}

/// The text of the error after a password command failed for the given reason.
pub open spec fn command_failure_text(reason: Seq<char>) -> Seq<char> {
    "password command failed: "@ + reason
}

/// The password that a command gives: what it printed, trimmed. A command that failed gives
/// the text of the error instead.
pub fn password_from_command(outcome: &CommandOutcome) -> (password: Result<String, String>)
    ensures
        match (*outcome, password) {
            (CommandOutcome::Succeeded(output), Ok(password)) => password@ == trimmed(output@),
            (CommandOutcome::Failed(reason), Err(text)) => text@ == command_failure_text(reason@),
            _ => false,
        },
{
    match outcome {
        CommandOutcome::Succeeded(output) => Ok(trim(output.as_str())),
        CommandOutcome::Failed(reason) => {
            let mut text = "password command failed: ".to_owned();
            text.append(reason.as_str());
            Err(text)
        },
    }
}

/// A credential is found by its identifier where no earlier one has the same.
proof fn lemma_find_credential(credentials: Seq<Credential>, i: int)
    requires
        0 <= i < credentials.len(),
        forall|j: int| 0 <= j < i ==> #[trigger] credentials[j].id@ != credentials[i].id@,
    ensures
        find_credential(credentials, credentials[i].id@) == Some(credentials[i]),
    decreases i,
{
    if i > 0 {
        assert(credentials[0].id@ != credentials[i].id@);
        let rest = credentials.skip(1);
        assert(rest[i - 1] == credentials[i]);
        assert forall|j: int| 0 <= j < i - 1 implies #[trigger] rest[j].id@ != rest[i - 1].id@ by {
            assert(credentials[j + 1].id@ != credentials[i].id@);
        }
        lemma_find_credential(rest, i - 1);
    }
}

/// A linked credential takes priority over the inline fields, whatever those are: the login is
/// that of the first credential with the server's `credential_id`.
pub proof fn law_linked_credential_takes_priority(config: Config, server: Server, i: int)
    requires
        0 <= i < config.credentials@.len(),
        server.credential_id is Some,
        config.credentials@[i].id@ == server.credential_id->0@,
        forall|j: int|
            0 <= j < i ==> #[trigger] config.credentials@[j].id@ != server.credential_id->0@,
    ensures
        config.effective_login(server) == config.credentials@[i].login(),
{
    lemma_find_credential(config.credentials@, i);
}

/// No credential is found under an identifier that none has.
proof fn lemma_no_credential(credentials: Seq<Credential>, id: Seq<char>)
    requires
        forall|j: int| 0 <= j < credentials.len() ==> #[trigger] credentials[j].id@ != id,
    ensures
        find_credential(credentials, id) is None,
    decreases credentials.len(),
{
    if credentials.len() > 0 {
        assert(credentials[0].id@ != id);
        let rest = credentials.skip(1);
        assert forall|j: int| 0 <= j < rest.len() implies #[trigger] rest[j].id@ != id by {
            assert(credentials[j + 1].id@ != id);
        }
        lemma_no_credential(rest, id);
    }
}

/// The inline fields are used where no credential is linked, or none has the identifier.
pub proof fn law_inline_login_is_the_fallback(config: Config, server: Server)
    requires
        server.credential_id is Some ==> forall|j: int|
            0 <= j < config.credentials@.len() ==> #[trigger] config.credentials@[j].id@
                != server.credential_id->0@,
    ensures
        config.effective_login(server) == server.inline_login(),
{
    if server.credential_id is Some {
        lemma_no_credential(config.credentials@, server.credential_id->0@);
    }
}

/// The login of a server that is linked to a credential is that of the credential, character for
/// character: the first one with the identifier counts.
pub proof fn law_linked_login_is_taken_field_by_field(config: Config, server: Server, i: int)
    requires
        0 <= i < config.credentials@.len(),
        server.credential_id is Some,
        config.credentials@[i].id@ == server.credential_id->0@,
        forall|j: int|
            0 <= j < i ==> #[trigger] config.credentials@[j].id@ != server.credential_id->0@,
    ensures
        config.effective_login(server).username == config.credentials@[i].username@,
        config.effective_login(server).password == config.credentials@[i].password@,
        config.effective_login(server).domain == config.credentials@[i].domain@,
{
    law_linked_credential_takes_priority(config, server, i);
}

/// The login of a server that is linked to no credential that there is, is that of its own fields,
/// character for character.
pub proof fn law_inline_login_is_taken_field_by_field(config: Config, server: Server)
    requires
        server.credential_id is Some ==> forall|j: int|
            0 <= j < config.credentials@.len() ==> #[trigger] config.credentials@[j].id@
                != server.credential_id->0@,
    ensures
        config.effective_login(server).username == server.username@,
        config.effective_login(server).password == server.password@,
        config.effective_login(server).domain == server.domain@,
{
    law_inline_login_is_the_fallback(config, server);
}

/// A password field means exactly one thing.
pub proof fn law_password_field_is_unambiguous(
    field: Seq<char>,
    first: PasswordSource,
    second: PasswordSource,
)
    requires
        first.is_meant_by(field),
        second.is_meant_by(field),
    ensures
        match (first, second) {
            (PasswordSource::Literal(a), PasswordSource::Literal(b)) => a@ == b@,
            (PasswordSource::Command(a), PasswordSource::Command(b)) => a@ == b@,
            _ => false,
        },
{
    match (first, second) {
        (PasswordSource::Command(a), PasswordSource::Command(b)) => {
            let n = command_prefix().len() as int;
            assert(a@ == field.skip(n));
            assert(b@ == field.skip(n));
        },
        (PasswordSource::Command(a), PasswordSource::Literal(b)) => {
            assert(command_prefix().is_prefix_of(field));
        },
        (PasswordSource::Literal(a), PasswordSource::Command(b)) => {
            assert(command_prefix().is_prefix_of(field));
        },
        _ => {},
    }
}

/// The list shows a server by its name, and one without a name by its host.
pub proof fn law_servers_are_shown_by_name_or_host(server: Server)
    ensures
        server.name@.len() > 0 ==> server.display_text() == server.name@,
        server.name@.len() == 0 ==> server.display_text() == server.host@,
{
}

/// A password field is a command exactly where it starts with `cmd:`, and then the command is all
/// that follows; any other field is the password, as it stands.
pub proof fn law_command_follows_the_prefix(field: Seq<char>, source: PasswordSource)
    requires
        source.is_meant_by(field),
    ensures
        source is Command <==> "cmd:"@.is_prefix_of(field),
        source matches PasswordSource::Command(command) ==> field == "cmd:"@ + command@,
        source matches PasswordSource::Literal(password) ==> password@ == field,
        forall|reason: Seq<char>| #[trigger]
            command_failure_text(reason) == "password command failed: "@ + reason,
{
    if let PasswordSource::Command(command) = source {
        assert(field.subrange(0, "cmd:"@.len() as int) =~= "cmd:"@);
    }
}

/// The configuration file lies in the directory `rustrdp` of the directory `.config`.
pub proof fn law_config_file_lies_below_dot_config()
    ensures
        config_segments().len() == 3,
        config_segments()[0] == ".config"@,
        config_segments()[1] == "rustrdp"@,
        config_segments()[2] == "servers.json"@,
{
}

proof fn lemma_resolved_login(config: Config, server: Server)
    ensures
        config.login_is_resolved(
            server,
            config.effective_login(server).username,
            config.effective_login(server).password,
            config.effective_login(server).domain,
        ),
{
    assert forall|i: int| #[trigger] config.is_linked_to(server, i) implies config.effective_login(
        server,
    ).username == config.credentials@[i].username@ && config.effective_login(server).password
        == config.credentials@[i].password@ && config.effective_login(server).domain
        == config.credentials@[i].domain@ by {
        law_linked_login_is_taken_field_by_field(config, server, i);
    }
    if forall|i: int| !(#[trigger] config.is_linked_to(server, i)) {
        if server.credential_id is Some {
            lemma_unlinked(config, server, config.credentials@.len() as int);
        }
        law_inline_login_is_taken_field_by_field(config, server);
    }
}

proof fn lemma_unlinked(config: Config, server: Server, n: int)
    requires
        server.credential_id is Some,
        0 <= n <= config.credentials@.len(),
        forall|i: int| !(#[trigger] config.is_linked_to(server, i)),
    ensures
        forall|j: int|
            0 <= j < n ==> #[trigger] config.credentials@[j].id@ != server.credential_id->0@,
    decreases n,
{
    if n > 0 {
        lemma_unlinked(config, server, n - 1);
        assert(!config.is_linked_to(server, n - 1));
    }
}

} // verus!
