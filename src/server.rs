//! Server lookup, the menu's rows, and the plan and outcome of a connection.

use crate::config::{
    resolve_value, port_from, same_text, text_or_empty, Config, EnvVars, ServerConfig,
};
use crate::text::{address_of, decimal, decimal_string, display_address, display_width_of, padded, pad_display};
use vstd::prelude::*;

verus! {

/// Index `i` holds the first server whose key is `key`.
pub open spec fn is_first_match(servers: Seq<ServerConfig>, key: Seq<char>, i: int) -> bool {
    &&& 0 <= i < servers.len()
    &&& servers[i].key@ == key
    &&& forall|j: int| 0 <= j < i ==> (#[trigger] servers[j]).key@ != key
}

/// Some server has key `key`.
pub open spec fn has_key(servers: Seq<ServerConfig>, key: Seq<char>) -> bool {
    exists|i: int| 0 <= i < servers.len() && (#[trigger] servers[i]).key@ == key
}

/// `user@host`.
pub open spec fn login_of(user: Seq<char>, host: Seq<char>) -> Seq<char> {
    user + seq!['@'] + host
}

/// The address a server is shown with, once resolved.
pub open spec fn server_address(s: ServerConfig, env: Seq<(String, String)>) -> Seq<char> {
    address_of(resolve_value(s.ip@, env), port_from(resolve_value(s.port@, env)))
}

/// The comment column: the comment in parentheses, or nothing.
pub open spec fn comment_column(c: Seq<char>) -> Seq<char> {
    if c.len() == 0 {
        Seq::empty()
    } else {
        seq!['('] + c + seq![')']
    }
}

/// The character views of a list of strings.
pub open spec fn texts(v: Seq<String>) -> Seq<Seq<char>> {
    v.map_values(|s: String| s@)
}

/// One line of the menu, each column padded to its width.
#[derive(Debug)]
pub struct MenuRow {
    pub key: String,
    pub name: String,
    pub address: String,
    pub comment: String,
}

/// `row` is the menu line of server `s`.
pub open spec fn is_menu_row(row: MenuRow, s: ServerConfig, env: Seq<(String, String)>) -> bool {
    let addr = server_address(s, env);
    &&& row.key@ == padded(s.key@, display_width_of(s.key@), 6)
    &&& row.name@ == padded(s.name@, display_width_of(s.name@), 46)
    &&& row.address@ == padded(addr, display_width_of(addr), 21)
    &&& row.comment@ == comment_column(s.comment@)
}

/// A password login over SSH.
#[derive(Debug)]
pub struct PasswordLogin {
    pub host: String,
    pub user: String,
    pub password: String,
    pub port: u16,
}

/// A login through the cloud provider's SSH proxy.
#[derive(Debug)]
pub struct GcpLogin {
    pub project: String,
    pub zone: String,
    pub target: String,
}

/// How a server is reached.
#[derive(Debug)]
pub enum Method {
    Password(PasswordLogin),
    Gcp(GcpLogin),
}

/// A resolved server, ready to be connected to.
#[derive(Debug)]
pub struct Connection {
    pub name: String,
    pub address: String,
    pub method: Method,
}

/// Why a connection did not succeed.
#[derive(Debug)]
pub enum ConnectError {
    ServerNotFound(String),
    UnknownConnectionType(String),
    ConnectionFailed(String),
}

/// What became of launching an outside program.
#[derive(Debug)]
pub enum Launch {
    /// It ran and exited, successfully or not.
    Exited(bool),
    /// The program is not installed; the text describes the failure.
    NotInstalled(String),
    /// It could not be started for another reason, given as text.
    Failed(String),
}

/// The next step after the prompt-automation tool was launched.
#[derive(Debug)]
pub enum AfterAutomation {
    Finished(Result<(), ConnectError>),
    FallBackToSsh,
}

/// `c` is the connection that server `s` resolves to under `env`, given
/// that its connection type is known.
pub open spec fn is_connection_of(c: Connection, s: ServerConfig, env: Seq<(String, String)>) -> bool {
    &&& c.name@ == resolve_value(s.name@, env)
    &&& c.address@ == server_address(s, env)
    &&& if s.conn_type@ == "password"@ {
        match c.method {
            Method::Password(p) => {
                &&& p.host@ == resolve_value(s.ip@, env)
                &&& p.user@ == resolve_value(s.user@, env)
                &&& p.password@ == resolve_value(text_or_empty(s.pswd), env)
                &&& p.port == port_from(resolve_value(s.port@, env))
            },
            _ => false,
        }
    } else {
        match c.method {
            Method::Gcp(g) => {
                &&& s.conn_type@ == "gcp"@
                &&& g.project@ == resolve_value(text_or_empty(s.gcp_project), env)
                &&& g.zone@ == resolve_value(text_or_empty(s.gcp_zone), env)
                &&& g.target@ == login_of(
                    resolve_value(s.user@, env),
                    resolve_value(text_or_empty(s.gcp_vm_name), env),
                )
            },
            _ => false,
        }
    }
}

/// `user@host` as a string.
fn login(user: &str, host: &str) -> (r: String)
    ensures
        r@ == login_of(user@, host@),
{
    let mut r = String::from_str(user);
    proof {
        reveal_strlit("@");
    }
    r.append("@");
    r.append(host);
    r
}

/// Holds the loaded configuration and answers questions about it.
pub struct ServerManager {
    config: Config,
}

impl ServerManager {
    /// The configuration this manager works on.
    pub closed spec fn servers(&self) -> Seq<ServerConfig> {
        self.config.servers@
    }

    /// A manager over `config`.
    pub fn new(config: Config) -> (r: ServerManager)
        ensures
            r.servers() == config.servers@,
    {
        ServerManager { config }
    }

    /// The configuration this manager was made with.
    pub fn config(&self) -> (r: &Config)
        ensures
            r.servers@ == self.servers(),
    {
        &self.config
    }

    /// Pads `s` with spaces to `width` display columns; wide characters
    /// count for their width, and a string that is wide enough is kept.
    pub fn pad_str(&self, s: &str, width: usize) -> (r: String)
        ensures
            r@ == padded(s@, display_width_of(s@), width as nat),
    {
        pad_display(s, width)
    }

    /// The first server whose key is exactly `key`.
    pub fn find_server(&self, key: &str) -> (r: Option<&ServerConfig>)
        ensures
            r is None <==> !has_key(self.servers(), key@),
            match r {
                Some(s) => exists|i: int|
                    #[trigger] is_first_match(self.servers(), key@, i) && self.servers()[i] == *s,
                None => true,
            },
    {
        let servers = &self.config.servers;
        let mut i: usize = 0;
        while i < servers.len()
            invariant
                i <= servers@.len(),
                servers@ == self.servers(),
                forall|j: int| 0 <= j < i ==> (#[trigger] servers@[j]).key@ != key@,
            decreases servers@.len() - i,
        {
            if same_text(servers[i].key.as_str(), key) {
                assert(is_first_match(self.servers(), key@, i as int));
                return Some(&servers[i]);
            }
            i = i + 1;
        }
        None
    }

    /// The menu line of one server.
    pub fn menu_row(&self, s: &ServerConfig, env: &EnvVars) -> (r: MenuRow)
        ensures
            is_menu_row(r, *s, env.vars@),
    {
        let key = self.pad_str(s.key.as_str(), 6);
        let name = self.pad_str(s.name.as_str(), 46);
        let addr = s.address(env);
        let address = self.pad_str(addr.as_str(), 21);
        let comment = if s.comment.unicode_len() == 0 {
            String::new()
        } else {
            proof {
                reveal_strlit("(");
                reveal_strlit(")");
            }
            let mut c = String::from_str("(");
            c.append(s.comment.as_str());
            c.append(")");
            assert(c@ =~= comment_column(s.comment@));
            c
        };
        MenuRow { key, name, address, comment }
    }

    /// The menu: one line per server, in configuration order.
    pub fn menu_rows(&self, env: &EnvVars) -> (r: Vec<MenuRow>)
        ensures
            r@.len() == self.servers().len(),
            forall|i: int|
                0 <= i < r@.len() ==> is_menu_row(#[trigger] r@[i], self.servers()[i], env.vars@),
    {
        let servers = &self.config.servers;
        let mut rows: Vec<MenuRow> = Vec::new();
        let mut i: usize = 0;
        while i < servers.len()
            invariant
                i <= servers@.len(),
                servers@ == self.servers(),
                rows@.len() == i,
                forall|j: int|
                    0 <= j < i ==> is_menu_row(#[trigger] rows@[j], servers@[j], env.vars@),
            decreases servers@.len() - i,
        {
            let row = self.menu_row(&servers[i], env);
            rows.push(row);
            i = i + 1;
        }
        rows
    }

    /// Finds the server for `route` and resolves how to reach it.
    pub fn plan_connection(&self, route: &str, env: &EnvVars) -> (r: Result<Connection, ConnectError>)
        ensures
            !has_key(self.servers(), route@) <==> r matches Err(ConnectError::ServerNotFound(k)),
            r matches Err(ConnectError::ServerNotFound(k)) ==> k@ == route@,
            has_key(self.servers(), route@) ==> exists|i: int|
                #[trigger] is_first_match(self.servers(), route@, i) && match r {
                    Ok(c) => is_connection_of(c, self.servers()[i], env.vars@),
                    Err(ConnectError::UnknownConnectionType(t)) => {
                        &&& t@ == self.servers()[i].conn_type@
                        &&& t@ != "password"@
                        &&& t@ != "gcp"@
                    },
                    Err(_) => false,
                },
    {
        match self.find_server(route) {
            Some(s) => s.connection(env),
            None => Err(ConnectError::ServerNotFound(String::from_str(route))),
        }
    }
}

impl ServerConfig {
    /// The resolved address: the host alone for port 22, else `host:port`.
    pub fn address(&self, env: &EnvVars) -> (r: String)
        ensures
            r@ == server_address(*self, env.vars@),
    {
        let ip = self.resolve(self.ip.as_str(), env);
        let port = self.resolved_port(env);
        display_address(ip.as_str(), port)
    }

    /// Resolves what it takes to reach this server; fails for a connection
    /// type other than `password` and `gcp`.
    pub fn connection(&self, env: &EnvVars) -> (r: Result<Connection, ConnectError>)
        ensures
            (self.conn_type@ == "password"@ || self.conn_type@ == "gcp"@) <==> r is Ok,
            match r {
                Ok(c) => is_connection_of(c, *self, env.vars@),
                Err(ConnectError::UnknownConnectionType(t)) => t@ == self.conn_type@,
                Err(_) => false,
            },
    {
        let name = self.resolve(self.name.as_str(), env);
        let address = self.address(env);
        let user = self.resolve(self.user.as_str(), env);
        if same_text(self.conn_type.as_str(), "password") {
            let host = self.resolve(self.ip.as_str(), env);
            let password = self.resolve_optional(&self.pswd, env);
            let port = self.resolved_port(env);
            let p = PasswordLogin { host, user, password, port };
            Ok(Connection { name, address, method: Method::Password(p) })
        } else if same_text(self.conn_type.as_str(), "gcp") {
            let project = self.resolve_optional(&self.gcp_project, env);
            let zone = self.resolve_optional(&self.gcp_zone, env);
            let vm = self.resolve_optional(&self.gcp_vm_name, env);
            let target = login(user.as_str(), vm.as_str());
            let g = GcpLogin { project, zone, target };
            Ok(Connection { name, address, method: Method::Gcp(g) })
        } else {
            Err(ConnectError::UnknownConnectionType(self.conn_type.clone()))
        }
    }
}

/// The character views of a list of name and value pairs.
pub open spec fn pair_texts(v: Seq<(String, String)>) -> Seq<(Seq<char>, Seq<char>)> {
    v.map_values(|p: (String, String)| (p.0@, p.1@))
}

/// The outcome for an outside program that ran: success exactly when it
/// exited successfully; `failure` names a failed exit.
pub open spec fn exit_result(success: bool, failure: Seq<char>, r: Result<(), ConnectError>) -> bool {
    if success {
        r is Ok
    } else {
        r matches Err(ConnectError::ConnectionFailed(m)) && m@ == failure
    }
}

/// The outcome for a program that could not be started: it fails with the
/// launch error's own text.
pub open spec fn launch_error(message: Seq<char>, r: Result<(), ConnectError>) -> bool {
    r matches Err(ConnectError::ConnectionFailed(m)) && m@ == message
}

impl PasswordLogin {
    /// The environment handed to the prompt-automation tool; the password
    /// travels here and never on a command line.
    pub fn automation_env(&self) -> (r: Vec<(String, String)>)
        ensures
            pair_texts(r@) == seq![
                ("SSH_HOST"@, self.host@),
                ("SSH_USER"@, self.user@),
                ("SSH_PSWD"@, self.password@),
                ("SSH_PORT"@, decimal(self.port as nat)),
            ],
    {
        let mut r: Vec<(String, String)> = Vec::new();
        r.push((String::from_str("SSH_HOST"), String::from_str(self.host.as_str())));
        r.push((String::from_str("SSH_USER"), String::from_str(self.user.as_str())));
        r.push((String::from_str("SSH_PSWD"), String::from_str(self.password.as_str())));
        r.push((String::from_str("SSH_PORT"), decimal_string(self.port)));
        assert(pair_texts(r@) =~= seq![
            ("SSH_HOST"@, self.host@),
            ("SSH_USER"@, self.user@),
            ("SSH_PSWD"@, self.password@),
            ("SSH_PORT"@, decimal(self.port as nat)),
        ]);
        r
    }

    /// The arguments of a plain interactive SSH session, used when the
    /// prompt-automation tool is not installed.
    pub fn ssh_args(&self) -> (r: Vec<String>)
        ensures
            texts(r@) == seq![
                "-p"@,
                decimal(self.port as nat),
                "-o"@,
                "StrictHostKeyChecking=no"@,
                login_of(self.user@, self.host@),
            ],
    {
        let mut r: Vec<String> = Vec::new();
        r.push(String::from_str("-p"));
        r.push(decimal_string(self.port));
        r.push(String::from_str("-o"));
        r.push(String::from_str("StrictHostKeyChecking=no"));
        r.push(login(self.user.as_str(), self.host.as_str()));
        assert(texts(r@) =~= seq![
            "-p"@,
            decimal(self.port as nat),
            "-o"@,
            "StrictHostKeyChecking=no"@,
            login_of(self.user@, self.host@),
        ]);
        r
    }
}

impl GcpLogin {
    /// The arguments of the cloud provider's SSH proxy command.
    pub fn gcloud_args(&self) -> (r: Vec<String>)
        ensures
            texts(r@) == seq![
                "compute"@,
                "ssh"@,
                "--project"@,
                self.project@,
                "--zone"@,
                self.zone@,
                self.target@,
            ],
    {
        let mut r: Vec<String> = Vec::new();
        r.push(String::from_str("compute"));
        r.push(String::from_str("ssh"));
        r.push(String::from_str("--project"));
        r.push(String::from_str(self.project.as_str()));
        r.push(String::from_str("--zone"));
        r.push(String::from_str(self.zone.as_str()));
        r.push(String::from_str(self.target.as_str()));
        assert(texts(r@) =~= seq![
            "compute"@,
            "ssh"@,
            "--project"@,
            self.project@,
            "--zone"@,
            self.zone@,
            self.target@,
        ]);
        r
    }
}

impl ConnectError {
    /// The message shown to the user.
    pub fn message(&self) -> (r: String)
        ensures
            match self {
                ConnectError::ServerNotFound(k) => r@ == "Server not found: "@ + k@,
                ConnectError::UnknownConnectionType(_) => r@ == "Unknown connection type"@,
                ConnectError::ConnectionFailed(m) => r@ == m@,
            },
    {
        match self {
            ConnectError::ServerNotFound(k) => {
                let mut r = String::from_str("Server not found: ");
                r.append(k.as_str());
                r
            },
            ConnectError::UnknownConnectionType(_) => String::from_str("Unknown connection type"),
            ConnectError::ConnectionFailed(m) => String::from_str(m.as_str()),
        }
    }
}

/// Decides what follows a launch of the prompt-automation tool: done when it
/// ran, a plain SSH session when it is not installed, and a failure when it
/// could not be started otherwise.
pub fn after_automation(launch: Launch) -> (r: AfterAutomation)
    ensures
        match launch {
            Launch::Exited(ok) => r matches AfterAutomation::Finished(x) && exit_result(
                ok,
                "SSH connection failed"@,
                x,
            ),
            Launch::NotInstalled(_) => r is FallBackToSsh,
            Launch::Failed(m) => r matches AfterAutomation::Finished(x) && launch_error(m@, x),
        },
{
    match launch {
        Launch::Exited(ok) => {
            if ok {
                AfterAutomation::Finished(Ok(()))
            } else {
                AfterAutomation::Finished(
                    Err(ConnectError::ConnectionFailed(String::from_str("SSH connection failed"))),
                )
            }
        },
        Launch::NotInstalled(_) => AfterAutomation::FallBackToSsh,
        Launch::Failed(m) => AfterAutomation::Finished(Err(ConnectError::ConnectionFailed(m))),
    }
}

/// The outcome of a plain SSH session.
pub fn after_ssh(launch: Launch) -> (r: Result<(), ConnectError>)
    ensures
        match launch {
            Launch::Exited(ok) => exit_result(ok, "SSH failed"@, r),
            Launch::NotInstalled(m) => launch_error(m@, r),
            Launch::Failed(m) => launch_error(m@, r),
        },
{
    match launch {
        Launch::Exited(ok) => {
            if ok {
                Ok(())
            } else {
                Err(ConnectError::ConnectionFailed(String::from_str("SSH failed")))
            }
        },
        Launch::NotInstalled(m) => Err(ConnectError::ConnectionFailed(m)),
        Launch::Failed(m) => Err(ConnectError::ConnectionFailed(m)),
    }
}

/// The outcome of the cloud provider's SSH proxy.
pub fn after_gcloud(launch: Launch) -> (r: Result<(), ConnectError>)
    ensures
        match launch {
            Launch::Exited(ok) => exit_result(ok, "GCP SSH connection failed"@, r),
            Launch::NotInstalled(m) => launch_error(m@, r),
            Launch::Failed(m) => launch_error(m@, r),
        },
{
    match launch {
        Launch::Exited(ok) => {
            if ok {
                Ok(())
            } else {
                Err(ConnectError::ConnectionFailed(String::from_str("GCP SSH connection failed")))
            }
        },
        Launch::NotInstalled(m) => Err(ConnectError::ConnectionFailed(m)),
        Launch::Failed(m) => Err(ConnectError::ConnectionFailed(m)),
    }
}

} // verus!
