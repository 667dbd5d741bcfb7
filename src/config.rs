use vstd::prelude::*;

verus! {

/// Name of the mesh daemon's executable.
pub const DAEMON_PROGRAM: &'static str = "tailscaled";

/// Name of the daemon's command-line companion.
pub const CLI_PROGRAM: &'static str = "tailscale";

/// Node name under which this client joins the overlay network.
pub const NODE_HOSTNAME: &'static str = "la-caja-desktop-client";

/// Remote host used when no server address is configured.
pub const DEFAULT_SERVER_IP: &'static str = "100.109.89.122";

/// Remote port used when no server port is configured.
pub const DEFAULT_SERVER_PORT: &'static str = "3000";

/// Loopback address on which the relay accepts application traffic.
pub const RELAY_LISTEN_ADDR: &'static str = "127.0.0.1:3001";

/// Where the daemon exposes its SOCKS5 proxy, as the relay dials it.
pub const SOCKS_PROXY_ADDR: &'static str = "127.0.0.1:1055";

/// Subdirectory of the data directory that holds the daemon's files.
pub const DAEMON_SUBDIR: &'static str = "tailscale";

/// File name of the daemon's persisted state.
pub const STATE_FILE_NAME: &'static str = "tailscaled.state";

/// File name of the daemon's control socket.
pub const SOCKET_FILE_NAME: &'static str = "tailscaled.sock";

/// The character views of a list of strings.
pub open spec fn string_views(v: Seq<String>) -> Seq<Seq<char>> {
    v.map_values(|s: String| s@)
}

/// `name` placed inside the directory `dir`, with a separator added only
/// where `dir` does not already end in one.
pub open spec fn join_path(dir: Seq<char>, name: Seq<char>) -> Seq<char> {
    if dir.len() == 0 {
        name
    } else if dir.last() == '/' {
        dir + name
    } else {
        dir + seq!['/'] + name
    }
}

/// Joins a relative file name onto a directory path.
pub fn join(dir: &str, name: &str) -> (r: String)
    ensures
        r@ == join_path(dir@, name@),
{
    let n = dir.unicode_len();
    if n == 0 {
        String::from_str(name)
    } else if dir.get_char(n - 1) == '/' {
        String::from_str(dir).concat(name)
    } else {
        proof {
            reveal_strlit("/");
        }
        let r = String::from_str(dir).concat("/").concat(name);
        assert(r@ =~= dir@ + seq!['/'] + name@);
        r
    }
}

/// Settings of the tunnel, assembled once from the environment.
#[derive(Clone, Debug)]
pub struct TunnelConfig {
    pub auth_key: String,
    pub server_ip: String,
    pub server_port: String,
}

/// `host:port`, the form in which the SOCKS5 client takes its target.
pub open spec fn host_port(host: Seq<char>, port: Seq<char>) -> Seq<char> {
    host + seq![':'] + port
}

/// The configured value, or the default where none was given.
pub open spec fn or_default(v: Option<String>, default: Seq<char>) -> Seq<char> {
    match v {
        Some(s) => s@,
        None => default,
    }
}

impl TunnelConfig {
    /// Builds the settings from the values found in the environment. The
    /// pre-shared key is required; the server address and port fall back to
    /// their defaults. `None` exactly when the key is missing.
    pub fn resolve(
        auth_key: Option<String>,
        server_ip: Option<String>,
        server_port: Option<String>,
    ) -> (r: Option<TunnelConfig>)
        ensures
            r is None <==> auth_key is None,
            r is Some ==> r->Some_0.auth_key == auth_key->Some_0,
            r is Some ==> r->Some_0.server_ip@ == or_default(server_ip, DEFAULT_SERVER_IP@),
            r is Some ==> r->Some_0.server_port@ == or_default(server_port, DEFAULT_SERVER_PORT@),
    {
        match auth_key {
            None => None,
            Some(key) => {
                let ip = match server_ip {
                    Some(s) => s,
                    None => String::from_str(DEFAULT_SERVER_IP),
                };
                let port = match server_port {
                    Some(s) => s,
                    None => String::from_str(DEFAULT_SERVER_PORT),
                };
                Some(TunnelConfig { auth_key: key, server_ip: ip, server_port: port })
            },
        }
    }

    /// The remote endpoint, `server_ip:server_port`.
    pub fn target_addr(&self) -> (r: String)
        ensures
            r@ == host_port(self.server_ip@, self.server_port@),
    {
        proof {
            reveal_strlit(":");
        }
        let r = self.server_ip.clone().concat(":").concat(self.server_port.as_str());
        assert(r@ =~= host_port(self.server_ip@, self.server_port@));
        r
    }
}

/// Where the daemon keeps its files and how it is started.
#[derive(Clone, Debug)]
pub struct DaemonConfig {
    pub dir: String,
    pub state_file_path: String,
    pub socket_path: String,
}

/// The daemon's directory inside the application's data directory.
pub open spec fn daemon_dir(data_dir: Seq<char>) -> Seq<char> {
    join_path(data_dir, DAEMON_SUBDIR@)
}

/// The daemon's command line: userspace networking, the SOCKS5 listener,
/// and explicit state and socket files.
pub open spec fn daemon_args_spec(state: Seq<char>, socket: Seq<char>) -> Seq<Seq<char>> {
    seq![
        "--tun=userspace-networking"@,
        "--socks5-server=localhost:1055"@,
        "--state"@,
        state,
        "--socket"@,
        socket,
    ]
}

impl DaemonConfig {
    /// Lays out the daemon's private files under `data_dir`, so that no two
    /// application instances share the daemon's default paths.
    pub fn in_data_dir(data_dir: &str) -> (r: DaemonConfig)
        ensures
            r.dir@ == daemon_dir(data_dir@),
            r.state_file_path@ == join_path(daemon_dir(data_dir@), STATE_FILE_NAME@),
            r.socket_path@ == join_path(daemon_dir(data_dir@), SOCKET_FILE_NAME@),
    {
        let dir = join(data_dir, DAEMON_SUBDIR);
        let state_file_path = join(dir.as_str(), STATE_FILE_NAME);
        let socket_path = join(dir.as_str(), SOCKET_FILE_NAME);
        DaemonConfig { dir, state_file_path, socket_path }
    }

    /// The arguments the daemon is started with.
    pub fn daemon_args(&self) -> (r: Vec<String>)
        ensures
            string_views(r@) == daemon_args_spec(self.state_file_path@, self.socket_path@),
    {
        let r = vec![
            String::from_str("--tun=userspace-networking"),
            String::from_str("--socks5-server=localhost:1055"),
            String::from_str("--state"),
            self.state_file_path.clone(),
            String::from_str("--socket"),
            self.socket_path.clone(),
        ];
        assert(string_views(r@) =~= daemon_args_spec(self.state_file_path@, self.socket_path@));
        r
    }
}

/// One request to join the overlay network. The key is never part of any
/// message this library builds.
#[derive(Clone, Debug)]
pub struct AuthRequest {
    pub auth_key: String,
    pub hostname: String,
    pub socket_path: String,
    pub accept_routes: bool,
}

/// The companion's command line for joining the network.
pub open spec fn login_args_spec(
    socket: Seq<char>,
    key: Seq<char>,
    hostname: Seq<char>,
    accept_routes: bool,
) -> Seq<Seq<char>> {
    let base = seq!["--socket"@, socket, "up"@, "--authkey"@, key, "--hostname"@, hostname];
    if accept_routes {
        base.push("--accept-routes"@)
    } else {
        base
    }
}

impl AuthRequest {
    /// The request this client makes: its fixed node name, routes accepted.
    pub fn for_node(auth_key: String, socket_path: String) -> (r: AuthRequest)
        ensures
            r.auth_key == auth_key,
            r.socket_path == socket_path,
            r.hostname@ == NODE_HOSTNAME@,
            r.accept_routes,
    {
        AuthRequest {
            auth_key,
            hostname: String::from_str(NODE_HOSTNAME),
            socket_path,
            accept_routes: true,
        }
    }

    /// The arguments the companion is run with.
    pub fn login_args(&self) -> (r: Vec<String>)
        ensures
            string_views(r@) == login_args_spec(
                self.socket_path@,
                self.auth_key@,
                self.hostname@,
                self.accept_routes,
            ),
    {
        let mut r = vec![
            String::from_str("--socket"),
            self.socket_path.clone(),
            String::from_str("up"),
            String::from_str("--authkey"),
            self.auth_key.clone(),
            String::from_str("--hostname"),
            self.hostname.clone(),
        ];
        if self.accept_routes {
            r.push(String::from_str("--accept-routes"));
        }
        assert(string_views(r@) =~= login_args_spec(
            self.socket_path@,
            self.auth_key@,
            self.hostname@,
            self.accept_routes,
        ));
        r
    }
}

/// What the relay needs: where to listen, which proxy to dial through, and
/// the remote endpoint to ask it for.
#[derive(Clone, Debug)]
pub struct RelayPlan {
    pub listen_addr: String,
    pub socks_addr: String,
    pub target: String,
}

impl RelayPlan {
    pub fn for_tunnel(tunnel: &TunnelConfig) -> (r: RelayPlan)
        ensures
            r.listen_addr@ == RELAY_LISTEN_ADDR@,
            r.socks_addr@ == SOCKS_PROXY_ADDR@,
            r.target@ == host_port(tunnel.server_ip@, tunnel.server_port@),
    {
        RelayPlan {
            listen_addr: String::from_str(RELAY_LISTEN_ADDR),
            socks_addr: String::from_str(SOCKS_PROXY_ADDR),
            target: tunnel.target_addr(),
        }
    }
}

} // verus!
