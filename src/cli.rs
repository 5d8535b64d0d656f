use vstd::prelude::*;

verus! {

/// The logging level that `verbose` repetitions of `-v` ask for.
pub open spec fn level_name(verbose: u8) -> Seq<char> {
    if verbose >= 2 {
        seq!['d', 'e', 'b', 'u', 'g']
    } else if verbose == 1 {
        seq!['i', 'n', 'f', 'o']
    } else {
        seq!['w', 'a', 'r', 'n']
    }
}

/// How talkative the controller is.
#[derive(Debug, Clone, Copy, PartialEq, Eq, Structural)]
pub struct LoggingOpts {
    /// How often verbose output was asked for: once for INFO, twice for DEBUG.
    pub verbose: u8,
}

impl LoggingOpts {
    pub fn logging_level(&self) -> (r: String)
        ensures
            r@ == level_name(self.verbose),
    {
        proof {
            reveal_strlit("debug");
            reveal_strlit("info");
            reveal_strlit("warn");
        }
        let r = if self.verbose >= 2 {
            String::from_str("debug")
        } else if self.verbose == 1 {
            String::from_str("info")
        } else {
            String::from_str("warn")
        };
        assert(r@ =~= level_name(self.verbose));
        r
    }
}

/// How outgoing HTTPS connections are made.
#[derive(Debug, Clone, Copy, PartialEq, Eq, Structural)]
pub struct ClientOpts {
    /// Use the proxy settings of this system.
    pub detect_proxy: bool,
    /// Validate the certificate of the REST API.
    pub validate_api_cert: bool,
}

/// Where and as whom to register.
#[derive(Debug, Clone)]
pub struct RegistrationArgsConnection {
    /// The site's address, `<server>` or `<server>:<port>`.
    pub server_spec: String,
    /// The name of the site.
    pub site: String,
    /// The API user to register with.
    pub user: String,
    /// The API user's password; asked for interactively where absent.
    pub password: Option<String>,
    /// Trust the site's certificate without checking it.
    pub trust_server_cert: bool,
    pub client_opts: ClientOpts,
}

/// Registration of this host under a name.
#[derive(Debug, Clone)]
pub struct RegistrationArgsHostName {
    pub connection_args: RegistrationArgsConnection,
    pub logging_opts: LoggingOpts,
    /// The name of this host in the site.
    pub host_name: String,
}

/// Registration that creates a new host from agent labels.
#[derive(Debug, Clone)]
pub struct RegistrationArgsAgentLabels {
    pub connection_args: RegistrationArgsConnection,
    pub logging_opts: LoggingOpts,
    /// User-defined labels, as key and value.
    pub agent_labels_raw: Vec<(String, String)>,
}

/// The position of the first `c` in `s`.
pub open spec fn is_first_index(s: Seq<char>, c: char, i: int) -> bool {
    0 <= i < s.len() && s[i] == c && forall|j: int| 0 <= j < i ==> s[j] != c
}

/// A label that is not of the form `KEY=VALUE`.
#[derive(Debug, Clone)]
pub struct LabelError {
    pub input: String,
}

impl LabelError {
    /// What went wrong, in words.
    pub fn message(&self) -> (r: String)
        ensures
            r@ == seq!['i', 'n', 'v', 'a', 'l', 'i', 'd', ' ', 'K', 'E', 'Y', '=', 'V', 'A', 'L', 'U', 'E', ':', ' ', 'n', 'o', ' ', '`', '=', '`', ' ', 'f', 'o', 'u', 'n', 'd', ' ', 'i', 'n', ' ', '`'] + self.input@ + seq!['`'],
    {
        proof {
            reveal_strlit("invalid KEY=VALUE: no `=` found in `");
            reveal_strlit("`");
        }
        let mut r = String::from_str("invalid KEY=VALUE: no `=` found in `");
        r.append(self.input.as_str());
        r.append("`");
        assert(r@ =~= seq!['i', 'n', 'v', 'a', 'l', 'i', 'd', ' ', 'K', 'E', 'Y', '=', 'V', 'A', 'L', 'U', 'E', ':', ' ', 'n', 'o', ' ', '`', '=', '`', ' ', 'f', 'o', 'u', 'n', 'd', ' ', 'i', 'n', ' ', '`'] + self.input@ + seq!['`']);
        r
    }
}

/// Splits `KEY=VALUE` at its first `=`.
pub fn parse_agent_labels(s: &str) -> (r: Result<(String, String), LabelError>)
    ensures
        match r {
            Ok((key, value)) => exists|i: int|
                is_first_index(s@, '=', i) && key@ == s@.subrange(0, i) && value@ == s@.subrange(
                    i + 1,
                    s@.len() as int,
                ),
            Err(e) => e.input@ == s@ && forall|i: int| 0 <= i < s@.len() ==> s@[i] != '=',
        },
{
    let n = s.unicode_len();
    let mut i: usize = 0;
    while i < n
        invariant
            i <= n,
            n == s@.len(),
            forall|j: int| 0 <= j < i ==> s@[j] != '=',
        decreases n - i,
    {
        if s.get_char(i) == '=' {
            let key = String::from_str(s.substring_char(0, i));
            let value = String::from_str(s.substring_char(i + 1, n));
            assert(is_first_index(s@, '=', i as int));
            return Ok((key, value));
        }
        i = i + 1;
    }
    Err(LabelError { input: String::from_str(s) })
}

/// Options for the status query.
#[derive(Debug, Clone, Copy, PartialEq, Eq, Structural)]
pub struct StatusArgs {
    /// Write the output as JSON.
    pub json: bool,
    /// Do not ask the site about this host's status.
    pub no_query_remote: bool,
    pub client_opts: ClientOpts,
    pub logging_opts: LoggingOpts,
}

/// The connection to delete.
#[derive(Debug, Clone)]
pub struct DeleteArgs {
    /// A site address or a connection's UUID.
    pub connection: String,
    pub logging_opts: LoggingOpts,
}

/// Options for pushing monitoring data.
#[derive(Debug, Clone, Copy, PartialEq, Eq, Structural)]
pub struct PushArgs {
    pub client_opts: ClientOpts,
    pub logging_opts: LoggingOpts,
}

/// Options for deleting every connection.
#[derive(Debug, Clone, Copy, PartialEq, Eq, Structural)]
pub struct DeleteAllArgs {
    /// Serve agent output over plain TCP afterwards.
    pub enable_insecure_connections: bool,
    pub logging_opts: LoggingOpts,
}

/// Where to listen for pull connections.
#[derive(Debug, Clone)]
pub struct PullOpts {
    /// The TCP port to listen on.
    pub port: Option<u16>,
    /// The IP addresses and templates that may connect.
    pub allowed_ip: Option<Vec<String>>,
}

/// Options for serving pull connections.
#[derive(Debug, Clone)]
pub struct PullArgs {
    pub pull_opts: PullOpts,
    pub logging_opts: LoggingOpts,
}

/// Options for running as a daemon.
#[derive(Debug, Clone)]
pub struct DaemonArgs {
    pub pull_opts: PullOpts,
    pub client_opts: ClientOpts,
    pub logging_opts: LoggingOpts,
}

/// The connection file to import.
#[derive(Debug, Clone)]
pub struct ImportArgs {
    /// The file to read; standard input where absent.
    pub conn_file: Option<String>,
    pub logging_opts: LoggingOpts,
}

/// A command that takes only the shared options.
#[derive(Debug, Clone, Copy, PartialEq, Eq, Structural)]
pub struct SharedArgsOnly {
    pub logging_opts: LoggingOpts,
}

/// The controller's commands, each with its options.
#[derive(Debug, Clone)]
pub enum Args {
    RegisterHostName(RegistrationArgsHostName),
    RegisterAgentLabels(RegistrationArgsAgentLabels),
    ProxyRegister(RegistrationArgsHostName),
    Push(PushArgs),
    Pull(PullArgs),
    Daemon(DaemonArgs),
    Dump(SharedArgsOnly),
    Status(StatusArgs),
    Delete(DeleteArgs),
    DeleteAll(DeleteAllArgs),
    Import(ImportArgs),
}

/// The logging options of a command.
pub open spec fn logging_opts_of(a: Args) -> LoggingOpts {
    match a {
        Args::RegisterHostName(x) => x.logging_opts,
        Args::RegisterAgentLabels(x) => x.logging_opts,
        Args::ProxyRegister(x) => x.logging_opts,
        Args::Push(x) => x.logging_opts,
        Args::Pull(x) => x.logging_opts,
        Args::Daemon(x) => x.logging_opts,
        Args::Dump(x) => x.logging_opts,
        Args::Status(x) => x.logging_opts,
        Args::Delete(x) => x.logging_opts,
        Args::DeleteAll(x) => x.logging_opts,
        Args::Import(x) => x.logging_opts,
    }
}

impl Args {
    /// The logging level that the command's options ask for.
    pub fn logging_level(&self) -> (r: String)
        ensures
            r@ == level_name(logging_opts_of(*self).verbose),
    {
        match self {
            Args::RegisterHostName(args) => args.logging_opts.logging_level(),
            Args::RegisterAgentLabels(args) => args.logging_opts.logging_level(),
            Args::ProxyRegister(args) => args.logging_opts.logging_level(),
            Args::Push(args) => args.logging_opts.logging_level(),
            Args::Pull(args) => args.logging_opts.logging_level(),
            Args::Daemon(args) => args.logging_opts.logging_level(),
            Args::Dump(args) => args.logging_opts.logging_level(),
            Args::Status(args) => args.logging_opts.logging_level(),
            Args::Delete(args) => args.logging_opts.logging_level(),
            Args::DeleteAll(args) => args.logging_opts.logging_level(),
            Args::Import(args) => args.logging_opts.logging_level(),
        }
    }
}

} // verus!
