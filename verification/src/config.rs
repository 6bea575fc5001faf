//! Read-only server configuration consumed by the delivery engine: server
//! identity, trust certificates per server name, queue locations and the
//! deferred-retry knobs, with their documented default values.

use vstd::prelude::*;

verus! {

/// One trust certificate, held as its DER bytes.
#[derive(Debug, Clone)]
pub struct Certificate {
    pub der: Vec<u8>,
}

impl View for Certificate {
    type V = Seq<u8>;

    open spec fn view(&self) -> Seq<u8> {
        self.der@
    }
}

/// The views of a sequence of certificates.
pub open spec fn certs_view(s: Seq<Certificate>) -> Seq<Seq<u8>> {
    s.map_values(|c: Certificate| c@)
}

/// An owned copy of a certificate list.
pub fn clone_certs(certs: &Vec<Certificate>) -> (r: Vec<Certificate>)
    ensures
        certs_view(r@) == certs_view(certs@),
{
    let mut copy: Vec<Certificate> = Vec::new();
    let mut i: usize = 0;
    while i < certs.len()
        invariant
            i <= certs.len(),
            copy@.len() == i,
            forall|k: int| 0 <= k < i ==> copy@[k]@ == certs@[k]@,
        decreases certs.len() - i,
    {
        copy.push(Certificate { der: certs[i].der.clone() });
        i = i + 1;
    }
    proof {
        assert(certs_view(copy@) =~= certs_view(certs@));
    }
    copy
}

/// TLS material presented for one server identity.
#[derive(Debug, Clone)]
pub struct FieldServerTls {
    pub certificate: Vec<Certificate>,
    pub handshake_timeout_secs: u64,
}

impl FieldServerTls {
    /// Default TLS handshake timeout, in seconds.
    pub fn default_handshake_timeout() -> (r: u64)
        ensures
            r == 1u64,
    {
        1
    }
}

/// Configuration of one virtual (hosted) domain: an optional certificate
/// chain of its own.
#[derive(Debug, Clone)]
pub struct FieldServerVirtual {
    pub tls_certificate: Option<Vec<Certificate>>,
}

/// Sizing of the working queue channel.
#[derive(Debug, Clone)]
pub struct FieldQueueWorking {
    pub channel_size: usize,
}

impl FieldQueueWorking {
    /// Default channel size of the working queue.
    pub fn default_channel_size() -> (r: usize)
        ensures
            r == 32usize,
    {
        32
    }
}

impl Default for FieldQueueWorking {
    fn default() -> (r: Self)
        ensures
            r.channel_size == 32usize,
    {
        FieldQueueWorking { channel_size: FieldQueueWorking::default_channel_size() }
    }
}

/// Sizing and retry policy of the delivery queue.
#[derive(Debug, Clone)]
pub struct FieldQueueDelivery {
    pub channel_size: usize,
    pub deferred_retry_max: usize,
    pub deferred_retry_period_secs: u64,
}

impl FieldQueueDelivery {
    /// Default channel size of the delivery queue.
    pub fn default_channel_size() -> (r: usize)
        ensures
            r == 32usize,
    {
        32
    }

    /// Default cap on deferred retries of one message.
    pub fn default_deferred_retry_max() -> (r: usize)
        ensures
            r == 100usize,
    {
        100
    }

    /// Default deferred sweep interval, in seconds.
    pub fn default_deferred_retry_period() -> (r: u64)
        ensures
            r == 300u64,
    {
        300
    }
}

impl Default for FieldQueueDelivery {
    fn default() -> (r: Self)
        ensures
            r.channel_size == 32usize,
            r.deferred_retry_max == 100usize,
            r.deferred_retry_period_secs == 300u64,
    {
        FieldQueueDelivery {
            channel_size: FieldQueueDelivery::default_channel_size(),
            deferred_retry_max: FieldQueueDelivery::default_deferred_retry_max(),
            deferred_retry_period_secs: FieldQueueDelivery::default_deferred_retry_period(),
        }
    }
}

/// Where the persistent queues live, and their sizing.
#[derive(Debug, Clone)]
pub struct FieldServerQueues {
    pub dirpath: String,
    pub working: FieldQueueWorking,
    pub delivery: FieldQueueDelivery,
}

impl FieldServerQueues {
    /// Default spool directory.
    pub fn default_dirpath() -> (r: String)
        ensures
            r@ == "/var/spool/vsmtp"@,
    {
        String::from_str("/var/spool/vsmtp")
    }
}

impl Default for FieldServerQueues {
    fn default() -> (r: Self)
        ensures
            r.dirpath@ == "/var/spool/vsmtp"@,
            r.working.channel_size == 32usize,
            r.delivery.channel_size == 32usize,
            r.delivery.deferred_retry_max == 100usize,
            r.delivery.deferred_retry_period_secs == 300u64,
    {
        FieldServerQueues {
            dirpath: FieldServerQueues::default_dirpath(),
            working: FieldQueueWorking::default(),
            delivery: FieldQueueDelivery::default(),
        }
    }
}

/// Worker pool sizing of the three server processes.
#[derive(Debug, Clone)]
pub struct FieldServerSystemThreadPool {
    pub receiver: usize,
    pub processing: usize,
    pub delivery: usize,
}

impl FieldServerSystemThreadPool {
    /// Default size of the receiver pool.
    pub fn default_receiver() -> (r: usize)
        ensures
            r == 6usize,
    {
        6
    }

    /// Default size of the processing pool.
    pub fn default_processing() -> (r: usize)
        ensures
            r == 6usize,
    {
        6
    }

    /// Default size of the delivery pool.
    pub fn default_delivery() -> (r: usize)
        ensures
            r == 6usize,
    {
        6
    }
}

impl Default for FieldServerSystemThreadPool {
    fn default() -> (r: Self)
        ensures
            r.receiver == 6usize,
            r.processing == 6usize,
            r.delivery == 6usize,
    {
        FieldServerSystemThreadPool {
            receiver: FieldServerSystemThreadPool::default_receiver(),
            processing: FieldServerSystemThreadPool::default_processing(),
            delivery: FieldServerSystemThreadPool::default_delivery(),
        }
    }
}

/// The socket addresses the server listens on, as `ip:port` strings.
#[derive(Debug, Clone)]
pub struct FieldServerInterfaces {
    pub addr: Vec<String>,
    pub addr_submission: Vec<String>,
    pub addr_submissions: Vec<String>,
}

impl FieldServerInterfaces {
    /// The conventional IPv4 loopback interfaces: SMTP, submission, and
    /// implicit-TLS submission.
    pub fn ipv4_localhost() -> (r: Self)
        ensures
            r.addr@.len() == 1 && r.addr@[0]@ == "127.0.0.1:25"@,
            r.addr_submission@.len() == 1 && r.addr_submission@[0]@ == "127.0.0.1:587"@,
            r.addr_submissions@.len() == 1 && r.addr_submissions@[0]@ == "127.0.0.1:465"@,
    {
        let mut addr: Vec<String> = Vec::new();
        addr.push(String::from_str("127.0.0.1:25"));
        let mut addr_submission: Vec<String> = Vec::new();
        addr_submission.push(String::from_str("127.0.0.1:587"));
        let mut addr_submissions: Vec<String> = Vec::new();
        addr_submissions.push(String::from_str("127.0.0.1:465"));
        FieldServerInterfaces { addr, addr_submission, addr_submissions }
    }
}

impl Default for FieldServerInterfaces {
    fn default() -> (r: Self)
        ensures
            r.addr@.len() == 1 && r.addr@[0]@ == "127.0.0.1:25"@,
            r.addr_submission@.len() == 1 && r.addr_submission@[0]@ == "127.0.0.1:587"@,
            r.addr_submissions@.len() == 1 && r.addr_submissions@[0]@ == "127.0.0.1:465"@,
    {
        FieldServerInterfaces::ipv4_localhost()
    }
}

/// Where the server writes its own logs.
#[derive(Debug, Clone)]
pub struct FieldServerLogs {
    pub filename: String,
    pub level: Vec<String>,
}

impl FieldServerLogs {
    /// Default log file path.
    pub fn default_filename() -> (r: String)
        ensures
            r@ == "/var/log/vsmtp/vsmtp.log"@,
    {
        String::from_str("/var/log/vsmtp/vsmtp.log")
    }

    /// Default log level directives.
    pub fn default_level() -> (r: Vec<String>)
        ensures
            r@.len() == 1 && r@[0]@ == "warn"@,
    {
        let mut level: Vec<String> = Vec::new();
        level.push(String::from_str("warn"));
        level
    }
}

impl Default for FieldServerLogs {
    fn default() -> (r: Self)
        ensures
            r.filename@ == "/var/log/vsmtp/vsmtp.log"@,
            r.level@.len() == 1 && r.level@[0]@ == "warn"@,
    {
        FieldServerLogs {
            filename: FieldServerLogs::default_filename(),
            level: FieldServerLogs::default_level(),
        }
    }
}

/// A SASL authentication mechanism offered to clients.
#[derive(Debug, Clone, Copy, PartialEq, Eq, Structural)]
pub enum Mechanism {
    Plain,
    Login,
    CramMd5,
}

/// SMTP AUTH policy.
#[derive(Debug, Clone)]
pub struct FieldServerSMTPAuth {
    pub enable_dangerous_mechanism_in_clair: bool,
    pub mechanisms: Vec<Mechanism>,
    pub attempt_count_max: i64,
}

impl FieldServerSMTPAuth {
    /// By default, mechanisms that expose credentials are refused on
    /// unencrypted connections.
    pub fn default_enable_dangerous_mechanism_in_clair() -> (r: bool)
        ensures
            r == false,
    {
        false
    }

    /// All the supported SASL mechanisms.
    pub fn default_mechanisms() -> (r: Vec<Mechanism>)
        ensures
            r@ == seq![Mechanism::Plain, Mechanism::Login, Mechanism::CramMd5],
    {
        let mut mechanisms: Vec<Mechanism> = Vec::new();
        mechanisms.push(Mechanism::Plain);
        mechanisms.push(Mechanism::Login);
        mechanisms.push(Mechanism::CramMd5);
        proof {
            assert(mechanisms@ =~= seq![Mechanism::Plain, Mechanism::Login, Mechanism::CramMd5]);
        }
        mechanisms
    }

    /// Default cap on failed authentication attempts: negative means no cap.
    pub fn default_attempt_count_max() -> (r: i64)
        ensures
            r == -1i64,
    {
        -1
    }
}

impl Default for FieldServerSMTPAuth {
    fn default() -> (r: Self)
        ensures
            r.enable_dangerous_mechanism_in_clair == false,
            r.mechanisms@ == seq![Mechanism::Plain, Mechanism::Login, Mechanism::CramMd5],
            r.attempt_count_max == -1i64,
    {
        FieldServerSMTPAuth {
            enable_dangerous_mechanism_in_clair:
                FieldServerSMTPAuth::default_enable_dangerous_mechanism_in_clair(),
            mechanisms: FieldServerSMTPAuth::default_mechanisms(),
            attempt_count_max: FieldServerSMTPAuth::default_attempt_count_max(),
        }
    }
}

/// SMTP session limits.
#[derive(Debug, Clone)]
pub struct FieldServerSMTP {
    pub rcpt_count_max: usize,
    pub auth: Option<FieldServerSMTPAuth>,
}

impl FieldServerSMTP {
    /// Default cap on recipients per message.
    pub fn default_rcpt_count_max() -> (r: usize)
        ensures
            r == 1000usize,
    {
        1000
    }
}

impl Default for FieldServerSMTP {
    fn default() -> (r: Self)
        ensures
            r.rcpt_count_max == 1000usize,
            r.auth is None,
    {
        FieldServerSMTP { rcpt_count_max: FieldServerSMTP::default_rcpt_count_max(), auth: None }
    }
}

/// Knobs handed to the DNS resolver.
#[derive(Debug, Clone)]
pub struct ResolverOptsWrapper {
    pub timeout_secs: u64,
    pub attempts: usize,
    pub rotate: bool,
    pub dnssec: bool,
    pub cache_size: usize,
    pub use_hosts_file: bool,
    pub num_concurrent_reqs: usize,
}

impl ResolverOptsWrapper {
    /// Default query timeout, in seconds.
    pub fn default_timeout() -> (r: u64)
        ensures
            r == 5u64,
    {
        5
    }

    /// Default number of retries after a failed query.
    pub fn default_attempts() -> (r: usize)
        ensures
            r == 2usize,
    {
        2
    }

    /// By default the listed name servers are not rotated.
    pub fn default_rotate() -> (r: bool)
        ensures
            r == false,
    {
        false
    }

    /// DNSSEC validation is off by default.
    pub fn default_dnssec() -> (r: bool)
        ensures
            r == false,
    {
        false
    }

    /// Default size of the resolver cache.
    pub fn default_cache_size() -> (r: usize)
        ensures
            r == 32usize,
    {
        32
    }

    /// The hosts file is consulted by default.
    pub fn default_use_hosts_file() -> (r: bool)
        ensures
            r == true,
    {
        true
    }

    /// Default number of concurrent in-flight queries.
    pub fn default_num_concurrent_reqs() -> (r: usize)
        ensures
            r == 2usize,
    {
        2
    }
}

impl Default for ResolverOptsWrapper {
    fn default() -> (r: Self)
        ensures
            r.timeout_secs == 5u64,
            r.attempts == 2usize,
            r.rotate == false,
            r.dnssec == false,
            r.cache_size == 32usize,
            r.use_hosts_file == true,
            r.num_concurrent_reqs == 2usize,
    {
        ResolverOptsWrapper {
            timeout_secs: ResolverOptsWrapper::default_timeout(),
            attempts: ResolverOptsWrapper::default_attempts(),
            rotate: ResolverOptsWrapper::default_rotate(),
            dnssec: ResolverOptsWrapper::default_dnssec(),
            cache_size: ResolverOptsWrapper::default_cache_size(),
            use_hosts_file: ResolverOptsWrapper::default_use_hosts_file(),
            num_concurrent_reqs: ResolverOptsWrapper::default_num_concurrent_reqs(),
        }
    }
}

/// Which DNS configuration the resolver is built from.
#[derive(Debug, Clone, PartialEq, Eq, Structural)]
pub enum FieldServerDNS {
    /// The system's own resolver configuration.
    System,
    /// Google's public name servers.
    Google,
    /// Cloudflare's public name servers.
    Cloudflare,
}

impl Default for FieldServerDNS {
    fn default() -> (r: Self)
        ensures
            r == FieldServerDNS::System,
    {
        FieldServerDNS::System
    }
}

/// Everything the server knows about itself.
#[derive(Debug, Clone)]
pub struct FieldServer {
    pub name: String,
    pub client_count_max: i64,
    pub message_size_limit: usize,
    pub thread_pool: FieldServerSystemThreadPool,
    pub interfaces: FieldServerInterfaces,
    pub logs: FieldServerLogs,
    pub queues: FieldServerQueues,
    pub tls: Option<FieldServerTls>,
    pub smtp: FieldServerSMTP,
    pub dns: FieldServerDNS,
    pub virtual_domains: Vec<(String, FieldServerVirtual)>,
}

impl FieldServer {
    /// Default cap on simultaneous client connections.
    pub fn default_client_count_max() -> (r: i64)
        ensures
            r == 16i64,
    {
        16
    }

    /// Default cap on the size of one message, in bytes.
    pub fn default_message_size_limit() -> (r: usize)
        ensures
            r == 10_000_000usize,
    {
        10_000_000
    }

    /// The machine's host name, if the system reports one.  Nothing is
    /// promised of the value.
    pub fn hostname() -> Option<String> {
        hostname_string()
    }
}

/// Relies on hostname::get for the machine's host name; the value depends on
/// the machine, so nothing is promised of it.
#[verifier::external_body]
fn hostname_string() -> Option<String> {
    hostname::get().ok().and_then(|h| h.into_string().ok())
}

/// Application-side (rule engine) directories.
#[derive(Debug, Clone)]
pub struct FieldApp {
    pub dirpath: String,
    pub logs: FieldAppLogs,
}

impl FieldApp {
    /// Default application directory.
    pub fn default_dirpath() -> (r: String)
        ensures
            r@ == "/var/spool/vsmtp/app"@,
    {
        String::from_str("/var/spool/vsmtp/app")
    }
}

impl Default for FieldApp {
    fn default() -> (r: Self)
        ensures
            r.dirpath@ == "/var/spool/vsmtp/app"@,
            r.logs.filename@ == "/var/log/vsmtp/app.log"@,
    {
        FieldApp { dirpath: FieldApp::default_dirpath(), logs: FieldAppLogs::default() }
    }
}

/// Where the application writes its logs.
#[derive(Debug, Clone)]
pub struct FieldAppLogs {
    pub filename: String,
}

impl FieldAppLogs {
    /// Default application log file path.
    pub fn default_filename() -> (r: String)
        ensures
            r@ == "/var/log/vsmtp/app.log"@,
    {
        String::from_str("/var/log/vsmtp/app.log")
    }
}

impl Default for FieldAppLogs {
    fn default() -> (r: Self)
        ensures
            r.filename@ == "/var/log/vsmtp/app.log"@,
    {
        FieldAppLogs { filename: FieldAppLogs::default_filename() }
    }
}

/// The full configuration read by the delivery engine.
#[derive(Debug, Clone)]
pub struct Config {
    pub server: FieldServer,
    pub app: FieldApp,
}

/// The first virtual-domain entry whose name equals `name`.
pub open spec fn find_virtual(
    s: Seq<(String, FieldServerVirtual)>,
    name: Seq<char>,
) -> Option<FieldServerVirtual>
    decreases s.len(),
{
    if s.len() == 0 {
        None
    } else if s[0].0@ == name {
        Some(s[0].1)
    } else {
        find_virtual(s.drop_first(), name)
    }
}

/// The certificate chain configured for `server_name`: the matching virtual
/// domain's own chain where it has one, otherwise the root TLS chain,
/// otherwise nothing.
pub open spec fn cert_for_server_spec(config: Config, server_name: Seq<char>) -> Option<
    Seq<Seq<u8>>,
> {
    let root = match config.server.tls {
        Some(tls) => Some(certs_view(tls.certificate@)),
        None => None,
    };
    match find_virtual(config.server.virtual_domains@, server_name) {
        Some(v) => match v.tls_certificate {
            Some(certs) => Some(certs_view(certs@)),
            None => root,
        },
        None => root,
    }
}

/// The trust certificates to present when sending on behalf of
/// `server_name`: the matching virtual domain's chain where configured,
/// otherwise the root chain.
pub fn get_cert_for_server(server_name: &String, config: &Config) -> (r: Option<Vec<Certificate>>)
    ensures
        match cert_for_server_spec(*config, server_name@) {
            Some(certs) => r matches Some(rc) && certs_view(rc@) == certs,
            None => r is None,
        },
{
    let doms = &config.server.virtual_domains;
    proof {
        assert(doms@.skip(0) =~= doms@);
    }
    let mut i: usize = 0;
    let mut idx: Option<usize> = None;
    while i < doms.len()
        invariant
            i <= doms.len(),
            match idx {
                Some(j) => j < i && find_virtual(doms@, server_name@) == Some(
                    doms@[j as int].1,
                ),
                None => find_virtual(doms@, server_name@) == find_virtual(
                    doms@.skip(i as int),
                    server_name@,
                ),
            },
        decreases doms.len() - i,
    {
        if idx.is_none() {
            proof {
                assert(doms@.skip(i as int)[0] == doms@[i as int]);
                assert(doms@.skip(i as int).drop_first() =~= doms@.skip(i as int + 1));
            }
            if doms[i].0 == *server_name {
                idx = Some(i);
            }
        }
        i = i + 1;
    }
    match idx {
        Some(j) => match &doms[j].1.tls_certificate {
            Some(certs) => Some(clone_certs(certs)),
            None => match &config.server.tls {
                Some(tls) => Some(clone_certs(&tls.certificate)),
                None => None,
            },
        },
        None => match &config.server.tls {
            Some(tls) => Some(clone_certs(&tls.certificate)),
            None => None,
        },
    }
}

/// A step-by-step constructor for [`Config`], starting from the documented
/// defaults.
#[derive(Debug, Clone)]
pub struct Builder {
    pub config: Config,
}

impl Config {
    /// Start building a configuration from the defaults; the server name
    /// starts as `localhost` until set.
    pub fn builder() -> (b: Builder)
        ensures
            b.config.server.name@ == "localhost"@,
            b.config.server.client_count_max == 16i64,
            b.config.server.message_size_limit == 10_000_000usize,
            b.config.server.queues.dirpath@ == "/var/spool/vsmtp"@,
            b.config.server.queues.delivery.deferred_retry_max == 100usize,
            b.config.server.queues.delivery.deferred_retry_period_secs == 300u64,
            b.config.server.tls is None,
            b.config.server.virtual_domains@.len() == 0,
            b.config.app.dirpath@ == "/var/spool/vsmtp/app"@,
    {
        Builder {
            config: Config {
                server: FieldServer {
                    name: String::from_str("localhost"),
                    client_count_max: FieldServer::default_client_count_max(),
                    message_size_limit: FieldServer::default_message_size_limit(),
                    thread_pool: FieldServerSystemThreadPool::default(),
                    interfaces: FieldServerInterfaces::default(),
                    logs: FieldServerLogs::default(),
                    queues: FieldServerQueues::default(),
                    tls: None,
                    smtp: FieldServerSMTP::default(),
                    dns: FieldServerDNS::default(),
                    virtual_domains: Vec::new(),
                },
                app: FieldApp::default(),
            },
        }
    }
}

impl Builder {
    /// Set the server's own name, presented in SMTP greetings.
    pub fn with_server_name(self, name: String) -> (r: Builder)
        ensures
            r.config.server.name@ == name@,
            r.config.server.tls == self.config.server.tls,
            r.config.server.virtual_domains == self.config.server.virtual_domains,
            r.config.server.queues == self.config.server.queues,
            r.config.app == self.config.app,
    {
        let Builder { config } = self;
        let Config { server, app } = config;
        let FieldServer {
            name: _,
            client_count_max,
            message_size_limit,
            thread_pool,
            interfaces,
            logs,
            queues,
            tls,
            smtp,
            dns,
            virtual_domains,
        } = server;
        Builder {
            config: Config {
                server: FieldServer {
                    name,
                    client_count_max,
                    message_size_limit,
                    thread_pool,
                    interfaces,
                    logs,
                    queues,
                    tls,
                    smtp,
                    dns,
                    virtual_domains,
                },
                app,
            },
        }
    }

    /// Set the server name from the machine's host name; where the system
    /// reports none, the name is left as it was.
    pub fn with_hostname(self) -> (r: Builder)
        ensures
            r.config.server.tls == self.config.server.tls,
            r.config.server.virtual_domains == self.config.server.virtual_domains,
            r.config.server.queues == self.config.server.queues,
            r.config.app == self.config.app,
    {
        match FieldServer::hostname() {
            Some(name) => self.with_server_name(name),
            None => self,
        }
    }

    /// Install the root TLS certificate chain.
    pub fn with_tls_certificate(self, certificate: Vec<Certificate>) -> (r: Builder)
        ensures
            r.config.server.tls matches Some(tls) && certs_view(tls.certificate@) == certs_view(
                certificate@,
            ),
            r.config.server.name == self.config.server.name,
            r.config.server.virtual_domains == self.config.server.virtual_domains,
            r.config.server.queues == self.config.server.queues,
            r.config.app == self.config.app,
    {
        let Builder { config } = self;
        let Config { server, app } = config;
        let FieldServer {
            name,
            client_count_max,
            message_size_limit,
            thread_pool,
            interfaces,
            logs,
            queues,
            tls: _,
            smtp,
            dns,
            virtual_domains,
        } = server;
        Builder {
            config: Config {
                server: FieldServer {
                    name,
                    client_count_max,
                    message_size_limit,
                    thread_pool,
                    interfaces,
                    logs,
                    queues,
                    tls: Some(
                        FieldServerTls {
                            certificate,
                            handshake_timeout_secs: FieldServerTls::default_handshake_timeout(),
                        },
                    ),
                    smtp,
                    dns,
                    virtual_domains,
                },
                app,
            },
        }
    }

    /// Add one virtual domain with its configuration.
    pub fn with_virtual_domain(self, name: String, domain: FieldServerVirtual) -> (r: Builder)
        ensures
            r.config.server.virtual_domains@ == self.config.server.virtual_domains@.push(
                (name, domain),
            ),
            r.config.server.name == self.config.server.name,
            r.config.server.tls == self.config.server.tls,
            r.config.server.queues == self.config.server.queues,
            r.config.app == self.config.app,
    {
        let Builder { mut config } = self;
        config.server.virtual_domains.push((name, domain));
        Builder { config }
    }

    /// Finish: hand back the assembled configuration.
    pub fn build(self) -> (r: Config)
        ensures
            r == self.config,
    {
        self.config
    }
}

} // verus!
