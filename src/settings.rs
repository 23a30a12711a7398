//! Endpoint settings and their descriptor text: `file:<path>`,
//! `tcp_client:<host>:<port>`, `tcp_server:<host>:<port>` and
//! `udp:<host>:<port>`.
use vstd::prelude::*;
use crate::decimal::{dec_digits, port_of, parse_port, push_decimal, lemma_port_text_round_trip};
use crate::text::{starts_with, first_colon_at, has_no_colon, has_prefix, find_colon, lemma_first_colon_unique};

verus! {

pub open spec fn file_prefix() -> Seq<char> {
    seq!['f', 'i', 'l', 'e', ':']
}

pub open spec fn tcp_client_prefix() -> Seq<char> {
    seq!['t', 'c', 'p', '_', 'c', 'l', 'i', 'e', 'n', 't', ':']
}

pub open spec fn tcp_server_prefix() -> Seq<char> {
    seq!['t', 'c', 'p', '_', 's', 'e', 'r', 'v', 'e', 'r', ':']
}

pub open spec fn udp_prefix() -> Seq<char> {
    seq!['u', 'd', 'p', ':']
}

/// The descriptor text of a file endpoint.
pub open spec fn file_text(path: Seq<char>) -> Seq<char> {
    file_prefix() + path
}

/// The path that a file descriptor names.
pub open spec fn parse_file(s: Seq<char>) -> Option<Seq<char>> {
    if starts_with(s, file_prefix()) {
        Some(s.skip(file_prefix().len() as int))
    } else {
        None
    }
}

/// The descriptor text of a network endpoint.
pub open spec fn host_port_text(prefix: Seq<char>, host: Seq<char>, port: u16) -> Seq<char> {
    prefix + host + seq![':'] + dec_digits(port as nat)
}

/// Splits `<host>:<port>` at its first colon; the port is all that follows.
pub open spec fn split_host_port(t: Seq<char>) -> Option<(Seq<char>, u16)> {
    if exists|i: int| first_colon_at(t, i) {
        let i = choose|i: int| first_colon_at(t, i);
        match port_of(t.skip(i + 1)) {
            Some(p) => Some((t.take(i), p)),
            None => None,
        }
    } else {
        None
    }
}

/// The host and port that a network descriptor with the given prefix names.
pub open spec fn parse_host_port(prefix: Seq<char>, s: Seq<char>) -> Option<(Seq<char>, u16)> {
    if starts_with(s, prefix) {
        split_host_port(s.skip(prefix.len() as int))
    } else {
        None
    }
}

fn file_prefix_text() -> (r: &'static str)
    ensures
        r@ == file_prefix(),
{
    proof { reveal_strlit("file:"); }
    "file:"
}

fn tcp_client_prefix_text() -> (r: &'static str)
    ensures
        r@ == tcp_client_prefix(),
{
    proof { reveal_strlit("tcp_client:"); }
    "tcp_client:"
}

fn tcp_server_prefix_text() -> (r: &'static str)
    ensures
        r@ == tcp_server_prefix(),
{
    proof { reveal_strlit("tcp_server:"); }
    "tcp_server:"
}

fn udp_prefix_text() -> (r: &'static str)
    ensures
        r@ == udp_prefix(),
{
    proof { reveal_strlit("udp:"); }
    "udp:"
}

/// Writes `<prefix><host>:<port>`.
fn format_host_port(prefix: &str, host: &String, port: u16) -> (r: String)
    ensures
        r@ == host_port_text(prefix@, host@, port),
{
    let mut r = String::from_str(prefix);
    r.append(host.as_str());
    proof { reveal_strlit(":"); }
    r.append(":");
    push_decimal(&mut r, port);
    r
}

/// Reads `<prefix><host>:<port>`.
fn parse_host_port_text(s: &str, prefix: &str) -> (r: Option<(String, u16)>)
    ensures
        match r {
            Some((h, p)) => parse_host_port(prefix@, s@) == Some((h@, p)),
            None => parse_host_port(prefix@, s@) is None,
        },
{
    if !has_prefix(s, prefix) {
        return None;
    }
    let n = s.unicode_len();
    let rest = s.substring_char(prefix.unicode_len(), n);
    assert(rest@ =~= s@.skip(prefix@.len() as int));
    match find_colon(rest) {
        None => {
            assert(!exists|i: int| first_colon_at(rest@, i));
            None
        },
        Some(i) => {
            let m = rest.unicode_len();
            let host = rest.substring_char(0, i);
            let port_text = rest.substring_char(i + 1, m);
            proof {
                assert forall|j: int| first_colon_at(rest@, j) implies j == i by {
                    lemma_first_colon_unique(rest@, i as int, j);
                }
                assert(host@ =~= rest@.take(i as int));
                assert(port_text@ =~= rest@.skip(i + 1));
            }
            match parse_port(port_text) {
                Some(p) => Some((String::from_str(host), p)),
                None => None,
            }
        },
    }
}

/// The error for a descriptor text that does not parse.
#[derive(Debug, Clone, Copy, PartialEq, Eq)]
pub struct StreamSettingsParseError;

impl StreamSettingsParseError {
    pub fn description(&self) -> (r: &'static str) {
        "error parsing stream settings"
    }

    pub fn to_string(&self) -> (r: String) {
        String::from_str(self.description())
    }
}

/// Everything needed to open a file as an input or output stream.
#[derive(Debug, Clone, PartialEq, Eq)]
pub struct FileSettings {
    pub file_name: String,
}

impl Default for FileSettings {
    fn default() -> (r: Self)
        ensures
            r.file_name@ == seq!['d', 'a', 't', 'a', '.', 'b', 'i', 'n'],
    {
        proof { reveal_strlit("data.bin"); }
        FileSettings { file_name: String::from_str("data.bin") }
    }
}

impl FileSettings {
    /// Reads `file:<path>`.
    pub fn from_str(s: &str) -> (r: Result<FileSettings, StreamSettingsParseError>)
        ensures
            match r {
                Ok(f) => parse_file(s@) == Some(f.file_name@),
                Err(_) => parse_file(s@) is None,
            },
    {
        let prefix = file_prefix_text();
        if has_prefix(s, prefix) {
            let rest = s.substring_char(prefix.unicode_len(), s.unicode_len());
            assert(rest@ =~= s@.skip(file_prefix().len() as int));
            Ok(FileSettings { file_name: String::from_str(rest) })
        } else {
            Err(StreamSettingsParseError)
        }
    }

    /// Writes `file:<path>`.
    pub fn to_string(&self) -> (r: String)
        ensures
            r@ == file_text(self.file_name@),
    {
        let mut r = String::from_str(file_prefix_text());
        r.append(self.file_name.as_str());
        r
    }
}

/// Everything needed to connect to a TCP server and use the connection as a stream.
#[derive(Debug, Clone, PartialEq, Eq)]
pub struct TcpClientSettings {
    pub port: u16,
    pub ip: String,
}

impl Default for TcpClientSettings {
    fn default() -> (r: Self)
        ensures
            r.port == 8000,
            r.ip@ == seq!['1', '2', '7', '.', '0', '.', '0', '.', '1'],
    {
        proof { reveal_strlit("127.0.0.1"); }
        TcpClientSettings { port: 8000, ip: String::from_str("127.0.0.1") }
    }
}

impl TcpClientSettings {
    /// Reads `tcp_client:<host>:<port>`.
    pub fn from_str(s: &str) -> (r: Result<TcpClientSettings, StreamSettingsParseError>)
        ensures
            match r {
                Ok(t) => parse_host_port(tcp_client_prefix(), s@) == Some((t.ip@, t.port)),
                Err(_) => parse_host_port(tcp_client_prefix(), s@) is None,
            },
    {
        match parse_host_port_text(s, tcp_client_prefix_text()) {
            Some((ip, port)) => Ok(TcpClientSettings { port, ip }),
            None => Err(StreamSettingsParseError),
        }
    }

    /// Writes `tcp_client:<host>:<port>`.
    pub fn to_string(&self) -> (r: String)
        ensures
            r@ == host_port_text(tcp_client_prefix(), self.ip@, self.port),
    {
        format_host_port(tcp_client_prefix_text(), &self.ip, self.port)
    }
}

/// Everything needed to accept one TCP connection and use it as a stream.
#[derive(Debug, Clone, PartialEq, Eq)]
pub struct TcpServerSettings {
    pub port: u16,
    pub ip: String,
}

impl Default for TcpServerSettings {
    fn default() -> (r: Self)
        ensures
            r.port == 8000,
            r.ip@ == seq!['1', '2', '7', '.', '0', '.', '0', '.', '1'],
    {
        proof { reveal_strlit("127.0.0.1"); }
        TcpServerSettings { port: 8000, ip: String::from_str("127.0.0.1") }
    }
}

impl TcpServerSettings {
    /// Reads `tcp_server:<host>:<port>`.
    pub fn from_str(s: &str) -> (r: Result<TcpServerSettings, StreamSettingsParseError>)
        ensures
            match r {
                Ok(t) => parse_host_port(tcp_server_prefix(), s@) == Some((t.ip@, t.port)),
                Err(_) => parse_host_port(tcp_server_prefix(), s@) is None,
            },
    {
        match parse_host_port_text(s, tcp_server_prefix_text()) {
            Some((ip, port)) => Ok(TcpServerSettings { port, ip }),
            None => Err(StreamSettingsParseError),
        }
    }

    /// Writes `tcp_server:<host>:<port>`.
    pub fn to_string(&self) -> (r: String)
        ensures
            r@ == host_port_text(tcp_server_prefix(), self.ip@, self.port),
    {
        format_host_port(tcp_server_prefix_text(), &self.ip, self.port)
    }
}

/// Everything needed to open a UDP socket and use it as a stream.
#[derive(Debug, Clone, PartialEq, Eq)]
pub struct UdpSettings {
    pub port: u16,
    pub ip: String,
}

impl Default for UdpSettings {
    fn default() -> (r: Self)
        ensures
            r.port == 8001,
            r.ip@ == seq!['1', '2', '7', '.', '0', '.', '0', '.', '1'],
    {
        proof { reveal_strlit("127.0.0.1"); }
        UdpSettings { port: 8001, ip: String::from_str("127.0.0.1") }
    }
}

impl UdpSettings {
    /// Reads `udp:<host>:<port>`.
    pub fn from_str(s: &str) -> (r: Result<UdpSettings, StreamSettingsParseError>)
        ensures
            match r {
                Ok(t) => parse_host_port(udp_prefix(), s@) == Some((t.ip@, t.port)),
                Err(_) => parse_host_port(udp_prefix(), s@) is None,
            },
    {
        match parse_host_port_text(s, udp_prefix_text()) {
            Some((ip, port)) => Ok(UdpSettings { port, ip }),
            None => Err(StreamSettingsParseError),
        }
    }

    /// Writes `udp:<host>:<port>`.
    pub fn to_string(&self) -> (r: String)
        ensures
            r@ == host_port_text(udp_prefix(), self.ip@, self.port),
    {
        format_host_port(udp_prefix_text(), &self.ip, self.port)
    }
}

/// The kind of stream that an input or output is.
#[derive(Debug, Clone, Copy, PartialEq, Eq, Structural)]
pub enum StreamOption {
    /// The stream is a file
    File,
    /// The stream is a TCP client with a given port
    TcpClient,
    /// The stream is a TCP server with a given port
    TcpServer,
    /// The stream is a UDP socket with a given port
    Udp,
}

/// What a descriptor names, as plain values.
pub enum Descriptor {
    File(Seq<char>),
    TcpClient(Seq<char>, u16),
    TcpServer(Seq<char>, u16),
    Udp(Seq<char>, u16),
}

/// The text of a descriptor.
pub open spec fn descriptor_text(d: Descriptor) -> Seq<char> {
    match d {
        Descriptor::File(path) => file_text(path),
        Descriptor::TcpClient(h, p) => host_port_text(tcp_client_prefix(), h, p),
        Descriptor::TcpServer(h, p) => host_port_text(tcp_server_prefix(), h, p),
        Descriptor::Udp(h, p) => host_port_text(udp_prefix(), h, p),
    }
}

/// The descriptor that a text names: the kind is told by the prefix.
pub open spec fn parse_descriptor(s: Seq<char>) -> Option<Descriptor> {
    if starts_with(s, file_prefix()) {
        match parse_file(s) {
            Some(path) => Some(Descriptor::File(path)),
            None => None,
        }
    } else if starts_with(s, tcp_client_prefix()) {
        match parse_host_port(tcp_client_prefix(), s) {
            Some((h, p)) => Some(Descriptor::TcpClient(h, p)),
            None => None,
        }
    } else if starts_with(s, tcp_server_prefix()) {
        match parse_host_port(tcp_server_prefix(), s) {
            Some((h, p)) => Some(Descriptor::TcpServer(h, p)),
            None => None,
        }
    } else {
        match parse_host_port(udp_prefix(), s) {
            Some((h, p)) => Some(Descriptor::Udp(h, p)),
            None => None,
        }
    }
}

/// Whether a descriptor can be written and read back: a host holds no colon.
pub open spec fn is_writable_descriptor(d: Descriptor) -> bool {
    match d {
        Descriptor::File(_) => true,
        Descriptor::TcpClient(h, _) => has_no_colon(h),
        Descriptor::TcpServer(h, _) => has_no_colon(h),
        Descriptor::Udp(h, _) => has_no_colon(h),
    }
}

/// One resolved endpoint: its kind together with the settings that open it.
#[derive(Debug, Clone, PartialEq, Eq)]
pub enum Endpoint {
    File(FileSettings),
    TcpClient(TcpClientSettings),
    TcpServer(TcpServerSettings),
    Udp(UdpSettings),
}

impl View for Endpoint {
    type V = Descriptor;

    open spec fn view(&self) -> Descriptor {
        match self {
            Endpoint::File(f) => Descriptor::File(f.file_name@),
            Endpoint::TcpClient(t) => Descriptor::TcpClient(t.ip@, t.port),
            Endpoint::TcpServer(t) => Descriptor::TcpServer(t.ip@, t.port),
            Endpoint::Udp(u) => Descriptor::Udp(u.ip@, u.port),
        }
    }
}

impl StreamOption {
    /// The kind that an integer stands for: 1 a file, 2 a TCP client, 3 a TCP
    /// server, 4 a UDP socket.
    pub fn from_u64(n: u64) -> (r: Option<StreamOption>)
        ensures
            r == option_from_value(n as int),
    {
        match n {
            1 => Some(StreamOption::File),
            2 => Some(StreamOption::TcpClient),
            3 => Some(StreamOption::TcpServer),
            4 => Some(StreamOption::Udp),
            _ => None,
        }
    }

    /// The integer that stands for this kind.
    pub fn to_u64(&self) -> (r: u64)
        ensures
            option_from_value(r as int) == Some(*self),
    {
        match self {
            StreamOption::File => 1,
            StreamOption::TcpClient => 2,
            StreamOption::TcpServer => 3,
            StreamOption::Udp => 4,
        }
    }
}

pub open spec fn option_from_value(n: int) -> Option<StreamOption> {
    if n == 1 {
        Some(StreamOption::File)
    } else if n == 2 {
        Some(StreamOption::TcpClient)
    } else if n == 3 {
        Some(StreamOption::TcpServer)
    } else if n == 4 {
        Some(StreamOption::Udp)
    } else {
        None
    }
}

impl Endpoint {
    /// Reads a descriptor of any of the four kinds.
    pub fn from_str(s: &str) -> (r: Result<Endpoint, StreamSettingsParseError>)
        ensures
            match r {
                Ok(e) => parse_descriptor(s@) == Some(e@),
                Err(_) => parse_descriptor(s@) is None,
            },
    {
        if has_prefix(s, file_prefix_text()) {
            match FileSettings::from_str(s) {
                Ok(f) => Ok(Endpoint::File(f)),
                Err(e) => Err(e),
            }
        } else if has_prefix(s, tcp_client_prefix_text()) {
            match TcpClientSettings::from_str(s) {
                Ok(t) => Ok(Endpoint::TcpClient(t)),
                Err(e) => Err(e),
            }
        } else if has_prefix(s, tcp_server_prefix_text()) {
            match TcpServerSettings::from_str(s) {
                Ok(t) => Ok(Endpoint::TcpServer(t)),
                Err(e) => Err(e),
            }
        } else {
            match UdpSettings::from_str(s) {
                Ok(u) => Ok(Endpoint::Udp(u)),
                Err(e) => Err(e),
            }
        }
    }

    /// Writes the descriptor text.
    pub fn to_string(&self) -> (r: String)
        ensures
            r@ == descriptor_text(self@),
    {
        match self {
            Endpoint::File(f) => f.to_string(),
            Endpoint::TcpClient(t) => t.to_string(),
            Endpoint::TcpServer(t) => t.to_string(),
            Endpoint::Udp(u) => u.to_string(),
        }
    }

    /// The kind of the endpoint.
    pub fn option(&self) -> (r: StreamOption)
        ensures
            r == option_of(self@),
    {
        match self {
            Endpoint::File(_) => StreamOption::File,
            Endpoint::TcpClient(_) => StreamOption::TcpClient,
            Endpoint::TcpServer(_) => StreamOption::TcpServer,
            Endpoint::Udp(_) => StreamOption::Udp,
        }
    }
}

pub open spec fn option_of(d: Descriptor) -> StreamOption {
    match d {
        Descriptor::File(_) => StreamOption::File,
        Descriptor::TcpClient(_, _) => StreamOption::TcpClient,
        Descriptor::TcpServer(_, _) => StreamOption::TcpServer,
        Descriptor::Udp(_, _) => StreamOption::Udp,
    }
}

impl std::str::FromStr for FileSettings {
    type Err = StreamSettingsParseError;

    fn from_str(s: &str) -> Result<FileSettings, StreamSettingsParseError> {
        FileSettings::from_str(s)
    }
}

impl std::str::FromStr for TcpClientSettings {
    type Err = StreamSettingsParseError;

    fn from_str(s: &str) -> Result<TcpClientSettings, StreamSettingsParseError> {
        TcpClientSettings::from_str(s)
    }
}

impl std::str::FromStr for TcpServerSettings {
    type Err = StreamSettingsParseError;

    fn from_str(s: &str) -> Result<TcpServerSettings, StreamSettingsParseError> {
        TcpServerSettings::from_str(s)
    }
}

impl std::str::FromStr for UdpSettings {
    type Err = StreamSettingsParseError;

    fn from_str(s: &str) -> Result<UdpSettings, StreamSettingsParseError> {
        UdpSettings::from_str(s)
    }
}

impl std::str::FromStr for Endpoint {
    type Err = StreamSettingsParseError;

    fn from_str(s: &str) -> Result<Endpoint, StreamSettingsParseError> {
        Endpoint::from_str(s)
    }
}

/// The settings of every kind of stream; a `StreamOption` picks one of them.
#[derive(Debug, Clone, PartialEq, Eq)]
pub struct StreamSettings {
    pub file: FileSettings,
    pub tcp_client: TcpClientSettings,
    pub tcp_server: TcpServerSettings,
    pub udp: UdpSettings,
}

impl Default for StreamSettings {
    fn default() -> (r: Self)
        ensures
            r.file.file_name@ == seq!['d', 'a', 't', 'a', '.', 'b', 'i', 'n'],
            r.tcp_client.port == 8000,
            r.tcp_client.ip@ == seq!['1', '2', '7', '.', '0', '.', '0', '.', '1'],
            r.tcp_server.port == 8000,
            r.tcp_server.ip@ == seq!['1', '2', '7', '.', '0', '.', '0', '.', '1'],
            r.udp.port == 8001,
            r.udp.ip@ == seq!['1', '2', '7', '.', '0', '.', '0', '.', '1'],
    {
        StreamSettings {
            file: FileSettings::default(),
            tcp_client: TcpClientSettings::default(),
            tcp_server: TcpServerSettings::default(),
            udp: UdpSettings::default(),
        }
    }
}

pub open spec fn settings_descriptor(s: StreamSettings, option: StreamOption) -> Descriptor {
    match option {
        StreamOption::File => Descriptor::File(s.file.file_name@),
        StreamOption::TcpClient => Descriptor::TcpClient(s.tcp_client.ip@, s.tcp_client.port),
        StreamOption::TcpServer => Descriptor::TcpServer(s.tcp_server.ip@, s.tcp_server.port),
        StreamOption::Udp => Descriptor::Udp(s.udp.ip@, s.udp.port),
    }
}

impl StreamSettings {
    /// The endpoint that `option` selects from these settings.
    pub fn endpoint(&self, option: StreamOption) -> (r: Endpoint)
        ensures
            r@ == settings_descriptor(*self, option),
    {
        match option {
            StreamOption::File => Endpoint::File(
                FileSettings { file_name: self.file.file_name.clone() },
            ),
            StreamOption::TcpClient => Endpoint::TcpClient(
                TcpClientSettings { port: self.tcp_client.port, ip: self.tcp_client.ip.clone() },
            ),
            StreamOption::TcpServer => Endpoint::TcpServer(
                TcpServerSettings { port: self.tcp_server.port, ip: self.tcp_server.ip.clone() },
            ),
            StreamOption::Udp => Endpoint::Udp(
                UdpSettings { port: self.udp.port, ip: self.udp.ip.clone() },
            ),
        }
    }

    /// Stores the settings of `e` in the slot of its kind and returns that kind.
    pub fn set_endpoint(&mut self, e: Endpoint) -> (r: StreamOption)
        ensures
            r == option_of(e@),
            settings_descriptor(*final(self), r) == e@,
            r != StreamOption::File ==> final(self).file == old(self).file,
            r != StreamOption::TcpClient ==> final(self).tcp_client == old(self).tcp_client,
            r != StreamOption::TcpServer ==> final(self).tcp_server == old(self).tcp_server,
            r != StreamOption::Udp ==> final(self).udp == old(self).udp,
    {
        match e {
            Endpoint::File(f) => {
                self.file = f;
                StreamOption::File
            },
            Endpoint::TcpClient(t) => {
                self.tcp_client = t;
                StreamOption::TcpClient
            },
            Endpoint::TcpServer(t) => {
                self.tcp_server = t;
                StreamOption::TcpServer
            },
            Endpoint::Udp(u) => {
                self.udp = u;
                StreamOption::Udp
            },
        }
    }
}

/// Reading back the text of a file descriptor gives its path.
pub proof fn lemma_file_round_trip(path: Seq<char>)
    ensures
        parse_file(file_text(path)) == Some(path),
{
    let s = file_text(path);
    assert(s.take(file_prefix().len() as int) =~= file_prefix());
    assert(s.skip(file_prefix().len() as int) =~= path);
}

/// Reading back the text of a network descriptor gives its host and port,
/// for any host without a colon.
pub proof fn lemma_host_port_round_trip(prefix: Seq<char>, host: Seq<char>, port: u16)
    requires
        has_no_colon(host),
    ensures
        parse_host_port(prefix, host_port_text(prefix, host, port)) == Some((host, port)),
{
    let s = host_port_text(prefix, host, port);
    let digits = dec_digits(port as nat);
    let t = s.skip(prefix.len() as int);
    let i = host.len() as int;
    assert(s.take(prefix.len() as int) =~= prefix);
    assert(t =~= host + seq![':'] + digits);
    assert(t.take(i) =~= host);
    assert(t[i] == ':');
    assert(first_colon_at(t, i));
    assert forall|j: int| first_colon_at(t, j) implies j == i by {
        lemma_first_colon_unique(t, i, j);
    }
    assert(t.skip(i + 1) =~= digits);
    lemma_port_text_round_trip(port);
}

/// Formatting a descriptor and parsing the text gives the descriptor back,
/// for every kind; a host must hold no colon, since the first colon after
/// the prefix ends it.
pub proof fn lemma_descriptor_round_trip(d: Descriptor)
    requires
        is_writable_descriptor(d),
    ensures
        parse_descriptor(descriptor_text(d)) == Some(d),
{
    let s = descriptor_text(d);
    match d {
        Descriptor::File(path) => {
            lemma_file_round_trip(path);
            assert(s.take(file_prefix().len() as int) =~= file_prefix());
        },
        Descriptor::TcpClient(h, p) => {
            lemma_host_port_round_trip(tcp_client_prefix(), h, p);
            assert(s.take(file_prefix().len() as int)[0] != file_prefix()[0]);
            assert(s.take(tcp_client_prefix().len() as int) =~= tcp_client_prefix());
        },
        Descriptor::TcpServer(h, p) => {
            lemma_host_port_round_trip(tcp_server_prefix(), h, p);
            assert(s.take(file_prefix().len() as int)[0] != file_prefix()[0]);
            assert(s.take(tcp_client_prefix().len() as int)[4] != tcp_client_prefix()[4]);
            assert(s.take(tcp_server_prefix().len() as int) =~= tcp_server_prefix());
        },
        Descriptor::Udp(h, p) => {
            lemma_host_port_round_trip(udp_prefix(), h, p);
            assert(s.take(file_prefix().len() as int)[0] != file_prefix()[0]);
            if s.len() >= tcp_client_prefix().len() {
                assert(s.take(tcp_client_prefix().len() as int)[0] != tcp_client_prefix()[0]);
                assert(s.take(tcp_server_prefix().len() as int)[0] != tcp_server_prefix()[0]);
            }
        },
    }
}

} // verus!
