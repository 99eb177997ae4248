//! Setting up a connection: what the client announces, the steps of connecting, and the key of
//! the server.
use vstd::prelude::*;
use x509_cert::der::Decode;

use crate::config::Server;

verus! {

/// The kind of keyboard that the client announces.
#[derive(Debug, Clone, Copy, PartialEq, Eq, Structural)]
pub enum KeyboardType {
    /// The enhanced keyboard with 101 or 102 keys.
    IbmEnhanced,
}

/// The platform that the client announces.
#[derive(Debug, Clone, Copy, PartialEq, Eq, Structural)]
pub enum Platform {
    Macintosh,
}

/// The bitmap codecs that the client announces.
#[derive(Debug, Clone, Copy, PartialEq, Eq, Structural)]
pub enum BitmapSettings {
    /// The usual ones.
    Unset,
}

/// Where the client keeps licenses.
#[derive(Debug, Clone, Copy, PartialEq, Eq, Structural)]
pub enum LicenseCache {
    /// Nowhere.
    Unset,
}

/// What the connection request carries besides the protocols.
#[derive(Debug)]
pub enum RequestData {
    RoutingToken(String),
    Cookie(String),
}

/// A bulk compression that the client announces.
#[derive(Debug, Clone, Copy, PartialEq, Eq, Structural)]
pub enum CompressionType {
    K8,
    K64,
    Rdp6,
    Rdp61,
}

/// A date on which the clock of a time zone changes.
#[derive(Debug, Clone, Copy, PartialEq, Eq, Structural)]
pub enum ChangeDate {
    /// There is none.
    Unset,
}

/// The time zone that the client announces.
#[derive(Debug)]
pub struct TimeZone {
    pub bias: i32,
    pub standard_name: String,
    pub standard_date: ChangeDate,
    pub standard_bias: i32,
    pub daylight_name: String,
    pub daylight_date: ChangeDate,
    pub daylight_bias: i32,
}

impl TimeZone {
    /// No bias, no names and no dates.
    pub open spec fn is_blank(self) -> bool {
        &&& self.bias == 0
        &&& self.standard_name@ == Seq::<char>::empty()
        &&& self.standard_date == ChangeDate::Unset
        &&& self.standard_bias == 0
        &&& self.daylight_name@ == Seq::<char>::empty()
        &&& self.daylight_date == ChangeDate::Unset
        &&& self.daylight_bias == 0
    }
}

/// What the client tells the server about itself.
#[derive(Debug)]
pub struct ConnectorConfig {
    pub username: String,
    pub password: String,
    /// `None` for a local account.
    pub domain: Option<String>,
    pub enable_tls: bool,
    pub enable_credssp: bool,
    pub keyboard_type: KeyboardType,
    pub keyboard_subtype: u32,
    pub keyboard_layout: u32,
    pub keyboard_functional_keys_count: u32,
    pub ime_file_name: String,
    pub dig_product_id: String,
    pub width: u16,
    pub height: u16,
    pub client_build: u32,
    pub client_name: String,
    pub client_dir: String,
    pub platform: Platform,
    pub enable_server_pointer: bool,
    pub autologon: bool,
    pub enable_audio_playback: bool,
    pub pointer_software_rendering: bool,
    pub performance_flags: u32,
    pub desktop_scale_factor: u32,
    pub alternate_shell: String,
    pub work_dir: String,
    pub bitmap: BitmapSettings,
    /// `None` for a cookie with the user name.
    pub request_data: Option<RequestData>,
    /// `None` for no compression.
    pub compression_type: Option<CompressionType>,
    pub multitransport_flags: Option<u32>,
    pub hardware_id: Option<[u32; 4]>,
    pub license_cache: LicenseCache,
    pub time_zone: TimeZone,
}

/// The domain to announce: none where the text is empty.
pub open spec fn announced_domain(domain: Seq<char>) -> Option<Seq<char>> {
    if domain.len() == 0 {
        None
    } else {
        Some(domain)
    }
}

impl ConnectorConfig {
    /// The login and the desktop size are as given.
    pub open spec fn asks_for(
        self,
        username: Seq<char>,
        password: Seq<char>,
        domain: Seq<char>,
        width: u16,
        height: u16,
    ) -> bool {
        &&& self.username@ == username
        &&& self.password@ == password
        &&& match self.domain {
            Some(text) => announced_domain(domain) == Some(text@),
            None => announced_domain(domain) is None,
        }
        &&& self.width == width
        &&& self.height == height
    }

    /// Everything that is the same for all connections.
    pub open spec fn has_fixed_settings(self) -> bool {
        &&& self.enable_tls
        &&& self.enable_credssp
        &&& self.keyboard_type == KeyboardType::IbmEnhanced
        &&& self.keyboard_subtype == 0
        &&& self.keyboard_layout == 0
        &&& self.keyboard_functional_keys_count == 12
        &&& self.ime_file_name@ == Seq::<char>::empty()
        &&& self.dig_product_id@ == Seq::<char>::empty()
        &&& self.client_build == 0
        &&& self.client_name@ == "rustrdp"@
        &&& self.client_dir@ == "C:\\Windows\\System32\\mstscax.dll"@
        &&& self.platform == Platform::Macintosh
        &&& self.enable_server_pointer
        &&& !self.autologon
        &&& !self.enable_audio_playback
        &&& self.pointer_software_rendering
        &&& self.performance_flags == 0x86
        &&& self.desktop_scale_factor == 0
        &&& self.alternate_shell@ == Seq::<char>::empty()
        &&& self.work_dir@ == Seq::<char>::empty()
        &&& self.bitmap == BitmapSettings::Unset
        &&& self.request_data is None
        &&& self.compression_type is None
        &&& self.multitransport_flags is None
        &&& self.hardware_id is None
        &&& self.license_cache == LicenseCache::Unset
        &&& self.time_zone.is_blank()
    }
}

/// The bits of `ironrdp::pdu::rdp::client_info::PerformanceFlags::default`: full-window drag and
/// menu animations off (0x2, 0x4), font smoothing on (0x80).
#[verifier::external_body]
fn default_performance_flags() -> (flags: u32)
    ensures
        flags == 0x86,
{
    ironrdp::pdu::rdp::client_info::PerformanceFlags::default().bits()
}

/// What the client announces for a login and a desktop size.
pub fn build_config(
    _server: &Server,
    username: &str,
    password: &str,
    domain: &str,
    width: u16,
    height: u16,
) -> (config: ConnectorConfig)
    ensures
        config.asks_for(username@, password@, domain@, width, height),
        config.has_fixed_settings(),
{
    let domain = if domain.is_empty() {
        None
    } else {
        Some(domain.to_owned())
    };
    ConnectorConfig {
        username: username.to_owned(),
        password: password.to_owned(),
        domain,
        enable_tls: true,
        enable_credssp: true,
        keyboard_type: KeyboardType::IbmEnhanced,
        keyboard_subtype: 0,
        keyboard_layout: 0,
        keyboard_functional_keys_count: 12,
        ime_file_name: String::new(),
        dig_product_id: String::new(),
        width,
        height,
        client_build: 0,
        client_name: "rustrdp".to_owned(),
        client_dir: "C:\\Windows\\System32\\mstscax.dll".to_owned(),
        platform: Platform::Macintosh,
        enable_server_pointer: true,
        autologon: false,
        enable_audio_playback: false,
        pointer_software_rendering: true,
        performance_flags: default_performance_flags(),
        desktop_scale_factor: 0,
        alternate_shell: String::new(),
        work_dir: String::new(),
        bitmap: BitmapSettings::Unset,
        request_data: None,
        compression_type: None,
        multitransport_flags: None,
        hardware_id: None,
        license_cache: LicenseCache::Unset,
        time_zone: TimeZone {
            bias: 0,
            standard_name: String::new(),
            standard_date: ChangeDate::Unset,
            standard_bias: 0,
            daylight_name: String::new(),
            daylight_date: ChangeDate::Unset,
            daylight_bias: 0,
        },
    }
}

/// A static channel of a connection.
#[derive(Debug, Clone, Copy, PartialEq, Eq, Structural)]
pub enum StaticChannel {
    /// Dynamic channels, with display control among them.
    DynamicChannels,
    /// The clipboard.
    Clipboard,
}

/// The static channels of a connection, in the order in which they are registered.
pub fn static_channels(clipboard: bool) -> (channels: Vec<StaticChannel>)
    ensures
        channels@ == if clipboard {
            seq![StaticChannel::DynamicChannels, StaticChannel::Clipboard]
        } else {
            seq![StaticChannel::DynamicChannels]
        },
{
    let mut channels: Vec<StaticChannel> = Vec::new();
    channels.push(StaticChannel::DynamicChannels);
    if clipboard {
        channels.push(StaticChannel::Clipboard);
    }
    channels
}

/// What is being done on the way to a connection.
#[derive(Debug, Clone, Copy, PartialEq, Eq, Structural)]
pub enum ConnectStage {
    /// The host name is looked up.
    Lookup,
    /// The TCP connection is made.
    Tcp,
    /// The local address of the connection is read.
    LocalAddress,
    /// The RDP negotiation begins, before TLS.
    Begin,
    /// The connection is upgraded to TLS.
    TlsUpgrade,
    /// The RDP negotiation is completed over TLS.
    Finalize,
    /// The connection stands.
    Connected,
}

/// `cause` in the context of what was being done.
pub open spec fn in_context(context: Seq<char>, cause: Seq<char>) -> Seq<char> {
    context + ": "@ + cause
}

/// `cause` in the context of what was being done.
pub fn with_context(context: &str, cause: &str) -> (text: String)
    ensures
        text@ == in_context(context@, cause@),
{
    let mut text = context.to_owned();
    text.append(": ");
    text.append(cause);
    text
}

impl ConnectStage {
    /// The stage that follows.
    pub open spec fn following(self) -> ConnectStage {
        match self {
            ConnectStage::Lookup => ConnectStage::Tcp,
            ConnectStage::Tcp => ConnectStage::LocalAddress,
            ConnectStage::LocalAddress => ConnectStage::Begin,
            ConnectStage::Begin => ConnectStage::TlsUpgrade,
            ConnectStage::TlsUpgrade => ConnectStage::Finalize,
            ConnectStage::Finalize => ConnectStage::Connected,
            ConnectStage::Connected => ConnectStage::Connected,
        }
    }

    /// What the stage is called in an error.
    pub open spec fn context(self) -> Seq<char> {
        match self {
            ConnectStage::Lookup => "lookup addr"@,
            ConnectStage::Tcp => "TCP connect"@,
            ConnectStage::LocalAddress => "get socket local address"@,
            ConnectStage::Begin => "begin connection"@,
            ConnectStage::TlsUpgrade => "TLS upgrade"@,
            ConnectStage::Finalize => "finalize connection"@,
            ConnectStage::Connected => "connected"@,
        }
    }

    /// The stage after one that ended well, or the text of the error after one that did not.
    pub fn advance(self, outcome: Result<(), &str>) -> (next: Result<ConnectStage, String>)
        requires
            self != ConnectStage::Connected,
        ensures
            match (outcome, next) {
                (Ok(_), Ok(stage)) => stage == self.following(),
                (Err(cause), Err(text)) => text@ == in_context(self.context(), cause@),
                _ => false,
            },
    {
        let (stage, context) = match self {
            ConnectStage::Lookup => (ConnectStage::Tcp, "lookup addr"),
            ConnectStage::Tcp => (ConnectStage::LocalAddress, "TCP connect"),
            ConnectStage::LocalAddress => (ConnectStage::Begin, "get socket local address"),
            ConnectStage::Begin => (ConnectStage::TlsUpgrade, "begin connection"),
            ConnectStage::TlsUpgrade => (ConnectStage::Finalize, "TLS upgrade"),
            ConnectStage::Finalize => (ConnectStage::Connected, "finalize connection"),
            ConnectStage::Connected => (ConnectStage::Connected, "connected"),
        };
        match outcome {
            Ok(_) => Ok(stage),
            Err(cause) => Err(with_context(context, cause)),
        }
    }
}

/// The address to connect to: the first that the host name was resolved to.
pub fn first_address<A>(addresses: Vec<A>) -> (address: Result<A, String>)
    ensures
        match address {
            Ok(address) => addresses@.len() > 0 && address == addresses@[0],
            Err(text) => addresses@.len() == 0 && text@ == "socket address not found"@,
        },
{
    let mut addresses = addresses;
    if addresses.len() == 0 {
        Err("socket address not found".to_owned())
    } else {
        Ok(addresses.remove(0))
    }
}

/// Why a DER encoding could not be read.
#[verifier::external_type_specification]
#[verifier::external_body]
pub struct ExDerError(x509_cert::der::Error);

/// Why the public key of the server is not known.
#[derive(Debug)]
pub enum PublicKeyError {
    /// The server has sent no certificate.
    MissingCertificate,
    /// The certificate cannot be read.
    Malformed(x509_cert::der::Error),
    /// The key in the certificate does not consist of whole bytes.
    Unaligned,
}

/// The subject public key that a DER certificate holds: `None` where the certificate cannot be
/// read, and `Some(None)` where the key does not consist of whole bytes.
pub uninterp spec fn certificate_key(cert: Seq<u8>) -> Option<Option<Seq<u8>>>;

/// What reading a certificate gave, as plain values.
pub open spec fn parsed_key(parsed: Result<Option<Vec<u8>>, x509_cert::der::Error>) -> Option<
    Option<Seq<u8>>,
> {
    match parsed {
        Ok(Some(key)) => Some(Some(key@)),
        Ok(None) => Some(None),
        Err(_) => None,
    }
}

/// Reads a certificate with `x509_cert::Certificate::from_der` and gives the bytes of its subject
/// public key, as `BitString::as_bytes` has them: `None` where the bit string has unused bits. The
/// outcome hangs on the bytes of the certificate alone.
#[verifier::external_body]
fn read_certificate_key(cert: &[u8]) -> (parsed: Result<Option<Vec<u8>>, x509_cert::der::Error>)
    ensures
        parsed_key(parsed) == certificate_key(cert@),
{
    let cert = x509_cert::Certificate::from_der(cert)?;
    let key = cert.tbs_certificate.subject_public_key_info.subject_public_key;
    Ok(key.as_bytes().map(|bytes| bytes.to_vec()))
}

/// The public key, given what reading the certificate gave.
pub fn public_key_of(parsed: Result<Option<Vec<u8>>, x509_cert::der::Error>) -> (key: Result<
    Vec<u8>,
    PublicKeyError,
>)
    ensures
        match (parsed, key) {
            (Ok(Some(bytes)), Ok(key)) => key@ == bytes@,
            (Ok(None), Err(error)) => error == PublicKeyError::Unaligned,
            (Err(cause), Err(error)) => error == PublicKeyError::Malformed(cause),
            _ => false,
        },
{
    match parsed {
        Ok(Some(bytes)) => Ok(bytes),
        Ok(None) => Err(PublicKeyError::Unaligned),
        Err(cause) => Err(PublicKeyError::Malformed(cause)),
    }
}

/// The public key in a certificate.
pub fn extract_tls_server_public_key(cert: &[u8]) -> (key: Result<Vec<u8>, PublicKeyError>)
    ensures
        match key {
            Ok(key) => certificate_key(cert@) == Some(Some(key@)),
            Err(PublicKeyError::Unaligned) => certificate_key(cert@) == Some(None::<Seq<u8>>),
            Err(PublicKeyError::Malformed(_)) => certificate_key(cert@) is None,
            Err(PublicKeyError::MissingCertificate) => false,
        },
{
    public_key_of(read_certificate_key(cert))
}

/// The public key of the server that sent the given certificates: the first is its own.
pub fn server_public_key(certificates: &Vec<Vec<u8>>) -> (key: Result<Vec<u8>, PublicKeyError>)
    ensures
        key matches Err(PublicKeyError::MissingCertificate) <==> certificates@.len() == 0,
        certificates@.len() > 0 ==> match key {
            Ok(key) => certificate_key(certificates@[0]@) == Some(Some(key@)),
            Err(PublicKeyError::Unaligned) => certificate_key(certificates@[0]@) == Some(
                None::<Seq<u8>>,
            ),
            Err(PublicKeyError::Malformed(_)) => certificate_key(certificates@[0]@) is None,
            Err(PublicKeyError::MissingCertificate) => false,
        },
{
    if certificates.len() == 0 {
        Err(PublicKeyError::MissingCertificate)
    } else {
        extract_tls_server_public_key(certificates[0].as_slice())
    }
}

impl PublicKeyError {
    /// The text of the error. That of a certificate that cannot be read is the parser's own, and
    /// is given.
    pub fn message(&self, parser_text: &str) -> (text: String)
        ensures
            text@ == match *self {
                PublicKeyError::MissingCertificate => "peer certificate is missing"@,
                PublicKeyError::Malformed(_) => parser_text@,
                PublicKeyError::Unaligned => "subject public key BIT STRING is not aligned"@,
            },
    {
        match self {
            PublicKeyError::MissingCertificate => "peer certificate is missing".to_owned(),
            PublicKeyError::Malformed(_) => parser_text.to_owned(),
            PublicKeyError::Unaligned => "subject public key BIT STRING is not aligned".to_owned(),
        }
    }
}

/// A signature scheme of TLS.
#[allow(non_camel_case_types)]
#[derive(Debug, Clone, Copy, PartialEq, Eq, Structural)]
pub enum SignatureScheme {
    RSA_PKCS1_SHA1,
    ECDSA_SHA1_Legacy,
    RSA_PKCS1_SHA256,
    ECDSA_NISTP256_SHA256,
    RSA_PKCS1_SHA384,
    ECDSA_NISTP384_SHA384,
    RSA_PKCS1_SHA512,
    ECDSA_NISTP521_SHA512,
    RSA_PSS_SHA256,
    RSA_PSS_SHA384,
    RSA_PSS_SHA512,
    ED25519,
    ED448,
}

/// The signature schemes that the client offers, in order of preference.
pub open spec fn offered_schemes() -> Seq<SignatureScheme> {
    seq![
        SignatureScheme::RSA_PKCS1_SHA1,
        SignatureScheme::ECDSA_SHA1_Legacy,
        SignatureScheme::RSA_PKCS1_SHA256,
        SignatureScheme::ECDSA_NISTP256_SHA256,
        SignatureScheme::RSA_PKCS1_SHA384,
        SignatureScheme::ECDSA_NISTP384_SHA384,
        SignatureScheme::RSA_PKCS1_SHA512,
        SignatureScheme::ECDSA_NISTP521_SHA512,
        SignatureScheme::RSA_PSS_SHA256,
        SignatureScheme::RSA_PSS_SHA384,
        SignatureScheme::RSA_PSS_SHA512,
        SignatureScheme::ED25519,
        SignatureScheme::ED448,
    ]
}

/// The signature schemes that the client offers.
pub fn supported_verify_schemes() -> (schemes: Vec<SignatureScheme>)
    ensures
        schemes@ == offered_schemes(),
{
    let mut schemes: Vec<SignatureScheme> = Vec::new();
    schemes.push(SignatureScheme::RSA_PKCS1_SHA1);
    schemes.push(SignatureScheme::ECDSA_SHA1_Legacy);
    schemes.push(SignatureScheme::RSA_PKCS1_SHA256);
    schemes.push(SignatureScheme::ECDSA_NISTP256_SHA256);
    schemes.push(SignatureScheme::RSA_PKCS1_SHA384);
    schemes.push(SignatureScheme::ECDSA_NISTP384_SHA384);
    schemes.push(SignatureScheme::RSA_PKCS1_SHA512);
    schemes.push(SignatureScheme::ECDSA_NISTP521_SHA512);
    schemes.push(SignatureScheme::RSA_PSS_SHA256);
    schemes.push(SignatureScheme::RSA_PSS_SHA384);
    schemes.push(SignatureScheme::RSA_PSS_SHA512);
    schemes.push(SignatureScheme::ED25519);
    schemes.push(SignatureScheme::ED448);
    schemes
}

/// The settings that are the same for all connections, one by one.
pub proof fn law_fixed_settings_are_these(config: ConnectorConfig)
    requires
        config.has_fixed_settings(),
    ensures
        config.enable_tls && config.enable_credssp,
        config.keyboard_type == KeyboardType::IbmEnhanced,
        config.keyboard_subtype == 0 && config.keyboard_layout == 0,
        config.keyboard_functional_keys_count == 12,
        config.ime_file_name@.len() == 0 && config.dig_product_id@.len() == 0,
        config.client_build == 0,
        config.client_name@ == "rustrdp"@,
        config.client_dir@ == "C:\\Windows\\System32\\mstscax.dll"@,
        config.platform == Platform::Macintosh,
        config.enable_server_pointer && config.pointer_software_rendering,
        !config.autologon && !config.enable_audio_playback,
        config.performance_flags == 0x86,
        config.desktop_scale_factor == 0,
        config.alternate_shell@.len() == 0 && config.work_dir@.len() == 0,
        config.bitmap == BitmapSettings::Unset,
        config.request_data is None,
        config.compression_type is None,
        config.multitransport_flags is None,
        config.hardware_id is None,
        config.license_cache == LicenseCache::Unset,
        config.time_zone.bias == 0,
        config.time_zone.standard_bias == 0 && config.time_zone.daylight_bias == 0,
        config.time_zone.standard_name@.len() == 0 && config.time_zone.daylight_name@.len() == 0,
{
}

/// A configuration asks for the login and the size that it was made for: user name and password as
/// they are, the domain unless it is empty.
pub proof fn law_config_asks_for_the_login(
    config: ConnectorConfig,
    username: Seq<char>,
    password: Seq<char>,
    domain: Seq<char>,
    width: u16,
    height: u16,
)
    requires
        config.asks_for(username, password, domain, width, height),
    ensures
        config.username@ == username,
        config.password@ == password,
        config.domain is None <==> domain.len() == 0,
        config.domain matches Some(text) ==> text@ == domain,
        config.width == width,
        config.height == height,
{
}

/// The stages of connecting, by what stands before the cause of a failure, follow each other until
/// the connection stands.
pub proof fn law_stages_lead_to_a_connection()
    ensures
        ({
            let lookup = ConnectStage::Lookup;
            let tcp = lookup.following();
            let local = tcp.following();
            let begin = local.following();
            let tls = begin.following();
            let finalize = tls.following();
            &&& lookup.context() == "lookup addr"@
            &&& tcp.context() == "TCP connect"@
            &&& local.context() == "get socket local address"@
            &&& begin.context() == "begin connection"@
            &&& tls.context() == "TLS upgrade"@
            &&& finalize.context() == "finalize connection"@
            &&& finalize.following() == ConnectStage::Connected
        }),
        forall|context: Seq<char>, cause: Seq<char>| #[trigger]
            in_context(context, cause) == context + ": "@ + cause,
{
}

/// The place of a signature scheme among those that the client offers: the older ones with SHA-1
/// first, then RSA and ECDSA by the length of the hash, then RSA-PSS, then EdDSA.
pub open spec fn preference(scheme: SignatureScheme) -> int {
    match scheme {
        SignatureScheme::RSA_PKCS1_SHA1 => 0,
        SignatureScheme::ECDSA_SHA1_Legacy => 1,
        SignatureScheme::RSA_PKCS1_SHA256 => 2,
        SignatureScheme::ECDSA_NISTP256_SHA256 => 3,
        SignatureScheme::RSA_PKCS1_SHA384 => 4,
        SignatureScheme::ECDSA_NISTP384_SHA384 => 5,
        SignatureScheme::RSA_PKCS1_SHA512 => 6,
        SignatureScheme::ECDSA_NISTP521_SHA512 => 7,
        SignatureScheme::RSA_PSS_SHA256 => 8,
        SignatureScheme::RSA_PSS_SHA384 => 9,
        SignatureScheme::RSA_PSS_SHA512 => 10,
        SignatureScheme::ED25519 => 11,
        SignatureScheme::ED448 => 12,
    }
}

/// Every signature scheme is offered, each at its place and only there.
pub proof fn law_every_scheme_is_offered_once(scheme: SignatureScheme, i: int)
    ensures
        0 <= preference(scheme) < offered_schemes().len(),
        offered_schemes()[preference(scheme)] == scheme,
        0 <= i < offered_schemes().len() && offered_schemes()[i] == scheme ==> i == preference(
            scheme,
        ),
{
}

} // verus!
