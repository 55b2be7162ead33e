//! Plain TCP and TLS sockets of the modem: how a send is split, how much a
//! read asks for and keeps, how an open ends, when a peer close is seen, and
//! what setting up an SSL context sends.

use vstd::prelude::*;
use vstd::slice::SliceAdditionalExecFns;
use crate::quectel_atat::types::{
    cipher_suite_code, hex_u16_text, SslAuthenticationMode, SslCipherSuiteEnum, SslConfiguration,
    SslConfigurationView, SslIgnoreLocalTime, SslSniEnable, SslVersion,
};
use crate::quectel_atat::responses::{SslOpenResponse, SslUrcResponse, TcpOpenResponse, TcpUrcResponse};
use crate::quectel_atat::urc::Urc;
use crate::quectel_atat::{
    ConfigureSslCaCertificate, ConfigureSslCipherSuites, ConfigureSslClientCertificate,
    ConfigureSslClientPrivateKey, ConfigureSslIgnoreLocalTime, ConfigureSslSecurityLevel,
    ConfigureSslCheckHost, ConfigureSslSni, ConfigureSslVersion,
};
use crate::text::{chars_contain, str_contains};
use crate::ModemError;

verus! {

/// Most payload bytes one send command carries.
pub const SEND_CHUNK_SIZE: usize = 256;

/// Most bytes one socket read asks for.
pub const RECV_MAX: usize = 512;

/// Number of chunks `n` bytes are sent in.
pub open spec fn chunk_count(n: nat) -> nat {
    ((n + 255) / 256) as nat
}

/// The `k`-th chunk of `data`: 256 bytes, fewer for the last.
pub open spec fn chunk_of(data: Seq<u8>, k: int) -> Seq<u8> {
    let start = k * 256;
    let end = if start + 256 <= data.len() {
        start + 256
    } else {
        data.len() as int
    };
    data.subrange(start, end)
}

/// How a socket send splits `data`: nothing to send when it is empty,
/// `NotSupported` above 65535 bytes, else consecutive chunks of 256 bytes
/// (the last one shorter).
pub open spec fn send_chunks_ok(data: Seq<u8>, chunks: Seq<Vec<u8>>) -> bool {
    &&& chunks.len() == chunk_count(data.len())
    &&& forall|k: int| 0 <= k < chunks.len() ==> #[trigger] chunks[k]@ == chunk_of(data, k)
}

/// The bytes of `data` from `start` to `end`.
fn copy_range(data: &[u8], start: usize, end: usize) -> (c: Vec<u8>)
    requires
        start <= end <= data@.len(),
    ensures
        c@ == data@.subrange(start as int, end as int),
{
    let mut c: Vec<u8> = Vec::new();
    let mut i: usize = start;
    while i < end
        invariant
            start <= i <= end,
            end <= data@.len(),
            c@ == data@.subrange(start as int, i as int),
        decreases end - i,
    {
        c.push(data[i]);
        assert(data@.subrange(start as int, i + 1) =~= data@.subrange(start as int, i as int).push(
            data@[i as int],
        ));
        i = i + 1;
    }
    c
}

/// Split `data` into consecutive chunks of 256 bytes, the last one
/// shorter, as raw payload is sent to the modem.
pub fn payload_chunks(data: &[u8]) -> (chunks: Vec<Vec<u8>>)
    ensures
        send_chunks_ok(data@, chunks@),
{
    let n = data.len();
    let mut chunks: Vec<Vec<u8>> = Vec::new();
    let mut start: usize = 0;
    while start < n
        invariant
            n == data@.len(),
            start <= n,
            start < n ==> start == chunks@.len() * 256,
            start == n ==> chunks@.len() == chunk_count(n as nat),
            forall|k: int|
                0 <= k < chunks@.len() ==> #[trigger] chunks@[k]@ == chunk_of(data@, k),
        decreases n - start,
    {
        let k = chunks.len();
        let end = if n - start >= 256 {
            start + 256
        } else {
            n
        };
        let c = copy_range(data, start, end);
        assert(c@ == chunk_of(data@, k as int));
        chunks.push(c);
        proof {
            if end == n {
                assert(((n + 255) / 256) as nat == k + 1) by (nonlinear_arith)
                    requires
                        start == k * 256,
                        start < n <= start + 256,
                ;
            }
        }
        start = end;
    }
    if n == 0 {
        assert(chunk_count(0) == 0);
    }
    chunks
}

/// The contents of a list of chunks.
pub open spec fn chunk_views(chunks: Seq<Vec<u8>>) -> Seq<Seq<u8>> {
    chunks.map_values(|c: Vec<u8>| c@)
}

/// The first `m` chunks hold the first `256 m` bytes (all of them, at the
/// end).
proof fn lemma_chunks_prefix(data: Seq<u8>, chunks: Seq<Vec<u8>>, m: int)
    requires
        send_chunks_ok(data, chunks),
        0 <= m <= chunks.len(),
    ensures
        chunk_views(chunks).take(m).flatten_alt() == data.take(
            if m * 256 <= data.len() {
                m * 256
            } else {
                data.len() as int
            },
        ),
    decreases m,
{
    let views = chunk_views(chunks);
    if m == 0 {
        assert(data.take(0) =~= Seq::<u8>::empty());
    } else {
        lemma_chunks_prefix(data, chunks, m - 1);
        assert(views.take(m).drop_last() =~= views.take(m - 1));
        assert(views.take(m).last() == chunk_of(data, m - 1));
        assert((m - 1) * 256 < data.len()) by (nonlinear_arith)
            requires
                m <= (data.len() + 255) / 256,
                m >= 1,
        ;
        let prev_end = (m - 1) * 256;
        let end = if m * 256 <= data.len() {
            m * 256
        } else {
            data.len() as int
        };
        assert(data.take(prev_end) + data.subrange(prev_end, end) =~= data.take(end));
    }
}

/// The chunks of a send, in order, make up the data again, and none is
/// empty or longer than 256 bytes.
pub proof fn law_chunks_reassemble(data: Seq<u8>, chunks: Seq<Vec<u8>>)
    requires
        send_chunks_ok(data, chunks),
    ensures
        chunk_views(chunks).flatten() == data,
        forall|k: int| 0 <= k < chunks.len() ==> 0 < (#[trigger] chunks[k])@.len() <= 256,
{
    let views = chunk_views(chunks);
    lemma_chunks_prefix(data, chunks, chunks.len() as int);
    assert(views.take(chunks.len() as int) =~= views);
    assert(chunks.len() * 256 >= data.len()) by (nonlinear_arith)
        requires
            chunks.len() == (data.len() + 255) / 256,
    ;
    assert(data.take(data.len() as int) =~= data);
    views.lemma_flatten_and_flatten_alt_are_equivalent();
    assert forall|k: int| 0 <= k < chunks.len() implies 0 < (#[trigger] chunks[k])@.len() <= 256 by {
        assert(chunks[k]@ == chunk_of(data, k));
        assert(k * 256 < data.len()) by (nonlinear_arith)
            requires
                k < (data.len() + 255) / 256,
                k >= 0,
        ;
    }
}

/// Split `data` into the chunks a socket send writes: nothing for empty
/// data, `NotSupported` above 65535 bytes.
pub fn socket_send_chunks(data: &[u8]) -> (r: Result<Vec<Vec<u8>>, ModemError>)
    ensures
        data@.len() > 65535 ==> r == Err::<Vec<Vec<u8>>, ModemError>(ModemError::NotSupported),
        data@.len() <= 65535 ==> (r matches Ok(chunks) && send_chunks_ok(data@, chunks@)),
{
    if data.len() > 65535 {
        return Err(ModemError::NotSupported);
    }
    Ok(payload_chunks(data))
}

/// How many bytes a socket read asks for, given the buffer size: at most
/// 512. Nothing is asked for (and nothing read) for an empty buffer.
pub open spec fn read_request(buf_len: nat) -> nat {
    if buf_len < 512 {
        buf_len
    } else {
        512
    }
}

/// The length of a socket read command for a buffer of `buf_len` bytes.
pub fn socket_read_length(buf_len: usize) -> (n: u16)
    ensures
        n == read_request(buf_len as nat),
{
    if buf_len < 512 {
        buf_len as u16
    } else {
        512
    }
}

/// Bytes a read response hands over: no more than it announced, than it
/// holds, and than the buffer takes.
pub open spec fn read_copy_len(length: u16, data_len: nat, buf_len: nat) -> nat {
    let a = if (length as nat) < data_len {
        length as nat
    } else {
        data_len
    };
    if a < buf_len {
        a
    } else {
        buf_len
    }
}

/// Copy the bytes of a read response into `buf`; returns how many.
pub fn copy_socket_read(length: u16, data: &[u8], buf: &mut [u8]) -> (n: usize)
    ensures
        n == read_copy_len(length, data@.len(), old(buf)@.len()),
        final(buf)@.len() == old(buf)@.len(),
        final(buf)@.subrange(0, n as int) == data@.subrange(0, n as int),
        final(buf)@.subrange(n as int, final(buf)@.len() as int) == old(buf)@.subrange(
            n as int,
            old(buf)@.len() as int,
        ),
{
    let mut n: usize = if (length as usize) < data.len() {
        length as usize
    } else {
        data.len()
    };
    if buf.len() < n {
        n = buf.len();
    }
    let mut i: usize = 0;
    while i < n
        invariant
            i <= n,
            n <= data@.len(),
            n <= buf@.len(),
            buf@.len() == old(buf)@.len(),
            forall|k: int| 0 <= k < i ==> buf@[k] == data@[k],
            forall|k: int| i <= k < buf@.len() ==> buf@[k] == old(buf)@[k],
        decreases n - i,
    {
        buf.set(i, data[i]);
        i = i + 1;
    }
    assert(buf@.subrange(0, n as int) =~= data@.subrange(0, n as int));
    assert(buf@.subrange(n as int, buf@.len() as int) =~= old(buf)@.subrange(
        n as int,
        old(buf)@.len() as int,
    ));
    n
}

/// How waiting for a TLS socket to open ends on an unsolicited result
/// code: the `+QSSLOPEN` of the socket opens it (error 0) or fails it;
/// anything else is ignored.
pub open spec fn ssl_open_outcome(urc: Urc, client_id: u8) -> Option<Result<(), ModemError>> {
    match urc {
        Urc::SslOpen(r) => if r.client_id == client_id {
            if r.err == 0 {
                Some(Ok(()))
            } else {
                Some(Err(ModemError::SocketOpenFailed))
            }
        } else {
            None
        },
        _ => None,
    }
}

/// How waiting for a TCP socket to open ends on an unsolicited result
/// code: the `+QIOPEN` of the socket opens it (error 0) or fails it;
/// anything else is ignored.
pub open spec fn tcp_open_outcome(urc: Urc, client_id: u8) -> Option<Result<(), ModemError>> {
    match urc {
        Urc::TcpOpen(r) => if r.connect_id == client_id {
            if r.err == 0 {
                Some(Ok(()))
            } else {
                Some(Err(ModemError::SocketOpenFailed))
            }
        } else {
            None
        },
        _ => None,
    }
}

/// The end of a TLS socket open on `urc`; `None` to keep waiting.
pub fn ssl_open_verdict(urc: &Urc, client_id: u8) -> (r: Option<Result<(), ModemError>>)
    ensures
        r == ssl_open_outcome(*urc, client_id),
{
    match urc {
        Urc::SslOpen(res) => if res.client_id == client_id {
            if res.err == 0 {
                Some(Ok(()))
            } else {
                Some(Err(ModemError::SocketOpenFailed))
            }
        } else {
            None
        },
        _ => None,
    }
}

/// The end of a TCP socket open on `urc`; `None` to keep waiting.
pub fn tcp_open_verdict(urc: &Urc, client_id: u8) -> (r: Option<Result<(), ModemError>>)
    ensures
        r == tcp_open_outcome(*urc, client_id),
{
    match urc {
        Urc::TcpOpen(res) => if res.connect_id == client_id {
            if res.err == 0 {
                Some(Ok(()))
            } else {
                Some(Err(ModemError::SocketOpenFailed))
            }
        } else {
            None
        },
        _ => None,
    }
}

/// `urc` reports that the peer of socket `client_id` closed it.
pub open spec fn reports_closed(urc: Urc, client_id: u8) -> bool {
    match urc {
        Urc::TcpUrc(u) => u.connect_id == client_id && chars_contain(u.urc_type@, "closed"@),
        Urc::SslUrc(u) => u.client_id == client_id && chars_contain(u.urc_type@, "closed"@),
        _ => false,
    }
}

/// Whether `urc` reports a peer close of socket `client_id`.
pub fn is_close_report(urc: &Urc, client_id: u8) -> (r: bool)
    ensures
        r == reports_closed(*urc, client_id),
{
    match urc {
        Urc::TcpUrc(u) => u.connect_id == client_id && str_contains(u.urc_type.as_str(), "closed"),
        Urc::SslUrc(u) => u.client_id == client_id && str_contains(u.urc_type.as_str(), "closed"),
        _ => false,
    }
}

/// Whether any of the queued codes reports a peer close of `client_id`.
pub fn socket_closed_in(urcs: &[Urc], client_id: u8) -> (r: bool)
    ensures
        r == exists|i: int| 0 <= i < urcs@.len() && reports_closed(#[trigger] urcs@[i], client_id),
{
    let mut closed = false;
    let mut i: usize = 0;
    while i < urcs.len()
        invariant
            i <= urcs@.len(),
            closed == exists|j: int| 0 <= j < i && reports_closed(#[trigger] urcs@[j], client_id),
        decreases urcs@.len() - i,
    {
        if is_close_report(&urcs[i], client_id) {
            closed = true;
        }
        i = i + 1;
    }
    closed
}

/// The commands that configure an SSL context, in the order they are sent:
/// the CA certificate (after checking that its file exists), the client
/// certificate and key (after checking that both files exist), then the
/// security level, version, cipher suites, SNI, hostname check and
/// certificate-date setting.
pub struct SslContextPlan {
    /// Set when a CA certificate is configured.
    pub ca_cert: Option<ConfigureSslCaCertificate>,
    /// The client certificate and key for mutual TLS, or the error when only
    /// one of them is configured.
    pub credentials: Result<Option<(ConfigureSslClientCertificate, ConfigureSslClientPrivateKey)>, ModemError>,
    pub security_level: ConfigureSslSecurityLevel,
    pub ssl_version: ConfigureSslVersion,
    pub cipher_suites: ConfigureSslCipherSuites,
    pub sni: ConfigureSslSni,
    pub check_host: ConfigureSslCheckHost,
    pub ignore_local_time: ConfigureSslIgnoreLocalTime,
}

/// The cipher suites a context is configured with: those set, else all.
pub open spec fn effective_cipher_suites(v: SslConfigurationView) -> Seq<u8> {
    match v.cipher_suite {
        Some(s) => s,
        None => hex_u16_text(cipher_suite_code(SslCipherSuiteEnum::SupportAll)),
    }
}

/// What an `SslContextPlan` for the settings `v` holds.
pub open spec fn is_ssl_context_plan(v: SslConfigurationView, p: SslContextPlan) -> bool {
    let ctx = v.context_id;
    let has_cert = v.client_cert_filename.len() > 0;
    let has_key = v.client_key_filename.len() > 0;
    &&& (v.ca_cert_filename.len() == 0 <==> p.ca_cert is None)
    &&& (p.ca_cert matches Some(c) ==> c.subcommand@ == "cacert"@ && c.context_id == ctx
        && c.ca_cert_path@ == v.ca_cert_filename)
    &&& (has_cert != has_key ==> p.credentials == Err::<
        Option<(ConfigureSslClientCertificate, ConfigureSslClientPrivateKey)>,
        ModemError,
    >(ModemError::SslCertificateInvalid))
    &&& (!has_cert && !has_key ==> p.credentials matches Ok(None))
    &&& (has_cert && has_key ==> (p.credentials matches Ok(Some((c, k))) && c.subcommand@
        == "clientcert"@ && c.context_id == ctx && c.client_cert_path@ == v.client_cert_filename
        && k.subcommand@ == "clientkey"@ && k.context_id == ctx && k.client_key_path@
        == v.client_key_filename))
    &&& p.security_level.subcommand@ == "seclevel"@
    &&& p.security_level.context_id == ctx
    &&& p.security_level.security_level == v.auth_mode
    &&& p.ssl_version.subcommand@ == "sslversion"@
    &&& p.ssl_version.context_id == ctx
    &&& p.ssl_version.ssl_version == v.ssl_version
    &&& p.cipher_suites.subcommand@ == "ciphersuite"@
    &&& p.cipher_suites.context_id == ctx
    &&& p.cipher_suites.cipher_suites@ == effective_cipher_suites(v)
    &&& p.sni.subcommand@ == "sni"@
    &&& p.sni.context_id == ctx
    &&& p.sni.sni_enable == v.sni_enable
    &&& p.check_host.subcommand@ == "checkhost"@
    &&& p.check_host.context_id == ctx
    &&& p.check_host.checkhost_enable == v.checkhost_enable
    &&& p.ignore_local_time.subcommand@ == "ignorelocaltime"@
    &&& p.ignore_local_time.context_id == ctx
    &&& p.ignore_local_time.ignore_local_time == v.ignore_localtime
}

/// What configuring the SSL context of `ssl_config` sends.
pub fn ssl_context_plan(ssl_config: &SslConfiguration) -> (p: SslContextPlan)
    ensures
        is_ssl_context_plan(ssl_config@, p),
{
    let context_id = ssl_config.get_context_id();
    let ca = ssl_config.get_ca_cert_filename();
    let cert = ssl_config.get_client_cert_filename();
    let key = ssl_config.get_client_key_filename();
    let ca_cert = if ca.unicode_len() == 0 {
        None
    } else {
        Some(
            ConfigureSslCaCertificate {
                subcommand: "cacert".to_owned(),
                context_id,
                ca_cert_path: ca.to_owned(),
            },
        )
    };
    let has_cert = cert.unicode_len() > 0;
    let has_key = key.unicode_len() > 0;
    let credentials = if has_cert && has_key {
        Ok(
            Some(
                (
                    ConfigureSslClientCertificate {
                        subcommand: "clientcert".to_owned(),
                        context_id,
                        client_cert_path: cert.to_owned(),
                    },
                    ConfigureSslClientPrivateKey {
                        subcommand: "clientkey".to_owned(),
                        context_id,
                        client_key_path: key.to_owned(),
                    },
                ),
            ),
        )
    } else if has_cert || has_key {
        Err(ModemError::SslCertificateInvalid)
    } else {
        Ok(None)
    };
    let cipher_suites = match ssl_config.get_cipher_suite() {
        Some(s) => s,
        None => SslCipherSuiteEnum::SupportAll.to_bytes(),
    };
    SslContextPlan {
        ca_cert,
        credentials,
        security_level: ConfigureSslSecurityLevel {
            subcommand: "seclevel".to_owned(),
            context_id,
            security_level: ssl_config.get_auth_mode(),
        },
        ssl_version: ConfigureSslVersion {
            subcommand: "sslversion".to_owned(),
            context_id,
            ssl_version: ssl_config.get_ssl_version(),
        },
        cipher_suites: ConfigureSslCipherSuites {
            subcommand: "ciphersuite".to_owned(),
            context_id,
            cipher_suites,
        },
        sni: ConfigureSslSni {
            subcommand: "sni".to_owned(),
            context_id,
            sni_enable: ssl_config.get_sni_enable(),
        },
        check_host: ConfigureSslCheckHost {
            subcommand: "checkhost".to_owned(),
            context_id,
            checkhost_enable: ssl_config.get_checkhost_enable(),
        },
        ignore_local_time: ConfigureSslIgnoreLocalTime {
            subcommand: "ignorelocaltime".to_owned(),
            context_id,
            ignore_local_time: ssl_config.get_ignore_localtime(),
        },
    }
}

/// One step of an SSL context setup, in terms of its `SslContextPlan`.
#[derive(Clone, Copy, Debug, PartialEq, Eq, Structural)]
pub enum SslSetupStep {
    /// Look up the CA certificate file.
    RequireCaFile,
    /// Send the plan's `cacert` command.
    SendCaCert,
    /// Look up the client certificate file.
    RequireClientCertFile,
    /// Look up the client key file.
    RequireClientKeyFile,
    /// Send the plan's `clientcert` command.
    SendClientCert,
    /// Send the plan's `clientkey` command.
    SendClientKey,
    /// Send the plan's `seclevel` command.
    SendSecurityLevel,
    /// Send the plan's `sslversion` command.
    SendVersion,
    /// Send the plan's `ciphersuite` command.
    SendCipherSuites,
    /// Send the plan's `sni` command.
    SendSni,
    /// Send the plan's `checkhost` command.
    SendCheckHost,
    /// Send the plan's `ignorelocaltime` command.
    SendIgnoreLocalTime,
    /// Stop the setup with this error.
    Fail(ModemError),
}

/// The steps of setting up an SSL context with the settings `v`, in order:
/// the CA certificate (looked up, then configured) when one is named; the
/// client certificate and key (both looked up, then both configured) when
/// both are named, or a stop with `SslCertificateInvalid` when only one is;
/// then security level, version, cipher suites, SNI, hostname check and
/// certificate-date setting.
pub open spec fn ssl_setup_order(v: SslConfigurationView) -> Seq<SslSetupStep> {
    let ca = if v.ca_cert_filename.len() == 0 {
        Seq::<SslSetupStep>::empty()
    } else {
        seq![SslSetupStep::RequireCaFile, SslSetupStep::SendCaCert]
    };
    let has_cert = v.client_cert_filename.len() > 0;
    let has_key = v.client_key_filename.len() > 0;
    let settings = seq![
        SslSetupStep::SendSecurityLevel,
        SslSetupStep::SendVersion,
        SslSetupStep::SendCipherSuites,
        SslSetupStep::SendSni,
        SslSetupStep::SendCheckHost,
        SslSetupStep::SendIgnoreLocalTime,
    ];
    if has_cert != has_key {
        ca.push(SslSetupStep::Fail(ModemError::SslCertificateInvalid))
    } else if has_cert {
        ca + seq![
            SslSetupStep::RequireClientCertFile,
            SslSetupStep::RequireClientKeyFile,
            SslSetupStep::SendClientCert,
            SslSetupStep::SendClientKey,
        ] + settings
    } else {
        ca + settings
    }
}

/// The ordered steps of setting up the SSL context of `ssl_config`.
pub fn ssl_setup_steps(ssl_config: &SslConfiguration) -> (steps: Vec<SslSetupStep>)
    ensures
        steps@ == ssl_setup_order(ssl_config@),
{
    let mut steps: Vec<SslSetupStep> = Vec::new();
    if ssl_config.get_ca_cert_filename().unicode_len() > 0 {
        steps.push(SslSetupStep::RequireCaFile);
        steps.push(SslSetupStep::SendCaCert);
    }
    let has_cert = ssl_config.get_client_cert_filename().unicode_len() > 0;
    let has_key = ssl_config.get_client_key_filename().unicode_len() > 0;
    if has_cert != has_key {
        steps.push(SslSetupStep::Fail(ModemError::SslCertificateInvalid));
        return steps;
    }
    if has_cert {
        steps.push(SslSetupStep::RequireClientCertFile);
        steps.push(SslSetupStep::RequireClientKeyFile);
        steps.push(SslSetupStep::SendClientCert);
        steps.push(SslSetupStep::SendClientKey);
    }
    steps.push(SslSetupStep::SendSecurityLevel);
    steps.push(SslSetupStep::SendVersion);
    steps.push(SslSetupStep::SendCipherSuites);
    steps.push(SslSetupStep::SendSni);
    steps.push(SslSetupStep::SendCheckHost);
    steps.push(SslSetupStep::SendIgnoreLocalTime);
    steps
}

/// How one setup step ends, given whether it went through (the file was
/// listed, or the command was answered `OK`): a missing file stops the setup
/// with `SslCertificateNotFound`, a refused command with `NotResponding`,
/// and a `Fail` step with its error.
pub open spec fn ssl_step_outcome(step: SslSetupStep, done: bool) -> Result<(), ModemError> {
    match step {
        SslSetupStep::Fail(e) => Err(e),
        SslSetupStep::RequireCaFile | SslSetupStep::RequireClientCertFile
        | SslSetupStep::RequireClientKeyFile => if done {
            Ok(())
        } else {
            Err(ModemError::SslCertificateNotFound)
        },
        _ => if done {
            Ok(())
        } else {
            Err(ModemError::NotResponding)
        },
    }
}

/// The outcome of one SSL setup step.
pub fn ssl_step_result(step: SslSetupStep, done: bool) -> (r: Result<(), ModemError>)
    ensures
        r == ssl_step_outcome(step, done),
{
    match step {
        SslSetupStep::Fail(e) => Err(e),
        SslSetupStep::RequireCaFile | SslSetupStep::RequireClientCertFile
        | SslSetupStep::RequireClientKeyFile => if done {
            Ok(())
        } else {
            Err(ModemError::SslCertificateNotFound)
        },
        _ => if done {
            Ok(())
        } else {
            Err(ModemError::NotResponding)
        },
    }
}

/// The setup steps and the plan agree: each certificate command is sent
/// exactly when the plan holds it, after its files were looked up, and a
/// setup with only one of certificate and key stops before sending
/// anything about them or any setting.
pub proof fn law_ssl_steps_follow_plan(v: SslConfigurationView, p: SslContextPlan)
    requires
        is_ssl_context_plan(v, p),
    ensures
        ssl_setup_order(v).contains(SslSetupStep::SendCaCert) <==> p.ca_cert is Some,
        ssl_setup_order(v).contains(SslSetupStep::SendClientCert) <==> p.credentials matches Ok(Some(_)),
        p.credentials is Err <==> ssl_setup_order(v).last() == SslSetupStep::Fail(
            ModemError::SslCertificateInvalid,
        ),
        p.credentials is Ok ==> ssl_setup_order(v).last() == SslSetupStep::SendIgnoreLocalTime,
{
    let o = ssl_setup_order(v);
    if p.ca_cert is Some {
        assert(o[1] == SslSetupStep::SendCaCert);
    }
    if p.credentials matches Ok(Some(_)) {
        let k = if p.ca_cert is Some { 4int } else { 2int };
        assert(o[k] == SslSetupStep::SendClientCert);
    }
}

/// What a blocking socket read does after one read attempt.
#[derive(Clone, Copy, Debug, PartialEq, Eq, Structural)]
pub enum ReadPoll {
    /// Return these bytes.
    Data(usize),
    /// The peer closed: read once more for the last bytes, and return
    /// whatever that gives (0 is end of file).
    DrainThenEof,
    /// The idle timeout ran out: end of file.
    TimedOut,
    /// Nothing yet: wait 100 ms and read again.
    Retry,
}

/// The decision after a read attempt that gave `n` bytes, with `closed`
/// telling whether a peer close was seen (only asked when nothing was
/// read), after `elapsed_ms` of an idle timeout of `timeout_ms` (none:
/// wait for ever).
pub open spec fn read_poll_next(n: nat, closed: bool, elapsed_ms: u64, timeout_ms: Option<u64>) -> ReadPoll {
    if n > 0 {
        ReadPoll::Data(n as usize)
    } else if closed {
        ReadPoll::DrainThenEof
    } else if timeout_ms matches Some(t) && elapsed_ms >= t {
        ReadPoll::TimedOut
    } else {
        ReadPoll::Retry
    }
}

/// What to do after one attempt of a blocking socket read.
pub fn read_poll(n: usize, closed: bool, elapsed_ms: u64, timeout_ms: Option<u64>) -> (r: ReadPoll)
    ensures
        r == read_poll_next(n as nat, closed, elapsed_ms, timeout_ms),
{
    if n > 0 {
        ReadPoll::Data(n)
    } else if closed {
        ReadPoll::DrainThenEof
    } else {
        match timeout_ms {
            Some(t) => if elapsed_ms >= t {
                ReadPoll::TimedOut
            } else {
                ReadPoll::Retry
            },
            None => ReadPoll::Retry,
        }
    }
}

/// Hands out socket (client) ids in turn, wrapping after 255.
pub struct ClientIdAllocator {
    next: u8,
}

impl ClientIdAllocator {
    /// The id the next connection gets.
    pub closed spec fn next_id(&self) -> u8 {
        self.next
    }

    /// An allocator starting at id 0.
    pub fn new() -> (a: Self)
        ensures
            a.next_id() == 0,
    {
        ClientIdAllocator { next: 0 }
    }

    /// The id for a new connection; the following one comes next.
    pub fn allocate(&mut self) -> (id: u8)
        ensures
            id == old(self).next_id(),
            final(self).next_id() == (if old(self).next_id() == 255 {
                0u8
            } else {
                (old(self).next_id() + 1) as u8
            }),
    {
        let id = self.next;
        self.next = id.wrapping_add(1);
        id
    }
}

/// Opening a TCP socket: the `+QIOPEN` of the awaited socket opens it
/// exactly when its error code is 0, and any other code fails the open with
/// `SocketOpenFailed`; a `+QIOPEN` of another socket, or any other code,
/// does not end the wait. The same holds of `+QSSLOPEN` for a TLS socket.
pub proof fn law_socket_open_result(t: TcpOpenResponse, s: SslOpenResponse, id: u8, urc: Urc)
    ensures
        t.connect_id == id ==> (tcp_open_outcome(Urc::TcpOpen(t), id) == Some(Ok::<(), ModemError>(()))
            <==> t.err == 0),
        t.connect_id == id && t.err != 0 ==> tcp_open_outcome(Urc::TcpOpen(t), id) == Some(
            Err::<(), ModemError>(ModemError::SocketOpenFailed),
        ),
        t.connect_id != id ==> tcp_open_outcome(Urc::TcpOpen(t), id) is None,
        !(urc is TcpOpen) ==> tcp_open_outcome(urc, id) is None,
        s.client_id == id ==> (ssl_open_outcome(Urc::SslOpen(s), id) == Some(Ok::<(), ModemError>(()))
            <==> s.err == 0),
        s.client_id == id && s.err != 0 ==> ssl_open_outcome(Urc::SslOpen(s), id) == Some(
            Err::<(), ModemError>(ModemError::SocketOpenFailed),
        ),
        s.client_id != id ==> ssl_open_outcome(Urc::SslOpen(s), id) is None,
        !(urc is SslOpen) ==> ssl_open_outcome(urc, id) is None,
{
}

/// A peer close is seen on both kinds of socket: a `+QIURC` (plain TCP) or
/// `+QSSLURC` (TLS) whose type contains `closed` and whose id is the
/// socket's reports it closed, and nothing else does; a queue of codes
/// reports it closed exactly when one of them does.
pub proof fn law_close_reports(t: TcpUrcResponse, s: SslUrcResponse, id: u8, urc: Urc, urcs: Seq<Urc>)
    ensures
        reports_closed(Urc::TcpUrc(t), id) <==> (t.connect_id == id && chars_contain(
            t.urc_type@,
            "closed"@,
        )),
        reports_closed(Urc::SslUrc(s), id) <==> (s.client_id == id && chars_contain(
            s.urc_type@,
            "closed"@,
        )),
        !(urc is TcpUrc || urc is SslUrc) ==> !reports_closed(urc, id),
        (t.connect_id == id && chars_contain(t.urc_type@, "closed"@) && urcs.contains(Urc::TcpUrc(t)))
            ==> exists|i: int| 0 <= i < urcs.len() && reports_closed(#[trigger] urcs[i], id),
{
    if t.connect_id == id && chars_contain(t.urc_type@, "closed"@) && urcs.contains(Urc::TcpUrc(t)) {
        let i = choose|i: int| 0 <= i < urcs.len() && urcs[i] == Urc::TcpUrc(t);
        assert(reports_closed(urcs[i], id));
    }
}

/// Reading from a socket: a read asks for as much as the buffer takes, up to
/// 512 bytes; a response hands over no more than it announced, than it
/// holds and than the buffer takes, and exactly the least of them.
pub proof fn law_socket_read_sizes(buf_len: nat, length: u16, data_len: nat)
    ensures
        read_request(buf_len) <= 512,
        read_request(buf_len) <= buf_len,
        read_request(buf_len) == buf_len || read_request(buf_len) == 512,
        read_copy_len(length, data_len, buf_len) <= length,
        read_copy_len(length, data_len, buf_len) <= data_len,
        read_copy_len(length, data_len, buf_len) <= buf_len,
        read_copy_len(length, data_len, buf_len) == length || read_copy_len(length, data_len, buf_len)
            == data_len || read_copy_len(length, data_len, buf_len) == buf_len,
{
}

/// A blocking read returns data whenever some arrived; with none, a peer
/// close ends it (after draining what is left), an idle timeout that has run
/// out ends it with end of file, and only otherwise does it wait and retry.
pub proof fn law_read_poll(n: nat, closed: bool, elapsed_ms: u64, timeout_ms: Option<u64>)
    ensures
        n > 0 ==> read_poll_next(n, closed, elapsed_ms, timeout_ms) == ReadPoll::Data(n as usize),
        n == 0 && closed ==> read_poll_next(n, closed, elapsed_ms, timeout_ms) == ReadPoll::DrainThenEof,
        read_poll_next(n, closed, elapsed_ms, timeout_ms) == ReadPoll::TimedOut <==> (n == 0 && !closed
            && (timeout_ms is Some && elapsed_ms >= timeout_ms.unwrap())),
        read_poll_next(n, closed, elapsed_ms, timeout_ms) == ReadPoll::Retry <==> (n == 0 && !closed
            && !(timeout_ms is Some && elapsed_ms >= timeout_ms.unwrap())),
{
}

} // verus!
