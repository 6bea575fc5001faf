//! The pooled SMTP sender: one pooled transport per distinct set of
//! transport parameters, built lazily on first use and reused afterwards.
//!
//! Building a transport calls into the `lettre` and `pem` crates; the pool
//! bookkeeping around those calls is verified.  Sending itself is
//! asynchronous network work and is driven by the caller on the handle this
//! module hands out.

use vstd::prelude::*;

use crate::config::{certs_view, Certificate};
use lettre::transport::smtp::client::{Certificate as TrustBundle, Tls, TlsParameters};
use lettre::transport::smtp::extension::ClientId;
use lettre::transport::smtp::PoolConfig;
use lettre::{AsyncSmtpTransport, Tokio1Executor};
use std::sync::Arc;
use std::time::Duration;

verus! {

/// The pooled transport handle this module builds and caches: a shared
/// reference to one lettre transport.  Opaque to the verifier; the caller
/// reaches the transport through the `inner` field to perform sends.
#[verifier::external_body]
pub struct SmtpTransport {
    pub inner: Arc<lettre::AsyncSmtpTransport<lettre::Tokio1Executor>>,
}

/// Everything that identifies one way of reaching one remote SMTP endpoint.
/// Equality is structural over all fields: two parameter sets whose
/// certificate lists hold the same bytes in a different order are distinct
/// pool keys.
#[derive(Debug, Clone)]
pub struct SenderParameters {
    /// Host actually connected to (an MX host, or the domain itself).
    pub relay_target: String,
    /// Server name presented for TLS validation.
    pub server_name: String,
    /// Name presented in the EHLO greeting.
    pub hello_name: String,
    /// How long an idle pooled connection is kept, in seconds.
    pub pool_idle_timeout_secs: u64,
    /// Cap on pooled connections.
    pub pool_max_size: u32,
    /// Connections kept ready even when idle.
    pub pool_min_idle: u32,
    /// TCP port.
    pub port: u16,
    /// Trust anchors presented to the server, as DER bytes.
    pub certificate: Vec<Certificate>,
}

/// Ghost image of [`SenderParameters`].
pub ghost struct SenderParametersV {
    pub relay_target: Seq<char>,
    pub server_name: Seq<char>,
    pub hello_name: Seq<char>,
    pub pool_idle_timeout_secs: u64,
    pub pool_max_size: u32,
    pub pool_min_idle: u32,
    pub port: u16,
    pub certificate: Seq<Seq<u8>>,
}

impl View for SenderParameters {
    type V = SenderParametersV;

    open spec fn view(&self) -> SenderParametersV {
        SenderParametersV {
            relay_target: self.relay_target@,
            server_name: self.server_name@,
            hello_name: self.hello_name@,
            pool_idle_timeout_secs: self.pool_idle_timeout_secs,
            pool_max_size: self.pool_max_size,
            pool_min_idle: self.pool_min_idle,
            port: self.port,
            certificate: certs_view(self.certificate@),
        }
    }
}

impl SenderParameters {
    /// An owned copy with the same parameters.
    pub fn duplicate(&self) -> (r: SenderParameters)
        ensures
            r@ == self@,
    {
        let r = SenderParameters {
            relay_target: self.relay_target.clone(),
            server_name: self.server_name.clone(),
            hello_name: self.hello_name.clone(),
            pool_idle_timeout_secs: self.pool_idle_timeout_secs,
            pool_max_size: self.pool_max_size,
            pool_min_idle: self.pool_min_idle,
            port: self.port,
            certificate: crate::config::clone_certs(&self.certificate),
        };
        proof {
            assert(r@ =~~= self@);
        }
        r
    }
}

/// Byte-for-byte equality of two byte vectors.
fn bytes_eq(a: &Vec<u8>, b: &Vec<u8>) -> (r: bool)
    ensures
        r == (a@ == b@),
{
    if a.len() != b.len() {
        return false;
    }
    let mut i: usize = 0;
    while i < a.len()
        invariant
            i <= a.len(),
            a@.len() == b@.len(),
            forall|k: int| 0 <= k < i ==> a@[k] == b@[k],
        decreases a.len() - i,
    {
        if a[i] != b[i] {
            return false;
        }
        i = i + 1;
    }
    proof {
        assert(a@ =~= b@);
    }
    true
}

/// Structural equality of two parameter sets, over every field.
pub fn params_match(a: &SenderParameters, b: &SenderParameters) -> (r: bool)
    ensures
        r == (a@ == b@),
{
    if !(a.relay_target == b.relay_target) {
        return false;
    }
    if !(a.server_name == b.server_name) {
        return false;
    }
    if !(a.hello_name == b.hello_name) {
        return false;
    }
    if a.pool_idle_timeout_secs != b.pool_idle_timeout_secs {
        return false;
    }
    if a.pool_max_size != b.pool_max_size {
        return false;
    }
    if a.pool_min_idle != b.pool_min_idle {
        return false;
    }
    if a.port != b.port {
        return false;
    }
    if a.certificate.len() != b.certificate.len() {
        proof {
            assert(a@.certificate.len() != b@.certificate.len());
        }
        return false;
    }
    let mut i: usize = 0;
    while i < a.certificate.len()
        invariant
            i <= a.certificate.len(),
            a.certificate@.len() == b.certificate@.len(),
            forall|k: int| 0 <= k < i ==> a.certificate@[k]@ == b.certificate@[k]@,
        decreases a.certificate.len() - i,
    {
        if !bytes_eq(&a.certificate[i].der, &b.certificate[i].der) {
            proof {
                assert(a@.certificate[i as int] != b@.certificate[i as int]);
            }
            return false;
        }
        i = i + 1;
    }
    proof {
        assert(a@.certificate =~= b@.certificate);
        assert(a@ =~~= b@);
    }
    true
}

/// The PEM text, as bytes, of one DER certificate under the `CERTIFICATE`
/// tag; a pure function of the bytes.
pub uninterp spec fn pem_encode_of(der: Seq<u8>) -> Seq<u8>;

/// Relies on pem::encode: one PEM block under the `CERTIFICATE` tag; the
/// result depends on the DER bytes alone.
#[verifier::external_body]
fn pem_encode_cert(der: &Vec<u8>) -> (r: Vec<u8>)
    ensures
        r@ == pem_encode_of(der@),
{
    let text = pem::encode(&pem::Pem { tag: "CERTIFICATE".to_owned(), contents: der.clone() });
    text.into_bytes()
}

/// The concatenated PEM blocks of a certificate list, in order.
pub open spec fn pem_bundle_of(certs: Seq<Seq<u8>>) -> Seq<u8>
    decreases certs.len(),
{
    if certs.len() == 0 {
        Seq::empty()
    } else {
        pem_bundle_of(certs.drop_last()) + pem_encode_of(certs.last())
    }
}

/// PEM-encode a whole certificate list into one bundle.
fn pem_bundle(certs: &Vec<Certificate>) -> (r: Vec<u8>)
    ensures
        r@ == pem_bundle_of(certs_view(certs@)),
{
    let mut out: Vec<u8> = Vec::new();
    let mut i: usize = 0;
    proof {
        assert(out@ =~= pem_bundle_of(certs_view(certs@).take(0)));
    }
    while i < certs.len()
        invariant
            i <= certs.len(),
            out@ == pem_bundle_of(certs_view(certs@).take(i as int)),
        decreases certs.len() - i,
    {
        let mut block = pem_encode_cert(&certs[i].der);
        out.append(&mut block);
        proof {
            let cv = certs_view(certs@);
            assert(cv.take(i + 1).drop_last() =~= cv.take(i as int));
            assert(cv.take(i + 1).last() == cv[i as int]);
        }
        i = i + 1;
    }
    proof {
        assert(certs_view(certs@).take(certs@.len() as int) =~= certs_view(certs@));
    }
    out
}

/// Relies on lettre's AsyncSmtpTransport builder: a pooled transport for
/// the given target, port, greeting name, pool sizing and required TLS with
/// the given trust anchors.  An error is returned where the trust bundle is
/// refused; nothing further is promised of the handle.
#[verifier::external_body]
fn build_transport(params: &SenderParameters, pem_bundle: &Vec<u8>) -> (r: Result<
    SmtpTransport,
    String,
>) {
    let cert = TrustBundle::from_pem(pem_bundle).map_err(|e| e.to_string())?;
    let tls = TlsParameters::builder(params.server_name.clone())
        .add_root_certificate(cert).build().map_err(|e| e.to_string())?;
    let pool = PoolConfig::new()
        .idle_timeout(Duration::from_secs(params.pool_idle_timeout_secs))
        .max_size(params.pool_max_size).min_idle(params.pool_min_idle);
    let builder = AsyncSmtpTransport::<Tokio1Executor>::builder_dangerous(params.relay_target.clone())
        .port(params.port)
        .hello_name(ClientId::Domain(params.hello_name.clone()))
        .pool_config(pool)
        .tls(Tls::Required(tls));
    Ok(SmtpTransport { inner: Arc::new(builder.build()) })
}

/// Relies on std::sync::Arc::clone: the clone shares the same transport, so
/// it stands for the same handle.
#[verifier::external_body]
fn clone_handle(h: &SmtpTransport) -> (r: SmtpTransport)
    ensures
        r == *h,
{
    SmtpTransport { inner: Arc::clone(&h.inner) }
}

/// The connection pool: at most one pooled transport per distinct parameter
/// set, plus a counter of how often the build path ran.  Entries are never
/// evicted for the life of the value.
pub struct Sender {
    entries: Vec<(SenderParameters, SmtpTransport)>,
    builds: u64,
}

impl Sender {
    /// Every stored key is distinct: at most one entry per parameter set.
    pub closed spec fn wf(&self) -> bool {
        forall|i: int, j: int|
            0 <= i < j < self.entries@.len() ==> self.entries@[i].0@ != self.entries@[j].0@
    }

    /// Whether a transport is cached for this key.
    pub closed spec fn contains_key(&self, k: SenderParametersV) -> bool {
        exists|i: int| 0 <= i < self.entries@.len() && self.entries@[i].0@ == k
    }

    /// The cached transport for a stored key.
    pub closed spec fn handle_for(&self, k: SenderParametersV) -> SmtpTransport {
        let i = choose|i: int| 0 <= i < self.entries@.len() && self.entries@[i].0@ == k;
        self.entries@[i].1
    }

    /// How often the build path has run, successes and failures alike.
    pub closed spec fn spec_build_count(&self) -> u64 {
        self.builds
    }

    /// How often the build path has run, successes and failures alike.
    #[verifier::when_used_as_spec(spec_build_count)]
    pub fn build_count(&self) -> (r: u64)
        ensures
            r == self.spec_build_count(),
    {
        self.builds
    }

    /// An empty pool.
    pub fn new() -> (r: Sender)
        ensures
            r.wf(),
            r.build_count() == 0,
            forall|k: SenderParametersV| !r.contains_key(k),
    {
        Sender { entries: Vec::new(), builds: 0 }
    }

    /// The transport for `params`: the cached handle where one exists, else
    /// a freshly built one, cached on success.  Two delivery attempts with
    /// structurally equal parameters therefore share one pooled transport,
    /// and the build path fires exactly once for a key that builds.  A
    /// build failure is not cached, so the next caller retries the build.
    pub fn obtain(&mut self, params: &SenderParameters) -> (r: Result<SmtpTransport, String>)
        requires
            old(self).wf(),
            old(self).build_count() < u64::MAX,
        ensures
            final(self).wf(),
            forall|k2: SenderParametersV|
                k2 != params@ ==> final(self).contains_key(k2) == old(self).contains_key(k2),
            forall|k2: SenderParametersV|
                k2 != params@ && old(self).contains_key(k2) ==> final(self).handle_for(k2) == old(
                    self,
                ).handle_for(k2),
            old(self).contains_key(params@) ==> {
                &&& *final(self) == *old(self)
                &&& r matches Ok(h) && h == old(self).handle_for(params@)
            },
            !old(self).contains_key(params@) ==> {
                &&& final(self).build_count() == old(self).build_count() + 1
                &&& match r {
                    Ok(h) => final(self).contains_key(params@) && final(self).handle_for(params@)
                        == h,
                    Err(_) => !final(self).contains_key(params@),
                }
            },
    {
        let n = self.entries.len();
        let mut i: usize = 0;
        while i < n
            invariant
                *self == *old(self),
                self.wf(),
                self.build_count() < u64::MAX,
                n == self.entries@.len(),
                i <= n,
                forall|k: int| 0 <= k < i ==> self.entries@[k].0@ != params@,
        decreases n - i,
        {
            if params_match(&self.entries[i].0, params) {
                proof {
                    self.lemma_handle_at(i as int);
                }
                return Ok(clone_handle(&self.entries[i].1));
            }
            i = i + 1;
        }
        assert(!self.contains_key(params@));
        let bundle = pem_bundle(&params.certificate);
        self.builds = self.builds + 1;
        match build_transport(params, &bundle) {
            Ok(h) => {
                let out = clone_handle(&h);
                self.entries.push((params.duplicate(), h));
                proof {
                    let m = self.entries@.len() - 1;
                    assert(self.entries@[m].0@ == params@);
                    assert(self.wf());
                    self.lemma_handle_at(m);
                    assert(forall|k2: SenderParametersV|
                        k2 != params@ ==> self.contains_key(k2) == old(self).contains_key(k2)) by {
                        assert forall|k2: SenderParametersV|
                            k2 != params@ && self.contains_key(k2) implies old(self).contains_key(
                            k2,
                        ) by {
                            let j = choose|j: int|
                                0 <= j < self.entries@.len() && self.entries@[j].0@ == k2;
                            assert(j < m);
                            assert(old(self).entries@[j].0@ == k2);
                        }
                        assert forall|k2: SenderParametersV|
                            k2 != params@ && old(self).contains_key(k2) implies self.contains_key(
                            k2,
                        ) by {
                            let j = choose|j: int|
                                0 <= j < old(self).entries@.len() && old(self).entries@[j].0@
                                    == k2;
                            assert(self.entries@[j].0@ == k2);
                        }
                    }
                    assert forall|k2: SenderParametersV|
                        k2 != params@ && old(self).contains_key(k2) implies self.handle_for(k2)
                        == old(self).handle_for(k2) by {
                        let j = choose|j: int|
                            0 <= j < old(self).entries@.len() && old(self).entries@[j].0@ == k2;
                        old(self).lemma_handle_at(j);
                        assert(self.entries@[j].0@ == k2);
                        self.lemma_handle_at(j);
                    }
                }
                Ok(out)
            },
            Err(e) => Err(e),
        }
    }

    /// With distinct keys, the handle for the key at `i` is the entry at `i`.
    proof fn lemma_handle_at(&self, i: int)
        requires
            self.wf(),
            0 <= i < self.entries@.len(),
        ensures
            self.contains_key(self.entries@[i].0@),
            self.handle_for(self.entries@[i].0@) == self.entries@[i].1,
    {
        let k = self.entries@[i].0@;
        assert(self.contains_key(k));
        let j = choose|j: int| 0 <= j < self.entries@.len() && self.entries@[j].0@ == k;
        if i < j {
            assert(self.entries@[i].0@ != self.entries@[j].0@);
        } else if j < i {
            assert(self.entries@[j].0@ != self.entries@[i].0@);
        }
    }
}

impl Default for Sender {
    /// An empty pool.
    fn default() -> (r: Sender)
        ensures
            r.wf(),
            r.build_count() == 0,
            forall|k: SenderParametersV| !r.contains_key(k),
    {
        Sender::new()
    }
}

} // verus!
