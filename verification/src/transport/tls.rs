//! Encryption: what a configuration asks for, and what stands in the files that it names.
use vstd::prelude::*;

use crate::error::McpError;
use crate::text;
use crate::types::config::TlsConfig;

verus! {

/// What a configuration asks for.
#[derive(Clone, Copy, Debug, PartialEq, Eq, Structural)]
pub struct TlsPlan {
    /// A server lets in only clients with a certificate of the authority.
    pub demands_client: bool,
    /// A client trusts the authority besides those that it trusts anyway.
    pub trusts_authority: bool,
    /// A client shows a certificate of its own.
    pub sends_identity: bool,
    /// A client takes any certificate of a server.
    pub accepts_any_peer: bool,
}

/// Tells what a configuration asks for.
pub fn plan_tls(tls: &TlsConfig) -> (r: TlsPlan)
    ensures
        r.demands_client == (tls.ca_file@.len() > 0),
        r.trusts_authority == (tls.ca_file@.len() > 0),
        r.sends_identity == (tls.cert_file@.len() > 0 && tls.key_file@.len() > 0),
        r.accepts_any_peer == !tls.verify_peer,
{
    let authority = !tls.ca_file.as_str().is_empty();
    TlsPlan {
        demands_client: authority,
        trusts_authority: authority,
        sends_identity: !tls.cert_file.as_str().is_empty() && !tls.key_file.as_str().is_empty(),
        accepts_any_peer: !tls.verify_peer,
    }
}

/// The form in which a private key is written.
#[derive(Clone, Copy, Debug, PartialEq, Eq, Structural)]
pub enum KeyForm {
    Pkcs1,
    Sec1,
    Pkcs8,
    /// A form that has no name here.
    Other,
}

/// A private key.
#[derive(Debug)]
pub struct PemKey {
    pub form: KeyForm,
    pub der: Vec<u8>,
}

/// What a private key says.
pub struct KeyView {
    pub form: KeyForm,
    pub der: Seq<u8>,
}

impl View for PemKey {
    type V = KeyView;

    open spec fn view(&self) -> KeyView {
        KeyView { form: self.form, der: self.der@ }
    }
}

/// The certificates that stand in a file, in order, and for each that cannot be read what is
/// wrong with it.
pub uninterp spec fn pem_certs(file: Seq<u8>) -> Seq<Result<Seq<u8>, Seq<char>>>;

/// The first private key that stands in a file, if one does, or what is wrong with the file.
pub uninterp spec fn pem_key(file: Seq<u8>) -> Result<Option<KeyView>, Seq<char>>;

/// A certificate that was read, or what is wrong with it.
pub open spec fn cert_view(c: Result<Vec<u8>, String>) -> Result<Seq<u8>, Seq<char>> {
    match c {
        Ok(d) => Ok(d@),
        Err(e) => Err(e@),
    }
}

/// The certificates that were read.
pub open spec fn certs_view(v: Seq<Result<Vec<u8>, String>>) -> Seq<Result<Seq<u8>, Seq<char>>> {
    Seq::new(v.len(), |i: int| cert_view(v[i]))
}

/// `rustls_pemfile::certs` over the bytes of a file, to their end: named by `pem_certs`, the
/// texts of the errors too.
#[verifier::external_body]
fn list_certs(file: &[u8]) -> (r: Vec<Result<Vec<u8>, String>>)
    ensures
        certs_view(r@) == pem_certs(file@),
{
    let mut rest = file;
    rustls_pemfile::certs(&mut rest)
        .map(|c| c.map(|d| d.as_ref().to_vec()).map_err(|e| e.to_string()))
        .collect()
}

/// `rustls_pemfile::private_key` over the bytes of a file: named by `pem_key`, the text of the
/// error too. The variants of `PrivateKeyDer` are told apart.
#[verifier::external_body]
fn find_key(file: &[u8]) -> (r: Result<Option<PemKey>, String>)
    ensures
        match r {
            Ok(Some(k)) => pem_key(file@) == Ok::<_, Seq<char>>(Some(k@)),
            Ok(None) => pem_key(file@) == Ok::<_, Seq<char>>(None::<KeyView>),
            Err(e) => pem_key(file@) == Err::<Option<KeyView>, _>(e@),
        },
{
    let mut rest = file;
    let found = rustls_pemfile::private_key(&mut rest).map_err(|e| e.to_string())?;
    Ok(found.map(|k| {
        let form = match &k {
            rustls::pki_types::PrivateKeyDer::Pkcs1(_) => KeyForm::Pkcs1,
            rustls::pki_types::PrivateKeyDer::Sec1(_) => KeyForm::Sec1,
            rustls::pki_types::PrivateKeyDer::Pkcs8(_) => KeyForm::Pkcs8,
            _ => KeyForm::Other,
        };
        PemKey { form, der: k.secret_der().to_vec() }
    }))
}

/// What is told of a file that cannot be used.
pub open spec fn file_fault(what: Seq<char>, path: Seq<char>, why: Seq<char>) -> Seq<char> {
    what + path + ": "@ + why
}

fn told_of_file(what: &str, path: &str, why: &str) -> (r: McpError)
    ensures
        r.faults_transport(file_fault(what@, path@, why@)),
{
    McpError::Transport(text::cat4(what, path, ": ", why))
}

/// What is wrong with the first of the certificates that cannot be read, if there is one.
pub open spec fn first_fault(certs: Seq<Result<Seq<u8>, Seq<char>>>) -> Option<Seq<char>>
    decreases certs.len(),
{
    if certs.len() == 0 {
        None
    } else {
        match first_fault(certs.drop_last()) {
            Some(f) => Some(f),
            None => match certs.last() {
                Ok(_) => None,
                Err(e) => Some(e),
            },
        }
    }
}

/// The certificates.
pub open spec fn ders(v: Seq<Vec<u8>>) -> Seq<Result<Seq<u8>, Seq<char>>> {
    Seq::new(v.len(), |i: int| Ok(v[i]@))
}

/// A fault stays the first one, whatever follows.
proof fn first_fault_stays(certs: Seq<Result<Seq<u8>, Seq<char>>>, n: int)
    requires
        0 <= n <= certs.len(),
        first_fault(certs.take(n)) is Some,
    ensures
        first_fault(certs) == first_fault(certs.take(n)),
    decreases certs.len() - n,
{
    if n < certs.len() {
        assert(certs.take(n + 1).drop_last() =~= certs.take(n));
        first_fault_stays(certs, n + 1);
    } else {
        assert(certs.take(n) =~= certs);
    }
}

/// The certificates that a server shows, from the file of that path: all that stand in it,
/// or what is wrong with the first that cannot be read.
pub fn read_certificates(path: &str, file: &[u8]) -> (r: Result<Vec<Vec<u8>>, McpError>)
    ensures
        match r {
            Ok(v) => first_fault(pem_certs(file@)) is None && ders(v@) == pem_certs(file@),
            Err(e) => first_fault(pem_certs(file@)) is Some && e.faults_transport(
                file_fault(
                    "Invalid TLS certificate "@,
                    path@,
                    first_fault(pem_certs(file@))->0,
                ),
            ),
        },
{
    let found = list_certs(file);
    choose_certificates(path, found)
}

/// The certificates that a server shows, from what was found in the file of that path.
pub fn choose_certificates(path: &str, found: Vec<Result<Vec<u8>, String>>) -> (r: Result<
    Vec<Vec<u8>>,
    McpError,
>)
    ensures
        match r {
            Ok(v) => first_fault(certs_view(found@)) is None && ders(v@) == certs_view(found@),
            Err(e) => first_fault(certs_view(found@)) is Some && e.faults_transport(
                file_fault(
                    "Invalid TLS certificate "@,
                    path@,
                    first_fault(certs_view(found@))->0,
                ),
            ),
        },
{
    let mut out: Vec<Vec<u8>> = Vec::new();
    let mut i: usize = 0;
    let ghost all = certs_view(found@);
    while i < found.len()
        invariant
            i <= found.len(),
            all == certs_view(found@),
            first_fault(all.take(i as int)) is None,
            ders(out@) == all.take(i as int),
        decreases found.len() - i,
    {
        assert(all.take(i + 1).drop_last() =~= all.take(i as int));
        assert(all.take(i + 1).last() == cert_view(found@[i as int]));
        match &found[i] {
            Ok(d) => {
                let ghost before = ders(out@);
                out.push(d.clone());
                assert(ders(out@) =~= before.push(all[i as int]));
                assert(ders(out@) =~= all.take(i + 1));
            },
            Err(e) => {
                proof {
                    first_fault_stays(all, i + 1);
                }
                return Err(told_of_file("Invalid TLS certificate ", path, e.as_str()));
            },
        }
        i = i + 1;
    }
    assert(all.take(found.len() as int) =~= all);
    Ok(out)
}

/// A certificate of an authority, or what is told of the file.
pub open spec fn authority(
    path: Seq<char>,
    c: Result<Seq<u8>, Seq<char>>,
    r: Result<Vec<u8>, McpError>,
) -> bool {
    match (c, r) {
        (Ok(d), Ok(v)) => v@ == d,
        (Err(e), Err(f)) => f.faults_transport(file_fault("Invalid TLS CA file "@, path, e)),
        _ => false,
    }
}

/// The certificates of the authorities that a server trusts, from the file of that path, each
/// or what is wrong with it. They are to be taken in order, up to the first fault.
pub fn read_authorities(path: &str, file: &[u8]) -> (r: Vec<Result<Vec<u8>, McpError>>)
    ensures
        r@.len() == pem_certs(file@).len(),
        forall|i: int|
            0 <= i < r@.len() ==> authority(path@, pem_certs(file@)[i], #[trigger] r@[i]),
{
    let found = list_certs(file);
    choose_authorities(path, found)
}

/// The certificates of the authorities that a server trusts, from what was found in the file
/// of that path.
pub fn choose_authorities(path: &str, found: Vec<Result<Vec<u8>, String>>) -> (r: Vec<
    Result<Vec<u8>, McpError>,
>)
    ensures
        r@.len() == found@.len(),
        forall|i: int|
            0 <= i < r@.len() ==> authority(path@, cert_view(found@[i]), #[trigger] r@[i]),
{
    let mut out: Vec<Result<Vec<u8>, McpError>> = Vec::new();
    let mut i: usize = 0;
    while i < found.len()
        invariant
            i <= found.len(),
            out@.len() == i,
            forall|k: int|
                0 <= k < i ==> authority(path@, cert_view(found@[k]), #[trigger] out@[k]),
        decreases found.len() - i,
    {
        match &found[i] {
            Ok(d) => out.push(Ok(d.clone())),
            Err(e) => out.push(Err(told_of_file("Invalid TLS CA file ", path, e.as_str()))),
        }
        i = i + 1;
    }
    out
}

/// The private key of a server, from the file of that path.
pub fn read_key(path: &str, file: &[u8]) -> (r: Result<PemKey, McpError>)
    ensures
        key_chosen(path@, pem_key(file@), r),
{
    let found = find_key(file);
    choose_key(path, found)
}

/// What comes of looking for a key.
pub open spec fn key_chosen(
    path: Seq<char>,
    found: Result<Option<KeyView>, Seq<char>>,
    r: Result<PemKey, McpError>,
) -> bool {
    match found {
        Ok(Some(k)) => r matches Ok(x) && x@ == k,
        Ok(None) => r matches Err(e) && e.faults_transport("No private key found in "@ + path),
        Err(why) => r matches Err(e) && e.faults_transport(
            file_fault("Invalid TLS key "@, path, why),
        ),
    }
}

/// What looking for a key gave.
pub open spec fn found_view(found: Result<Option<PemKey>, String>) -> Result<
    Option<KeyView>,
    Seq<char>,
> {
    match found {
        Ok(Some(k)) => Ok(Some(k@)),
        Ok(None) => Ok(None),
        Err(e) => Err(e@),
    }
}

/// The private key of a server, from what was found in the file of that path.
pub fn choose_key(path: &str, found: Result<Option<PemKey>, String>) -> (r: Result<
    PemKey,
    McpError,
>)
    ensures
        key_chosen(path@, found_view(found), r),
{
    match found {
        Ok(Some(k)) => Ok(k),
        Ok(None) => Err(McpError::Transport(text::cat2("No private key found in ", path))),
        Err(e) => Err(told_of_file("Invalid TLS key ", path, e.as_str())),
    }
}

/// What a client shows of itself: its certificate, a line break, and its key.
pub fn identity_file(certificate: &[u8], key: &[u8]) -> (r: Vec<u8>)
    ensures
        r@ == certificate@ + seq![10u8] + key@,
{
    let mut out: Vec<u8> = Vec::new();
    out.extend_from_slice(certificate);
    out.push(10);
    out.extend_from_slice(key);
    assert(out@ =~= certificate@ + seq![10u8] + key@);
    out
}

} // verus!
