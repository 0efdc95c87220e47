//! The certificates that a client trusts.
use rustls::pki_types::CertificateDer;
use rustls::RootCertStore;
use vstd::prelude::*;

verus! {

/// What is taken from a certificate that is trusted.
pub struct Anchor {
    pub subject: Seq<u8>,
    pub public_key_info: Seq<u8>,
    pub name_constraints: Option<Seq<u8>>,
}

/// A store of trusted certificates.
#[verifier::external_type_specification]
#[verifier::external_body]
pub struct ExRootCertStore(RootCertStore);

/// What a store has taken from its certificates, in the order in which they were added.
pub uninterp spec fn store_anchors(store: RootCertStore) -> Seq<Anchor>;

/// What is taken from a certificate in DER format, if it can be parsed.
pub uninterp spec fn anchor_of(der: Seq<u8>) -> Option<Anchor>;

/// `rustls::RootCertStore::empty`: a store without certificates.
pub assume_specification[ RootCertStore::empty ]() -> (r: RootCertStore)
    ensures
        store_anchors(r) == Seq::<Anchor>::empty(),
;

/// `rustls::RootCertStore::add`: what is taken from the certificate comes after what the store has
/// already. A certificate that can not be parsed leaves the store as it is.
///
/// The outcome is that of [`anchor_of`]. Of the message that comes with a failure nothing is
/// claimed.
#[verifier::external_body]
fn add_cert(store: &mut RootCertStore, der: &[u8]) -> (r: Result<(), String>)
    ensures
        match r {
            Ok(()) => {
                &&& anchor_of(der@) is Some
                &&& store_anchors(*final(store)) == store_anchors(*old(store)).push(
                    anchor_of(der@)->0,
                )
            },
            Err(_) => {
                &&& anchor_of(der@) is None
                &&& store_anchors(*final(store)) == store_anchors(*old(store))
            },
        },
{
    store.add(CertificateDer::from(der)).map_err(|e| e.to_string())
}

/// A certificate that can not be parsed.
#[derive(Debug, Clone, PartialEq, Eq)]
pub struct CertError {
    /// Its position among the certificates.
    pub index: usize,
    /// What is wrong with it.
    pub message: String,
}

/// What is taken from some certificates, which can all be parsed.
pub open spec fn anchors_of(certs: Seq<&[u8]>) -> Seq<Anchor> {
    Seq::new(certs.len(), |i: int| anchor_of(certs[i]@)->0)
}

/// Whether all of these certificates can be parsed.
pub open spec fn all_parse(certs: Seq<&[u8]>) -> bool {
    forall|i: int| 0 <= i < certs.len() ==> anchor_of((#[trigger] certs[i])@) is Some
}

/// A store of these certificates, in DER format. It fails at the first one that can not be parsed.
pub fn trusted_certs(server_certs: &[&[u8]]) -> (r: Result<RootCertStore, CertError>)
    ensures
        match r {
            Ok(store) => {
                &&& all_parse(server_certs@)
                &&& store_anchors(store) == anchors_of(server_certs@)
            },
            Err(e) => {
                &&& e.index < server_certs@.len()
                &&& anchor_of(server_certs@[e.index as int]@) is None
                &&& all_parse(server_certs@.take(e.index as int))
            },
        },
{
    let mut store = RootCertStore::empty();
    let mut i: usize = 0;
    assert(store_anchors(store) =~= anchors_of(server_certs@.take(0)));
    while i < server_certs.len()
        invariant
            i <= server_certs.len(),
            all_parse(server_certs@.take(i as int)),
            store_anchors(store) == anchors_of(server_certs@.take(i as int)),
        decreases server_certs.len() - i,
    {
        match add_cert(&mut store, server_certs[i]) {
            Err(message) => {
                return Err(CertError { index: i, message });
            },
            Ok(()) => {},
        }
        proof {
            let before = server_certs@.take(i as int);
            let next = server_certs@.take(i + 1);
            assert(next =~= before.push(server_certs@[i as int]));
            assert forall|k: int| 0 <= k < next.len() implies anchor_of(
                (#[trigger] next[k])@,
            ) is Some by {
                if k < i {
                    assert(next[k] == before[k]);
                }
            }
            assert(store_anchors(store) =~= anchors_of(next));
        }
        i = i + 1;
    }
    assert(server_certs@.take(i as int) =~= server_certs@);
    Ok(store)
}

/// Certificates parse exactly if each one of them does, and then each has its own anchor, in its place.
pub proof fn law_each_certificate_has_its_anchor(certs: Seq<&[u8]>, i: int)
    requires
        0 <= i < certs.len(),
    ensures
        anchors_of(certs).len() == certs.len(),
        all_parse(certs) ==> anchor_of(certs[i]@) == Some(anchors_of(certs)[i]),
        anchor_of(certs[i]@) is None ==> !all_parse(certs),
        !all_parse(certs) ==> exists|k: int|
            0 <= k < certs.len() && anchor_of((#[trigger] certs[k])@) is None,
        all_parse(Seq::<&[u8]>::empty()),
{
}

} // verus!
