//! TLS material from PEM text: the certificates and PKCS #8 private keys it holds.
use vstd::prelude::*;

use crate::error::TunnelError;

verus! {

/// The model of one item that the PEM reader yields: DER bytes, or the text of an error.
pub open spec fn pem_item_view(item: Result<Vec<u8>, String>) -> Result<Seq<u8>, Seq<char>> {
    match item {
        Ok(der) => Ok(der@),
        Err(e) => Err(e@),
    }
}

/// The models of a list of PEM items.
pub open spec fn pem_items_view(items: Seq<Result<Vec<u8>, String>>) -> Seq<Result<Seq<u8>, Seq<char>>> {
    items.map_values(|item: Result<Vec<u8>, String>| pem_item_view(item))
}

/// What `rustls_pemfile::certs` yields on `pem`, up to and including its first error: the DER
/// bytes of each certificate section, or the text of the error.
pub uninterp spec fn pem_certificate_items(pem: Seq<u8>) -> Seq<Result<Seq<u8>, Seq<char>>>;

/// What `rustls_pemfile::pkcs8_private_keys` yields on `pem`, up to and including its first
/// error: the DER bytes of each PKCS #8 key section, or the text of the error.
pub uninterp spec fn pem_pkcs8_key_items(pem: Seq<u8>) -> Seq<Result<Seq<u8>, Seq<char>>>;

/// Only the last of the items may be an error.
pub open spec fn errors_only_last(items: Seq<Result<Seq<u8>, Seq<char>>>) -> bool {
    forall|i: int| 0 <= i < items.len() - 1 ==> #[trigger] items[i] is Ok
}

/// Runs `rustls_pemfile::certs` over `pem`, collecting what it yields up to its first error.
/// Trusted: the items are those that `pem_certificate_items` names, and an error comes last.
#[verifier::external_body]
fn certificate_items(pem: &[u8]) -> (items: Vec<Result<Vec<u8>, String>>)
    ensures
        pem_items_view(items@) == pem_certificate_items(pem@),
        errors_only_last(pem_items_view(items@)),
{
    let mut items = Vec::new();
    for item in rustls_pemfile::certs(&mut &pem[..]) {
        let failed = item.is_err();
        items.push(item.map(|c| c.to_vec()).map_err(|e| e.to_string()));
        if failed {
            break;
        }
    }
    items
}

/// Runs `rustls_pemfile::pkcs8_private_keys` over `pem`, collecting what it yields up to its
/// first error. Trusted: the items are those that `pem_pkcs8_key_items` names, and an error
/// comes last.
#[verifier::external_body]
fn pkcs8_key_items(pem: &[u8]) -> (items: Vec<Result<Vec<u8>, String>>)
    ensures
        pem_items_view(items@) == pem_pkcs8_key_items(pem@),
        errors_only_last(pem_items_view(items@)),
{
    let mut items = Vec::new();
    for item in rustls_pemfile::pkcs8_private_keys(&mut &pem[..]) {
        let failed = item.is_err();
        items.push(item.map(|k| k.secret_pkcs8_der().to_vec()).map_err(|e| e.to_string()));
        if failed {
            break;
        }
    }
    items
}

/// The DER sections of the items where none failed, or the text of the error.
pub open spec fn all_sections(items: Seq<Result<Seq<u8>, Seq<char>>>) -> Result<Seq<Seq<u8>>, Seq<char>> {
    if items.len() > 0 && items.last() is Err {
        Err(items.last()->Err_0)
    } else {
        Ok(items.map_values(|item: Result<Seq<u8>, Seq<char>>| item->Ok_0))
    }
}

/// Collects the DER sections of the items, or reports the error they end with.
fn collect_sections(items: Vec<Result<Vec<u8>, String>>) -> (r: Result<Vec<Vec<u8>>, TunnelError>)
    requires
        errors_only_last(pem_items_view(items@)),
    ensures
        match all_sections(pem_items_view(items@)) {
            Ok(ders) => r matches Ok(v) && v@.map_values(|d: Vec<u8>| d@) == ders,
            Err(t) => r matches Err(TunnelError::InvalidPem(e)) && e@ == t,
        },
{
    let ghost view = pem_items_view(items@);
    let mut ders: Vec<Vec<u8>> = Vec::new();
    let n = items.len();
    let mut i: usize = 0;
    while i < n
        invariant
            n == items@.len(),
            view == pem_items_view(items@),
            errors_only_last(view),
            i <= n,
            ders@.len() == i,
            forall|j: int| 0 <= j < i ==> view[j] is Ok && (#[trigger] ders@[j])@ == view[j]->Ok_0,
        decreases n - i,
    {
        match &items[i] {
            Ok(der) => {
                assert(view[i as int] == pem_item_view(items@[i as int]));
                let copy = der.clone();
                assert(copy@ =~= der@);
                ders.push(copy);
            },
            Err(e) => {
                assert(view[i as int] == pem_item_view(items@[i as int]));
                assert(i == n - 1);
                assert(view.last() == Err::<Seq<u8>, Seq<char>>(e@));
                let text = e.clone();
                return Err(TunnelError::InvalidPem(text));
            },
        }
        i = i + 1;
    }
    proof {
        if n > 0 {
            assert(ders@[n - 1]@ == view[n - 1]->Ok_0);
        }
    }
    assert(ders@.map_values(|d: Vec<u8>| d@) =~= view.map_values(
        |item: Result<Seq<u8>, Seq<char>>| item->Ok_0,
    ));
    Ok(ders)
}

/// The certificates of a PEM file, as DER bytes, in the file's order; or the error of the
/// first section that does not decode.
pub fn pem_certificates(pem: &[u8]) -> (r: Result<Vec<Vec<u8>>, TunnelError>)
    ensures
        match all_sections(pem_certificate_items(pem@)) {
            Ok(ders) => r matches Ok(v) && v@.map_values(|d: Vec<u8>| d@) == ders,
            Err(t) => r matches Err(TunnelError::InvalidPem(e)) && e@ == t,
        },
{
    collect_sections(certificate_items(pem))
}

/// The first PKCS #8 private key of a PEM file, as DER bytes, or `None` where the file holds
/// none; or the error of the first section that does not decode.
pub fn pem_first_pkcs8_key(pem: &[u8]) -> (r: Result<Option<Vec<u8>>, TunnelError>)
    ensures
        match all_sections(pem_pkcs8_key_items(pem@)) {
            Ok(ders) => r matches Ok(k) && (if ders.len() == 0 {
                k is None
            } else {
                k matches Some(d) && d@ == ders[0]
            }),
            Err(t) => r matches Err(TunnelError::InvalidPem(e)) && e@ == t,
        },
{
    let mut keys = match collect_sections(pkcs8_key_items(pem)) {
        Ok(keys) => keys,
        Err(e) => return Err(e),
    };
    if keys.len() == 0 {
        Ok(None)
    } else {
        let ghost before = keys@;
        let key = keys.remove(0);
        assert(key@ == before.map_values(|d: Vec<u8>| d@)[0]);
        Ok(Some(key))
    }
}

/// The first certificate of a PEM file, as DER bytes: `InvalidRootCertificate` where the file
/// holds none, the error of the first section where it does not decode.
pub fn pem_first_certificate(pem: &[u8]) -> (r: Result<Vec<u8>, TunnelError>)
    ensures
        pem_certificate_items(pem@).len() == 0 ==> r matches Err(TunnelError::InvalidRootCertificate),
        pem_certificate_items(pem@).len() > 0 ==> match pem_certificate_items(pem@)[0] {
            Ok(der) => r matches Ok(d) && d@ == der,
            Err(t) => r matches Err(TunnelError::InvalidPem(e)) && e@ == t,
        },
{
    let mut items = certificate_items(pem);
    if items.len() == 0 {
        return Err(TunnelError::InvalidRootCertificate);
    }
    let ghost before = items@;
    let first = items.remove(0);
    assert(pem_item_view(first) == pem_items_view(before)[0]);
    match first {
        Ok(der) => Ok(der),
        Err(e) => Err(TunnelError::InvalidPem(e)),
    }
}

/// What the sections of a PEM file come to, in terms of the items the reader yields: where no
/// item failed, every item gives its DER bytes, unchanged and in the file's order, and nothing
/// else; where one failed (it is then the last), its error text.
pub proof fn law_sections_are_the_items(items: Seq<Result<Seq<u8>, Seq<char>>>)
    requires
        errors_only_last(items),
    ensures
        (forall|i: int| 0 <= i < items.len() ==> #[trigger] items[i] is Ok) ==> (all_sections(items) matches Ok(ders)
            && ders.len() == items.len() && forall|i: int|
            0 <= i < items.len() ==> #[trigger] ders[i] == items[i]->Ok_0),
        (items.len() > 0 && items[items.len() - 1] is Err) ==> all_sections(items) == Err::<
            Seq<Seq<u8>>,
            Seq<char>,
        >(items[items.len() - 1]->Err_0),
{
}

/// The certificates of a PEM file are every certificate section the reader yields, each with
/// its DER bytes unchanged, in the file's order.
pub proof fn law_pem_certificates_are_all_sections(pem: Seq<u8>)
    requires
        errors_only_last(pem_certificate_items(pem)),
        forall|i: int|
            0 <= i < pem_certificate_items(pem).len() ==> #[trigger] pem_certificate_items(pem)[i] is Ok,
    ensures
        all_sections(pem_certificate_items(pem)) matches Ok(ders) && ders.len()
            == pem_certificate_items(pem).len() && forall|i: int|
            0 <= i < ders.len() ==> #[trigger] ders[i] == pem_certificate_items(pem)[i]->Ok_0,
{
    law_sections_are_the_items(pem_certificate_items(pem));
}

/// The private key taken from a PEM file is the first PKCS #8 section the reader yields, with
/// all of its DER bytes.
pub proof fn law_pem_first_key_is_first_section(pem: Seq<u8>)
    requires
        errors_only_last(pem_pkcs8_key_items(pem)),
        pem_pkcs8_key_items(pem).len() > 0,
        forall|i: int|
            0 <= i < pem_pkcs8_key_items(pem).len() ==> #[trigger] pem_pkcs8_key_items(pem)[i] is Ok,
    ensures
        all_sections(pem_pkcs8_key_items(pem)) matches Ok(ders) && ders.len() > 0 && ders[0]
            == pem_pkcs8_key_items(pem)[0]->Ok_0 && ders[0].len() == pem_pkcs8_key_items(pem)[0]->Ok_0.len(),
{
    law_sections_are_the_items(pem_pkcs8_key_items(pem));
}

} // verus!
