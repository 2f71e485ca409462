//! Laws of the signed wire formats: the signing bytes determine every field
//! of a payload (so a signature over them covers each field), and a payload
//! whose signature field is the hex of an accepted signature passes `verify`.

use vstd::prelude::*;
use vstd::string::StringSliceAdditionalSpecFns;
use vstd::utf8::{encode_utf8, encode_utf8_decode_utf8, is_ascii_chars, is_ascii_chars_encode_utf8};

use crate::crypto::{ed25519_accepts, ed25519_point_valid, sha256_digest};
use crate::hexcodec::{hex_encode_spec, hex_text_bytes, lemma_hex_roundtrip};
use crate::wire::{
    check_sig_spec, home_hub_list_bytes, le32, le64, opt_u64_field, pairing_claim_bytes,
    pairing_offer_bytes, prefs_blob_bytes, revocation_bytes, str_field, str_fields, str_list_field, subkey_cert_bytes,
    WireError, HOME_HUB_LIST_TAG, PAIRING_CLAIM_TAG, PAIRING_OFFER_TAG, PREFS_BLOB_TAG, REVOCATION_TAG,
    SUBKEY_CERT_TAG,
};

verus! {

/// A string whose UTF-8 encoding fits the `u32` length prefix.
pub open spec fn fits_u32(s: Seq<char>) -> bool {
    encode_utf8(s).len() < 0x1_0000_0000
}

/// A list of strings that all fit, and whose count fits, the `u32` prefixes.
pub open spec fn list_fits_u32(v: Seq<Seq<char>>) -> bool {
    &&& v.len() < 0x1_0000_0000
    &&& forall|i: int| 0 <= i < v.len() ==> fits_u32(#[trigger] v[i])
}

proof fn lemma_le32_injective(a: u32, b: u32)
    requires
        le32(a) == le32(b),
    ensures
        a == b,
{
    assert(le32(a)[0] == le32(b)[0]);
    assert(le32(a)[1] == le32(b)[1]);
    assert(le32(a)[2] == le32(b)[2]);
    assert(le32(a)[3] == le32(b)[3]);
    let (a0, a1, a2, a3) = (a as u8, (a >> 8u32) as u8, (a >> 16u32) as u8, (a >> 24u32) as u8);
    let (b0, b1, b2, b3) = (b as u8, (b >> 8u32) as u8, (b >> 16u32) as u8, (b >> 24u32) as u8);
    assert(a == b) by (bit_vector)
        requires
            a as u8 == b as u8,
            (a >> 8u32) as u8 == (b >> 8u32) as u8,
            (a >> 16u32) as u8 == (b >> 16u32) as u8,
            (a >> 24u32) as u8 == (b >> 24u32) as u8,
    ;
}

proof fn lemma_le64_injective(a: u64, b: u64)
    requires
        le64(a) == le64(b),
    ensures
        a == b,
{
    assert(le64(a)[0] == le64(b)[0]);
    assert(le64(a)[1] == le64(b)[1]);
    assert(le64(a)[2] == le64(b)[2]);
    assert(le64(a)[3] == le64(b)[3]);
    assert(le64(a)[4] == le64(b)[4]);
    assert(le64(a)[5] == le64(b)[5]);
    assert(le64(a)[6] == le64(b)[6]);
    assert(le64(a)[7] == le64(b)[7]);
    assert(a == b) by (bit_vector)
        requires
            a as u8 == b as u8,
            (a >> 8u64) as u8 == (b >> 8u64) as u8,
            (a >> 16u64) as u8 == (b >> 16u64) as u8,
            (a >> 24u64) as u8 == (b >> 24u64) as u8,
            (a >> 32u64) as u8 == (b >> 32u64) as u8,
            (a >> 40u64) as u8 == (b >> 40u64) as u8,
            (a >> 48u64) as u8 == (b >> 48u64) as u8,
            (a >> 56u64) as u8 == (b >> 56u64) as u8,
    ;
}

/// Splitting two equal concatenations whose first parts have the same length.
proof fn lemma_split_equal(x1: Seq<u8>, r1: Seq<u8>, x2: Seq<u8>, r2: Seq<u8>)
    requires
        x1 + r1 == x2 + r2,
        x1.len() == x2.len(),
    ensures
        x1 == x2,
        r1 == r2,
{
    assert(x1 =~= (x1 + r1).subrange(0, x1.len() as int));
    assert(x2 =~= (x2 + r2).subrange(0, x2.len() as int));
    assert(r1 =~= (x1 + r1).subrange(x1.len() as int, (x1 + r1).len() as int));
    assert(r2 =~= (x2 + r2).subrange(x2.len() as int, (x2 + r2).len() as int));
}

proof fn lemma_u64_prefix(a: u64, r1: Seq<u8>, b: u64, r2: Seq<u8>)
    requires
        le64(a) + r1 == le64(b) + r2,
    ensures
        a == b,
        r1 == r2,
{
    lemma_split_equal(le64(a), r1, le64(b), r2);
    lemma_le64_injective(a, b);
}

proof fn lemma_opt_u64_prefix(a: Option<u64>, r1: Seq<u8>, b: Option<u64>, r2: Seq<u8>)
    requires
        opt_u64_field(a) + r1 == opt_u64_field(b) + r2,
    ensures
        a == b,
        r1 == r2,
{
    let s1 = opt_u64_field(a) + r1;
    let s2 = opt_u64_field(b) + r2;
    assert(s1[0] == s2[0]);
    match (a, b) {
        (Some(x), Some(y)) => {
            assert(opt_u64_field(a) + r1 =~= seq![1u8] + (le64(x) + r1));
            assert(opt_u64_field(b) + r2 =~= seq![1u8] + (le64(y) + r2));
            lemma_split_equal(seq![1u8], le64(x) + r1, seq![1u8], le64(y) + r2);
            lemma_u64_prefix(x, r1, y, r2);
        },
        (None, None) => {
            lemma_split_equal(seq![0u8], r1, seq![0u8], r2);
        },
        _ => {},
    }
}

proof fn lemma_str_prefix(s1: Seq<char>, r1: Seq<u8>, s2: Seq<char>, r2: Seq<u8>)
    requires
        str_field(s1) + r1 == str_field(s2) + r2,
        fits_u32(s1),
        fits_u32(s2),
    ensures
        s1 == s2,
        r1 == r2,
{
    let b1 = encode_utf8(s1);
    let b2 = encode_utf8(s2);
    assert(str_field(s1) + r1 =~= le32(b1.len() as u32) + (b1 + r1));
    assert(str_field(s2) + r2 =~= le32(b2.len() as u32) + (b2 + r2));
    lemma_split_equal(le32(b1.len() as u32), b1 + r1, le32(b2.len() as u32), b2 + r2);
    lemma_le32_injective(b1.len() as u32, b2.len() as u32);
    lemma_split_equal(b1, r1, b2, r2);
    encode_utf8_decode_utf8(s1);
    encode_utf8_decode_utf8(s2);
}

proof fn lemma_str_fields_front(v: Seq<Seq<char>>)
    requires
        v.len() > 0,
    ensures
        str_fields(v) == str_field(v[0]) + str_fields(v.drop_first()),
    decreases v.len(),
{
    if v.len() == 1 {
        assert(v.drop_last() =~= Seq::<Seq<char>>::empty());
        assert(v.drop_first() =~= Seq::<Seq<char>>::empty());
        assert(str_fields(v) =~= str_field(v[0]) + str_fields(v.drop_first()));
    } else {
        lemma_str_fields_front(v.drop_last());
        assert(v.drop_last().drop_first() =~= v.drop_first().drop_last());
        assert(v.drop_first().last() == v.last());
        assert(v.drop_last()[0] == v[0]);
        assert(str_fields(v) =~= str_field(v[0]) + str_fields(v.drop_first()));
    }
}

proof fn lemma_str_fields_prefix(v1: Seq<Seq<char>>, r1: Seq<u8>, v2: Seq<Seq<char>>, r2: Seq<u8>)
    requires
        str_fields(v1) + r1 == str_fields(v2) + r2,
        v1.len() == v2.len(),
        list_fits_u32(v1),
        list_fits_u32(v2),
    ensures
        v1 == v2,
        r1 == r2,
    decreases v1.len(),
{
    if v1.len() == 0 {
        assert(str_fields(v1) + r1 =~= r1);
        assert(str_fields(v2) + r2 =~= r2);
        assert(v1 =~= v2);
    } else {
        lemma_str_fields_front(v1);
        lemma_str_fields_front(v2);
        let t1 = v1.drop_first();
        let t2 = v2.drop_first();
        assert(str_fields(v1) + r1 =~= str_field(v1[0]) + (str_fields(t1) + r1));
        assert(str_fields(v2) + r2 =~= str_field(v2[0]) + (str_fields(t2) + r2));
        assert(fits_u32(v1[0]));
        assert(fits_u32(v2[0]));
        lemma_str_prefix(v1[0], str_fields(t1) + r1, v2[0], str_fields(t2) + r2);
        assert(list_fits_u32(t1)) by {
            assert forall|i: int| 0 <= i < t1.len() implies fits_u32(#[trigger] t1[i]) by {
                assert(t1[i] == v1[i + 1]);
            }
        }
        assert(list_fits_u32(t2)) by {
            assert forall|i: int| 0 <= i < t2.len() implies fits_u32(#[trigger] t2[i]) by {
                assert(t2[i] == v2[i + 1]);
            }
        }
        lemma_str_fields_prefix(t1, r1, t2, r2);
        assert(v1 =~= seq![v1[0]] + t1);
        assert(v2 =~= seq![v2[0]] + t2);
    }
}

proof fn lemma_str_list_prefix(v1: Seq<Seq<char>>, r1: Seq<u8>, v2: Seq<Seq<char>>, r2: Seq<u8>)
    requires
        str_list_field(v1) + r1 == str_list_field(v2) + r2,
        list_fits_u32(v1),
        list_fits_u32(v2),
    ensures
        v1 == v2,
        r1 == r2,
{
    assert(str_list_field(v1) + r1 =~= le32(v1.len() as u32) + (str_fields(v1) + r1));
    assert(str_list_field(v2) + r2 =~= le32(v2.len() as u32) + (str_fields(v2) + r2));
    lemma_split_equal(le32(v1.len() as u32), str_fields(v1) + r1, le32(v2.len() as u32), str_fields(v2) + r2);
    lemma_le32_injective(v1.len() as u32, v2.len() as u32);
    lemma_str_fields_prefix(v1, r1, v2, r2);
}

proof fn lemma_assoc6(t: Seq<u8>, a: Seq<u8>, b: Seq<u8>, c: Seq<u8>, d: Seq<u8>, e: Seq<u8>, f: Seq<u8>)
    ensures
        t + a + b + c + d + e + f == t + (a + (b + (c + (d + (e + (f + Seq::<u8>::empty())))))),
{
    assert(t + a + b + c + d + e + f =~= t + (a + (b + (c + (d + (e + (f + Seq::<u8>::empty())))))));
}

proof fn lemma_strip_tag(tag: Seq<u8>, r1: Seq<u8>, r2: Seq<u8>)
    requires
        tag + r1 == tag + r2,
    ensures
        r1 == r2,
{
    lemma_split_equal(tag, r1, tag, r2);
}

/// Two home hub lists with the same signing bytes agree on every field.
pub proof fn law_home_hub_list_bytes_determine_fields(
    m1: Seq<char>, h1: Seq<Seq<char>>, i1: u64, s1: u64,
    m2: Seq<char>, h2: Seq<Seq<char>>, i2: u64, s2: u64,
)
    requires
        fits_u32(m1),
        fits_u32(m2),
        list_fits_u32(h1),
        list_fits_u32(h2),
        home_hub_list_bytes(m1, h1, i1, s1) == home_hub_list_bytes(m2, h2, i2, s2),
    ensures
        m1 == m2,
        h1 == h2,
        i1 == i2,
        s1 == s2,
{
    let t = HOME_HUB_LIST_TAG.spec_bytes();
    let e = Seq::<u8>::empty();
    assert(home_hub_list_bytes(m1, h1, i1, s1) =~= t + (str_field(m1) + (str_list_field(h1) + (le64(i1) + (le64(s1) + e)))));
    assert(home_hub_list_bytes(m2, h2, i2, s2) =~= t + (str_field(m2) + (str_list_field(h2) + (le64(i2) + (le64(s2) + e)))));
    lemma_strip_tag(t, str_field(m1) + (str_list_field(h1) + (le64(i1) + (le64(s1) + e))), str_field(m2) + (str_list_field(h2) + (le64(i2) + (le64(s2) + e))));
    lemma_str_prefix(m1, str_list_field(h1) + (le64(i1) + (le64(s1) + e)), m2, str_list_field(h2) + (le64(i2) + (le64(s2) + e)));
    lemma_str_list_prefix(h1, le64(i1) + (le64(s1) + e), h2, le64(i2) + (le64(s2) + e));
    lemma_u64_prefix(i1, le64(s1) + e, i2, le64(s2) + e);
    lemma_u64_prefix(s1, e, s2, e);
}

/// Two subkey certificates with the same signing bytes agree on every field.
#[verifier::rlimit(40)]
pub proof fn law_subkey_cert_bytes_determine_fields(
    m1: Seq<char>, k1: Seq<char>, l1: Seq<char>, i1: u64, n1: Option<u64>, f1: Seq<Seq<char>>,
    m2: Seq<char>, k2: Seq<char>, l2: Seq<char>, i2: u64, n2: Option<u64>, f2: Seq<Seq<char>>,
)
    requires
        fits_u32(m1),
        fits_u32(m2),
        fits_u32(k1),
        fits_u32(k2),
        fits_u32(l1),
        fits_u32(l2),
        list_fits_u32(f1),
        list_fits_u32(f2),
        subkey_cert_bytes(m1, k1, l1, i1, n1, f1) == subkey_cert_bytes(m2, k2, l2, i2, n2, f2),
    ensures
        m1 == m2,
        k1 == k2,
        l1 == l2,
        i1 == i2,
        n1 == n2,
        f1 == f2,
{
    let t = SUBKEY_CERT_TAG.spec_bytes();
    let e = Seq::<u8>::empty();
    let a5 = opt_u64_field(n1) + (str_list_field(f1) + e);
    let b5 = opt_u64_field(n2) + (str_list_field(f2) + e);
    let a4 = le64(i1) + a5;
    let b4 = le64(i2) + b5;
    let a3 = str_field(l1) + a4;
    let b3 = str_field(l2) + b4;
    let a2 = str_field(k1) + a3;
    let b2 = str_field(k2) + b3;
    let a1 = str_field(m1) + a2;
    let b1 = str_field(m2) + b2;
    assert(subkey_cert_bytes(m1, k1, l1, i1, n1, f1) =~= t + a1) by {
        lemma_assoc6(t, str_field(m1), str_field(k1), str_field(l1), le64(i1), opt_u64_field(n1), str_list_field(f1));
    }
    assert(subkey_cert_bytes(m2, k2, l2, i2, n2, f2) =~= t + b1) by {
        lemma_assoc6(t, str_field(m2), str_field(k2), str_field(l2), le64(i2), opt_u64_field(n2), str_list_field(f2));
    }
    lemma_strip_tag(t, a1, b1);
    lemma_str_prefix(m1, a2, m2, b2);
    lemma_str_prefix(k1, a3, k2, b3);
    lemma_str_prefix(l1, a4, l2, b4);
    lemma_u64_prefix(i1, a5, i2, b5);
    lemma_opt_u64_prefix(n1, str_list_field(f1) + e, n2, str_list_field(f2) + e);
    lemma_str_list_prefix(f1, e, f2, e);
}

/// Two revocation entries with the same signing bytes agree on every field.
pub proof fn law_revocation_bytes_determine_fields(
    m1: Seq<char>, k1: Seq<char>, r1: u64,
    m2: Seq<char>, k2: Seq<char>, r2: u64,
)
    requires
        fits_u32(m1),
        fits_u32(m2),
        fits_u32(k1),
        fits_u32(k2),
        revocation_bytes(m1, k1, r1) == revocation_bytes(m2, k2, r2),
    ensures
        m1 == m2,
        k1 == k2,
        r1 == r2,
{
    let t = REVOCATION_TAG.spec_bytes();
    let e = Seq::<u8>::empty();
    assert(revocation_bytes(m1, k1, r1) =~= t + (str_field(m1) + (str_field(k1) + (le64(r1) + e))));
    assert(revocation_bytes(m2, k2, r2) =~= t + (str_field(m2) + (str_field(k2) + (le64(r2) + e))));
    lemma_strip_tag(t, str_field(m1) + (str_field(k1) + (le64(r1) + e)), str_field(m2) + (str_field(k2) + (le64(r2) + e)));
    lemma_str_prefix(m1, str_field(k1) + (le64(r1) + e), m2, str_field(k2) + (le64(r2) + e));
    lemma_str_prefix(k1, le64(r1) + e, k2, le64(r2) + e);
    lemma_u64_prefix(r1, e, r2, e);
}

/// Two pairing offers with the same signing bytes agree on every field.
pub proof fn law_pairing_offer_bytes_determine_fields(
    m1: Seq<char>, h1: Seq<Seq<char>>, p1: Seq<char>, i1: u64, x1: u64,
    m2: Seq<char>, h2: Seq<Seq<char>>, p2: Seq<char>, i2: u64, x2: u64,
)
    requires
        fits_u32(m1),
        fits_u32(m2),
        list_fits_u32(h1),
        list_fits_u32(h2),
        fits_u32(p1),
        fits_u32(p2),
        pairing_offer_bytes(m1, h1, p1, i1, x1) == pairing_offer_bytes(m2, h2, p2, i2, x2),
    ensures
        m1 == m2,
        h1 == h2,
        p1 == p2,
        i1 == i2,
        x1 == x2,
{
    let t = PAIRING_OFFER_TAG.spec_bytes();
    let e = Seq::<u8>::empty();
    let a4 = le64(i1) + (le64(x1) + e);
    let b4 = le64(i2) + (le64(x2) + e);
    let a3 = str_field(p1) + a4;
    let b3 = str_field(p2) + b4;
    let a2 = str_list_field(h1) + a3;
    let b2 = str_list_field(h2) + b3;
    let a1 = str_field(m1) + a2;
    let b1 = str_field(m2) + b2;
    assert(pairing_offer_bytes(m1, h1, p1, i1, x1) =~= t + a1);
    assert(pairing_offer_bytes(m2, h2, p2, i2, x2) =~= t + b1);
    lemma_strip_tag(t, a1, b1);
    lemma_str_prefix(m1, a2, m2, b2);
    lemma_str_list_prefix(h1, a3, h2, b3);
    lemma_str_prefix(p1, a4, p2, b4);
    lemma_u64_prefix(i1, le64(x1) + e, i2, le64(x2) + e);
    lemma_u64_prefix(x1, e, x2, e);
}

/// Two pairing claims with the same signing bytes agree on every field.
pub proof fn law_pairing_claim_bytes_determine_fields(
    p1: Seq<char>, k1: Seq<char>, l1: Seq<char>,
    p2: Seq<char>, k2: Seq<char>, l2: Seq<char>,
)
    requires
        fits_u32(p1),
        fits_u32(p2),
        fits_u32(k1),
        fits_u32(k2),
        fits_u32(l1),
        fits_u32(l2),
        pairing_claim_bytes(p1, k1, l1) == pairing_claim_bytes(p2, k2, l2),
    ensures
        p1 == p2,
        k1 == k2,
        l1 == l2,
{
    let t = PAIRING_CLAIM_TAG.spec_bytes();
    let e = Seq::<u8>::empty();
    assert(pairing_claim_bytes(p1, k1, l1) =~= t + (str_field(p1) + (str_field(k1) + (str_field(l1) + e))));
    assert(pairing_claim_bytes(p2, k2, l2) =~= t + (str_field(p2) + (str_field(k2) + (str_field(l2) + e))));
    lemma_strip_tag(t, str_field(p1) + (str_field(k1) + (str_field(l1) + e)), str_field(p2) + (str_field(k2) + (str_field(l2) + e)));
    lemma_str_prefix(p1, str_field(k1) + (str_field(l1) + e), p2, str_field(k2) + (str_field(l2) + e));
    lemma_str_prefix(k1, str_field(l1) + e, k2, str_field(l2) + e);
    lemma_str_prefix(l1, e, l2, e);
}

/// Two prefs-blob envelopes with the same signing bytes agree on the
/// master key, the version and the ciphertext's digest.
pub proof fn law_prefs_blob_bytes_determine_fields(
    m1: Seq<char>, v1: u64, c1: Seq<u8>,
    m2: Seq<char>, v2: u64, c2: Seq<u8>,
)
    requires
        fits_u32(m1),
        fits_u32(m2),
        prefs_blob_bytes(m1, v1, c1) == prefs_blob_bytes(m2, v2, c2),
    ensures
        m1 == m2,
        v1 == v2,
        sha256_digest(c1) == sha256_digest(c2),
{
    let t = PREFS_BLOB_TAG.spec_bytes();
    let d1 = sha256_digest(c1);
    let d2 = sha256_digest(c2);
    assert(prefs_blob_bytes(m1, v1, c1) =~= t + (str_field(m1) + (le64(v1) + d1)));
    assert(prefs_blob_bytes(m2, v2, c2) =~= t + (str_field(m2) + (le64(v2) + d2)));
    lemma_strip_tag(t, str_field(m1) + (le64(v1) + d1), str_field(m2) + (le64(v2) + d2));
    lemma_str_prefix(m1, le64(v1) + d1, m2, le64(v2) + d2);
    lemma_u64_prefix(v1, d1, v2, d2);
}

/// A payload whose key field is the hex of a valid Ed25519 public key and
/// whose signature field is the hex of a 64-byte signature that Ed25519
/// accepts over the payload's signing bytes passes the signature check.
pub proof fn law_accepted_signature_passes_check(public_key: Seq<u8>, signing_bytes: Seq<u8>, signature: Seq<u8>)
    requires
        public_key.len() == 32,
        signature.len() == 64,
        ed25519_point_valid(public_key),
        ed25519_accepts(public_key, signing_bytes, signature),
    ensures
        check_sig_spec(hex_encode_spec(public_key), signing_bytes, hex_encode_spec(signature)) == Ok::<(), WireError>(()),
{
    lemma_hex_roundtrip(public_key);
    lemma_hex_roundtrip(signature);
    assert(hex_text_bytes(public_key) == encode_utf8(hex_encode_spec(public_key)));
}

/// The domain tags that open the signing bytes of the signed payloads.
pub open spec fn is_domain_tag(t: Seq<char>) -> bool {
    ||| t == HOME_HUB_LIST_TAG@
    ||| t == SUBKEY_CERT_TAG@
    ||| t == REVOCATION_TAG@
    ||| t == PREFS_BLOB_TAG@
    ||| t == PAIRING_OFFER_TAG@
    ||| t == PAIRING_CLAIM_TAG@
}

proof fn lemma_tag_facts(t: Seq<char>)
    requires
        is_domain_tag(t),
    ensures
        t.len() > 15,
        is_ascii_chars(t),
{
    reveal_strlit("voxply/home-hub-list/v1\0");
    reveal_strlit("voxply/subkey-cert/v1\0");
    reveal_strlit("voxply/revocation/v1\0");
    reveal_strlit("voxply/prefs-blob/v1\0");
    reveal_strlit("voxply/pairing-offer/v1\0");
    reveal_strlit("voxply/pairing-claim/v1\0");
}

/// Domain separation: the signing bytes of two payloads of different kinds
/// never coincide, so a signature over one kind cannot pass as a signature
/// over another.
pub proof fn law_domain_tags_separate(t1: Seq<char>, t2: Seq<char>, r1: Seq<u8>, r2: Seq<u8>)
    requires
        is_domain_tag(t1),
        is_domain_tag(t2),
        t1 != t2,
    ensures
        encode_utf8(t1) + r1 != encode_utf8(t2) + r2,
{
    reveal_strlit("voxply/home-hub-list/v1\0");
    reveal_strlit("voxply/subkey-cert/v1\0");
    reveal_strlit("voxply/revocation/v1\0");
    reveal_strlit("voxply/prefs-blob/v1\0");
    reveal_strlit("voxply/pairing-offer/v1\0");
    reveal_strlit("voxply/pairing-claim/v1\0");
    lemma_tag_facts(t1);
    lemma_tag_facts(t2);
    is_ascii_chars_encode_utf8(t1);
    is_ascii_chars_encode_utf8(t2);
    let b1 = encode_utf8(t1) + r1;
    let b2 = encode_utf8(t2) + r2;
    if b1 == b2 {
        assert(b1[7] == b2[7]);
        assert(b1[8] == b2[8]);
        assert(b1[15] == b2[15]);
        assert(b1[7] == t1[7] as u8);
        assert(b2[7] == t2[7] as u8);
        assert(b1[8] == t1[8] as u8);
        assert(b2[8] == t2[8] as u8);
        assert(b1[15] == t1[15] as u8);
        assert(b2[15] == t2[15] as u8);
    }
}

} // verus!
