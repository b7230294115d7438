//! ALPN protocol lists and negotiation.
//!
//! The TLS configuration carries an ordered list of protocol
//! identifiers expressing the client's preference — by default HTTP/2
//! before HTTP/1.1 — and the server selects one of them during the
//! handshake.  Offering a protocol the server does not support is not
//! an error: the server simply selects another offered protocol.

use vstd::prelude::*;

verus! {

/// The protocol identifier `h2`, as its bytes.
pub open spec fn spec_h2() -> Seq<u8> {
    seq![104u8, 50u8]
}

/// The protocol identifier `http/1.1`, as its bytes.
pub open spec fn spec_http11() -> Seq<u8> {
    seq![104u8, 116u8, 116u8, 112u8, 47u8, 49u8, 46u8, 49u8]
}

/// Whether the list `offers` contains the protocol `p`.
pub open spec fn spec_offered(offers: Seq<Vec<u8>>, p: Seq<u8>) -> bool {
    exists|i: int| 0 <= i < offers.len() && offers[i]@ == p
}

/// Whether an advertised list (as byte sequences) contains `p`.
pub open spec fn spec_contains(offers: Seq<Seq<u8>>, p: Seq<u8>) -> bool {
    exists|i: int| 0 <= i < offers.len() && offers[i] == p
}

/// The byte views of a protocol list.
pub open spec fn protocol_views(l: Seq<Vec<u8>>) -> Seq<Seq<u8>> {
    l.map_values(|v: Vec<u8>| v@)
}

/// The negotiation model: the first of the server's own preferences
/// that the advertised list contains, or nothing when the two lists
/// share no protocol.
pub open spec fn spec_negotiated(server_prefs: Seq<Seq<u8>>, offers: Seq<Seq<u8>>) -> Option<
    Seq<u8>,
>
    decreases server_prefs.len(),
{
    if server_prefs.len() == 0 {
        None
    } else if spec_contains(offers, server_prefs.first()) {
        Some(server_prefs.first())
    } else {
        spec_negotiated(server_prefs.drop_first(), offers)
    }
}

/// `spec_offered` over the vectors and `spec_contains` over their
/// byte views say the same thing.
proof fn lemma_offered_views(offers: Seq<Vec<u8>>, p: Seq<u8>)
    ensures
        spec_offered(offers, p) == spec_contains(protocol_views(offers), p),
{
    if spec_offered(offers, p) {
        let i = choose|i: int| 0 <= i < offers.len() && offers[i]@ == p;
        assert(protocol_views(offers)[i] == p);
    }
    if spec_contains(protocol_views(offers), p) {
        let i = choose|i: int|
            0 <= i < protocol_views(offers).len() && protocol_views(offers)[i] == p;
        assert(offers[i]@ == p);
    }
}

/// While none of the first `i` server preferences is offered, the
/// negotiation outcome is decided by the remaining ones.
proof fn lemma_negotiated_skip(server: Seq<Seq<u8>>, offers: Seq<Seq<u8>>, i: int)
    requires
        0 <= i <= server.len(),
        forall|j: int| 0 <= j < i ==> !spec_contains(offers, server[j]),
    ensures
        spec_negotiated(server, offers) == spec_negotiated(server.skip(i), offers),
    decreases i,
{
    if i == 0 {
        assert(server.skip(0) =~= server);
    } else {
        lemma_negotiated_skip(server, offers, i - 1);
        let s = server.skip(i - 1);
        assert(s.len() == server.len() - (i - 1));
        assert(s.first() == server[i - 1]);
        assert(!spec_contains(offers, s.first()));
        assert(s.drop_first() =~= server.skip(i));
    }
}

/// The default ALPN preference list: `h2` first, then `http/1.1` —
/// a preference order, not an exclusive choice.
pub fn default_alpn() -> (r: Vec<Vec<u8>>)
    ensures
        r@.len() == 2,
        r@[0]@ == spec_h2(),
        r@[1]@ == spec_http11(),
{
    let h2: Vec<u8> = vec![104u8, 50u8];
    let http11: Vec<u8> = vec![104u8, 116u8, 116u8, 112u8, 47u8, 49u8, 46u8, 49u8];
    proof {
        assert(h2@ =~= spec_h2());
        assert(http11@ =~= spec_http11());
    }
    let mut r: Vec<Vec<u8>> = Vec::new();
    r.push(h2);
    r.push(http11);
    r
}

/// Compares two protocol identifiers byte for byte.
pub fn protocol_eq(a: &Vec<u8>, b: &Vec<u8>) -> (r: bool)
    ensures
        r == (a@ == b@),
{
    if a.len() != b.len() {
        return false;
    }
    let mut i: usize = 0;
    while i < a.len()
        invariant
            i <= a@.len(),
            a@.len() == b@.len(),
            forall|j: int| 0 <= j < i ==> a@[j] == b@[j],
        decreases a@.len() - i,
    {
        if a[i] != b[i] {
            return false;
        }
        i = i + 1;
    }
    proof {
        assert(a@ =~= b@);
    }
    true
}

/// Whether the offer list contains the protocol `p`.
pub fn offers_contain(offers: &Vec<Vec<u8>>, p: &Vec<u8>) -> (r: bool)
    ensures
        r == spec_offered(offers@, p@),
{
    let mut i: usize = 0;
    while i < offers.len()
        invariant
            i <= offers@.len(),
            forall|j: int| 0 <= j < i ==> offers@[j]@ != p@,
        decreases offers@.len() - i,
    {
        if protocol_eq(&offers[i], p) {
            return true;
        }
        i = i + 1;
    }
    false
}

/// The server's ALPN selection: the first protocol of the server's
/// own preference list that the client offered, or nothing when the
/// two lists share no protocol.  A client offering protocols the
/// server lacks still negotiates whichever offered protocol the
/// server does support.
pub fn select_alpn(server_prefs: &Vec<Vec<u8>>, client_offers: &Vec<Vec<u8>>) -> (r: Option<
    Vec<u8>,
>)
    ensures
        r matches Some(p) ==> spec_negotiated(
            protocol_views(server_prefs@),
            protocol_views(client_offers@),
        ) == Some(p@),
        r is None ==> spec_negotiated(
            protocol_views(server_prefs@),
            protocol_views(client_offers@),
        ) is None,
{
    let mut i: usize = 0;
    while i < server_prefs.len()
        invariant
            i <= server_prefs@.len(),
            forall|j: int| 0 <= j < i ==> !spec_offered(client_offers@, server_prefs@[j]@),
        decreases server_prefs@.len() - i,
    {
        if offers_contain(client_offers, &server_prefs[i]) {
            proof {
                let sv = protocol_views(server_prefs@);
                let cv = protocol_views(client_offers@);
                assert forall|j: int| 0 <= j < i implies !spec_contains(cv, sv[j]) by {
                    lemma_offered_views(client_offers@, server_prefs@[j]@);
                    assert(sv[j] == server_prefs@[j]@);
                }
                lemma_negotiated_skip(sv, cv, i as int);
                lemma_offered_views(client_offers@, server_prefs@[i as int]@);
                assert(sv.skip(i as int).first() == sv[i as int]);
                assert(sv[i as int] == server_prefs@[i as int]@);
                assert(spec_contains(cv, sv.skip(i as int).first()));
            }
            let mut chosen: Vec<u8> = Vec::new();
            let mut b: usize = 0;
            while b < server_prefs[i].len()
                invariant
                    i < server_prefs@.len(),
                    b <= server_prefs@[i as int]@.len(),
                    chosen@ == server_prefs@[i as int]@.take(b as int),
                decreases server_prefs@[i as int]@.len() - b,
            {
                chosen.push(server_prefs[i][b]);
                b = b + 1;
            }
            proof {
                assert(chosen@ =~= server_prefs@[i as int]@);
            }
            return Some(chosen);
        }
        i = i + 1;
    }
    proof {
        let sv = protocol_views(server_prefs@);
        let cv = protocol_views(client_offers@);
        assert forall|j: int| 0 <= j < sv.len() implies !spec_contains(cv, sv[j]) by {
            lemma_offered_views(client_offers@, server_prefs@[j]@);
            assert(sv[j] == server_prefs@[j]@);
        }
        lemma_negotiated_skip(sv, cv, sv.len() as int);
        assert(sv.skip(sv.len() as int) =~= Seq::<Seq<u8>>::empty());
    }
    None
}

} // verus!
