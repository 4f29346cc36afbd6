use vstd::prelude::*;
use vstd::string::StringSliceAdditionalSpecFns;
use crate::bytes::{lower_bytes, to_lower, slice_eq};

verus! {

/// One HTTP header: a name and a value, both byte strings.
pub struct Header {
    pub name: Vec<u8>,
    pub value: Vec<u8>,
}

/// The abstract content of a header list: a sequence of (name, value) pairs.
pub open spec fn hdr_pairs(hs: Seq<Header>) -> Seq<(Seq<u8>, Seq<u8>)> {
    hs.map_values(|h: Header| (h.name@, h.value@))
}

/// Whether a header name, compared case-insensitively, is one of the
/// hop-by-hop header names that a proxy must not forward.
pub open spec fn is_hop_by_hop(name: Seq<u8>) -> bool {
    ||| lower_bytes(name) == "connection".spec_bytes()
    ||| lower_bytes(name) == "keep-alive".spec_bytes()
    ||| lower_bytes(name) == "proxy-authenticate".spec_bytes()
    ||| lower_bytes(name) == "proxy-authorization".spec_bytes()
    ||| lower_bytes(name) == "te".spec_bytes()
    ||| lower_bytes(name) == "trailers".spec_bytes()
    ||| lower_bytes(name) == "transfer-encoding".spec_bytes()
    ||| lower_bytes(name) == "upgrade".spec_bytes()
}

/// The subsequence of `s` whose header names are not hop-by-hop.
pub open spec fn filter_headers_spec(s: Seq<(Seq<u8>, Seq<u8>)>) -> Seq<(Seq<u8>, Seq<u8>)>
    decreases s.len(),
{
    if s.len() == 0 {
        Seq::empty()
    } else if is_hop_by_hop(s[0].0) {
        filter_headers_spec(s.drop_first())
    } else {
        seq![s[0]] + filter_headers_spec(s.drop_first())
    }
}

/// Whether a header is hop-by-hop and should not be forwarded.
pub fn is_hop_by_hop_header(name: &[u8]) -> (r: bool)
    ensures
        r == is_hop_by_hop(name@),
{
    let lowered = to_lower(name);
    let l = lowered.as_slice();
    slice_eq(l, "connection".as_bytes()) || slice_eq(l, "keep-alive".as_bytes()) || slice_eq(
        l,
        "proxy-authenticate".as_bytes(),
    ) || slice_eq(l, "proxy-authorization".as_bytes()) || slice_eq(l, "te".as_bytes()) || slice_eq(
        l,
        "trailers".as_bytes(),
    ) || slice_eq(l, "transfer-encoding".as_bytes()) || slice_eq(l, "upgrade".as_bytes())
}

/// Returns the headers of `hs` whose names are not hop-by-hop, in order,
/// with names and values unchanged.
pub fn filter_headers(hs: &Vec<Header>) -> (r: Vec<Header>)
    ensures
        hdr_pairs(r@) == filter_headers_spec(hdr_pairs(hs@)),
{
    let n = hs.len();
    let mut r: Vec<Header> = Vec::new();
    let mut i: usize = 0;
    proof {
        assert(hdr_pairs(hs@).skip(0) =~= hdr_pairs(hs@));
        assert(hdr_pairs(r@) =~= Seq::<(Seq<u8>, Seq<u8>)>::empty());
    }
    while i < n
        invariant
            n == hs@.len(),
            i <= n,
            filter_headers_spec(hdr_pairs(hs@)) == hdr_pairs(r@) + filter_headers_spec(
                hdr_pairs(hs@).skip(i as int),
            ),
        decreases n - i,
    {
        let ghost rest = hdr_pairs(hs@).skip(i as int);
        proof {
            assert(rest.len() == n - i);
            assert(rest[0] == hdr_pairs(hs@)[i as int]);
            assert(rest.drop_first() =~= hdr_pairs(hs@).skip(i + 1));
        }
        let h = &hs[i];
        if !is_hop_by_hop_header(h.name.as_slice()) {
            let ghost r_before = hdr_pairs(r@);
            let copied = Header {
                name: vstd::slice::slice_to_vec(h.name.as_slice()),
                value: vstd::slice::slice_to_vec(h.value.as_slice()),
            };
            r.push(copied);
            proof {
                assert(hdr_pairs(r@) =~= r_before + seq![rest[0]]);
                assert(r_before + (seq![rest[0]] + filter_headers_spec(rest.drop_first()))
                    =~= (r_before + seq![rest[0]]) + filter_headers_spec(rest.drop_first()));
            }
        }
        i += 1;
    }
    proof {
        assert(hdr_pairs(hs@).skip(n as int) =~= Seq::<(Seq<u8>, Seq<u8>)>::empty());
        assert(hdr_pairs(r@) + Seq::<(Seq<u8>, Seq<u8>)>::empty() =~= hdr_pairs(r@));
    }
    r
}

/// Law: filtering hop-by-hop headers is idempotent; filtering a second
/// time changes nothing.
pub proof fn lemma_filter_headers_idempotent(s: Seq<(Seq<u8>, Seq<u8>)>)
    ensures
        filter_headers_spec(filter_headers_spec(s)) == filter_headers_spec(s),
    decreases s.len(),
{
    if s.len() == 0 {
    } else {
        lemma_filter_headers_idempotent(s.drop_first());
        if !is_hop_by_hop(s[0].0) {
            let t = seq![s[0]] + filter_headers_spec(s.drop_first());
            assert(t[0] == s[0]);
            assert(t.drop_first() =~= filter_headers_spec(s.drop_first()));
            assert(filter_headers_spec(t) == seq![s[0]] + filter_headers_spec(
                filter_headers_spec(s.drop_first()),
            ));
        }
    }
}

/// Law: no hop-by-hop header name (case-insensitively) survives filtering.
pub proof fn lemma_filter_headers_excludes(s: Seq<(Seq<u8>, Seq<u8>)>)
    ensures
        forall|i: int|
            0 <= i < filter_headers_spec(s).len() ==> !is_hop_by_hop(
                #[trigger] filter_headers_spec(s)[i].0,
            ),
    decreases s.len(),
{
    if s.len() == 0 {
    } else {
        lemma_filter_headers_excludes(s.drop_first());
        let f = filter_headers_spec(s);
        let g = filter_headers_spec(s.drop_first());
        if !is_hop_by_hop(s[0].0) {
            assert forall|i: int| 0 <= i < f.len() implies !is_hop_by_hop(#[trigger] f[i].0) by {
                if i > 0 {
                    assert(f[i] == g[i - 1]);
                    assert(!is_hop_by_hop(g[i - 1].0));
                }
            }
        } else {
            assert forall|i: int| 0 <= i < f.len() implies !is_hop_by_hop(#[trigger] f[i].0) by {
                assert(f[i] == g[i]);
                assert(!is_hop_by_hop(g[i].0));
            }
        }
    }
}

} // verus!
