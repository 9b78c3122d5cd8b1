//! Admin bearer token.
//!
//! Listing and download require the admin account's bearer token. The
//! surrounding request layer hands the raw `Authorization` header bytes in;
//! the check itself — scheme prefix and exact token match — is decided
//! here.

use vstd::prelude::*;
use vstd::slice::slice_index_get;

verus! {

/// The bearer token of the admin account, as issued to a logged-in admin.
pub struct AdminToken {
    token: String,
}

impl View for AdminToken {
    type V = Seq<char>;

    closed spec fn view(&self) -> Seq<char> {
        self.token@
    }
}

impl AdminToken {
    /// Wraps the configured admin token value.
    pub fn new(token: String) -> (r: Self)
        ensures
            r@ == token@,
    {
        AdminToken { token }
    }

    /// The token value, for the transport layer to serialize.
    pub fn value(&self) -> (r: &str)
        ensures
            r@ == self@,
    {
        self.token.as_str()
    }
}

/// The bytes of `Bearer `, the scheme prefix of the authorization header.
pub open spec fn bearer_prefix() -> Seq<u8> {
    seq![66u8, 101u8, 97u8, 114u8, 101u8, 114u8, 32u8]
}

/// `b` is a byte that the HTTP layer's header-to-string conversion admits:
/// visible ASCII, space, or horizontal tab.
pub open spec fn is_header_text_byte(b: u8) -> bool {
    (32 <= b && b <= 126) || b == 9
}

/// Every byte of the header survives the HTTP layer's header-to-string
/// conversion. A header with any other byte never authorizes: the request
/// layer reads the header as a string before comparing, and that read
/// fails.
pub open spec fn header_is_text(header: Seq<u8>) -> bool {
    forall|i: int| 0 <= i < header.len() ==> is_header_text_byte(#[trigger] header[i])
}

/// A header value authorizes admin access exactly when all of its bytes
/// survive the header-to-string conversion, it starts with `Bearer `, and
/// everything after that prefix is exactly the configured admin token.
pub open spec fn authorizes(header: Seq<u8>, admin_token: Seq<u8>) -> bool {
    &&& header_is_text(header)
    &&& header.len() >= 7
    &&& header.subrange(0, 7) == bearer_prefix()
    &&& header.skip(7) == admin_token
}

/// Verifies that the request's `Authorization` header carries the admin
/// account's bearer token: true exactly when the header is present and
/// authorizes against `admin_token`.
pub fn has_admin_token(auth_header: Option<&[u8]>, admin_token: &[u8]) -> (r: bool)
    ensures
        r <==> (auth_header is Some && authorizes(auth_header->Some_0@, admin_token@)),
{
    let h = match auth_header {
        Some(inner) => inner,
        None => {
            return false;
        },
    };
    proof {
        assert(auth_header matches Some(x) && x@ == h@);
    }
    let mut v: usize = 0;
    while v < h.len()
        invariant
            auth_header is Some && auth_header->Some_0@ == h@,
            v <= h@.len(),
            forall|m: int| 0 <= m < v ==> is_header_text_byte(#[trigger] h@[m]),
        decreases h@.len() - v,
    {
        let b = *slice_index_get(h, v);
        if !((32 <= b && b <= 126) || b == 9) {
            proof {
                assert(!is_header_text_byte(h@[v as int]));
                assert(!header_is_text(h@));
            }
            return false;
        }
        v += 1;
    }
    proof {
        assert(header_is_text(h@));
    }
    let total = h.len();
    if total < 7 || total - 7 != admin_token.len() {
        proof {
            if h@.len() >= 7 && h@.skip(7) == admin_token@ {
                assert(h@.skip(7).len() == admin_token@.len());
            }
        }
        return false;
    }
    let mut j: usize = 0;
    while j < 7
        invariant
            auth_header is Some && auth_header->Some_0@ == h@,
            header_is_text(h@),
            h@.len() >= 7,
            j <= 7,
            forall|k: int| 0 <= k < j ==> h@[k] == bearer_prefix()[k],
        decreases 7 - j,
    {
        let expected: u8 = if j == 0 {
            66
        } else if j == 1 {
            101
        } else if j == 2 {
            97
        } else if j == 3 {
            114
        } else if j == 4 {
            101
        } else if j == 5 {
            114
        } else {
            32
        };
        proof {
            assert(expected == bearer_prefix()[j as int]);
        }
        if *slice_index_get(h, j) != expected {
            proof {
                assert(h@[j as int] != bearer_prefix()[j as int]);
                assert(!authorizes(h@, admin_token@)) by {
                    if h@.subrange(0, 7) == bearer_prefix() {
                        assert(h@.subrange(0, 7)[j as int] == bearer_prefix()[j as int]);
                        assert(h@.subrange(0, 7)[j as int] == h@[j as int]);
                        assert(false);
                    }
                }
            }
            return false;
        }
        j += 1;
    }
    proof {
        assert(h@.subrange(0, 7) =~= bearer_prefix());
    }
    let mut k: usize = 0;
    while k < admin_token.len()
        invariant
            auth_header is Some && auth_header->Some_0@ == h@,
            header_is_text(h@),
            total == h@.len(),
            h@.len() == admin_token@.len() + 7,
            k <= admin_token@.len(),
            forall|m: int| 0 <= m < k ==> h@[7 + m] == admin_token@[m],
        decreases admin_token@.len() - k,
    {
        if *slice_index_get(h, 7 + k) != *slice_index_get(admin_token, k) {
            proof {
                assert(h@[7 + k as int] != admin_token@[k as int]);
                assert(!authorizes(h@, admin_token@)) by {
                    if h@.skip(7) == admin_token@ {
                        assert(h@.skip(7)[k as int] == admin_token@[k as int]);
                        assert(h@.skip(7)[k as int] == h@[7 + k as int]);
                        assert(false);
                    }
                }
            }
            return false;
        }
        k += 1;
    }
    proof {
        assert(h@.skip(7) =~= admin_token@);
    }
    true
}

} // verus!
