//! The session probe: validates a previously issued credential on a
//! later request.
//!
//! The credential is the serialized identity token; the probe checks its
//! structural shape — three non-empty base64url segments separated by
//! two dots.  There is no fresh nonce to bind to on a bare session
//! check, so this is intentionally weaker than the login verification.

use vstd::prelude::*;

use crate::http::{internal_server_error, HttpResponse};

verus! {

/// A character of the base64url alphabet.
pub open spec fn is_b64url_char(c: char) -> bool {
    ('A' <= c && c <= 'Z') || ('a' <= c && c <= 'z') || ('0' <= c && c <= '9') || c == '-' || c
        == '_'
}

/// Positions `i` and `j` witness the compact-serialization shape of `s`:
/// dots exactly there, three non-empty base64url segments around them.
pub open spec fn jwt_witness(s: Seq<char>, i: int, j: int) -> bool {
    &&& 0 < i
    &&& i + 1 < j
    &&& j + 1 < s.len()
    &&& s[i] == '.'
    &&& s[j] == '.'
    &&& forall|k: int| 0 <= k < s.len() && k != i && k != j ==> is_b64url_char(#[trigger] s[k])
}

/// The structural shape of a serialized identity token: exactly three
/// non-empty base64url segments joined by dots.
pub open spec fn is_compact_jwt(s: Seq<char>) -> bool {
    exists|i: int, j: int| jwt_witness(s, i, j)
}

/// Whether position `k` is one of the recorded dot positions.
spec fn is_dot_pos(dot1: Option<usize>, dot2: Option<usize>, k: int) -> bool {
    ||| dot1 matches Some(d) && k == d
    ||| dot2 matches Some(d) && k == d
}

/// Checks the structural shape of a serialized identity token.
pub fn jwt_structure_ok(s: &str) -> (r: bool)
    ensures
        r == is_compact_jwt(s@),
{
    if !s.is_ascii() {
        proof {
            if is_compact_jwt(s@) {
                let (i, j) = choose|i: int, j: int| jwt_witness(s@, i, j);
                let k = choose|k: int| 0 <= k < s@.len() && !('\0' <= #[trigger] s@[k] <= '\u{7f}');
                assert(s@[k] != '.');
                assert(!is_b64url_char(s@[k]));
            }
        }
        return false;
    }
    let len = s.unicode_len();
    let mut dot1: Option<usize> = None;
    let mut dot2: Option<usize> = None;
    let mut i: usize = 0;
    while i < len
        invariant
            vstd::string::is_ascii(s),
            len == s@.len(),
            i <= len,
            dot1 matches None ==> dot2 matches None,
            dot1 matches Some(d1) ==> 0 < d1 < i && s@[d1 as int] == '.',
            dot2 matches Some(d2) ==> (dot1 matches Some(d1) && d1 + 1 < d2) && d2 < i
                && s@[d2 as int] == '.',
            forall|k: int|
                0 <= k < i && !is_dot_pos(dot1, dot2, k) ==> is_b64url_char(#[trigger] s@[k]),
        decreases len - i,
    {
        let b = s.get_ascii(i);
        let c = b as char;
        proof {
            assert(s@[i as int] as u8 == b);
            assert(c == s@[i as int]);
        }
        if b == 46 {
            // a dot
            match dot1 {
                None => {
                    if i == 0 {
                        proof {
                            if is_compact_jwt(s@) {
                                let (wi, wj) = choose|wi: int, wj: int| jwt_witness(s@, wi, wj);
                                assert(is_b64url_char(s@[0]));
                            }
                        }
                        return false;
                    }
                    dot1 = Some(i);
                },
                Some(d1) => {
                    match dot2 {
                        None => {
                            if i == d1 + 1 {
                                proof {
                                    if is_compact_jwt(s@) {
                                        let (wi, wj) = choose|wi: int, wj: int|
                                            jwt_witness(s@, wi, wj);
                                        if d1 != wi && d1 != wj {
                                            assert(is_b64url_char(s@[d1 as int]));
                                        } else if i != wi && i != wj {
                                            assert(is_b64url_char(s@[i as int]));
                                        }
                                    }
                                }
                                return false;
                            }
                            dot2 = Some(i);
                        },
                        Some(d2) => {
                            // a third dot
                            proof {
                                if is_compact_jwt(s@) {
                                    let (wi, wj) = choose|wi: int, wj: int|
                                        jwt_witness(s@, wi, wj);
                                    if d1 != wi && d1 != wj {
                                        assert(is_b64url_char(s@[d1 as int]));
                                    } else if d2 != wi && d2 != wj {
                                        assert(is_b64url_char(s@[d2 as int]));
                                    } else {
                                        assert(is_b64url_char(s@[i as int]));
                                    }
                                }
                            }
                            return false;
                        },
                    }
                },
            }
        } else if (65 <= b && b <= 90) || (97 <= b && b <= 122) || (48 <= b && b <= 57) || b == 45
            || b == 95 {
            // a base64url character
        } else {
            proof {
                if is_compact_jwt(s@) {
                    let (wi, wj) = choose|wi: int, wj: int| jwt_witness(s@, wi, wj);
                    assert(is_b64url_char(s@[i as int]));
                }
            }
            return false;
        }
        i += 1;
    }
    match (dot1, dot2) {
        (Some(d1), Some(d2)) => {
            if d2 + 1 < len {
                proof {
                    assert(jwt_witness(s@, d1 as int, d2 as int));
                }
                true
            } else {
                proof {
                    if is_compact_jwt(s@) {
                        let (wi, wj) = choose|wi: int, wj: int| jwt_witness(s@, wi, wj);
                        if wj != d1 && wj != d2 {
                            assert(is_b64url_char(s@[wj]));
                        } else if wi != d1 && wi != d2 {
                            assert(is_b64url_char(s@[wi]));
                        }
                    }
                }
                false
            }
        },
        _ => {
            proof {
                if is_compact_jwt(s@) {
                    let (wi, wj) = choose|wi: int, wj: int| jwt_witness(s@, wi, wj);
                    if !is_dot_pos(dot1, dot2, wi) {
                        assert(is_b64url_char(s@[wi]));
                    } else {
                        assert(is_b64url_char(s@[wj]));
                    }
                }
            }
            false
        },
    }
}

/// Probes the session: a structurally valid credential is authenticated;
/// a missing or unparsable one is not.
pub fn auth_request(id_token_cookie: Option<String>) -> (r: Result<HttpResponse, HttpResponse>)
    ensures
        (id_token_cookie matches Some(t) && is_compact_jwt(t@)) ==> (r matches Ok(resp)
            && resp.status == 200 && resp.body@ == "Authenticated"@),
        (id_token_cookie matches Some(t) && !is_compact_jwt(t@)) ==> (r matches Err(resp)
            && resp.status == 500 && resp.body@ == "Failed to parse ID token"@),
        id_token_cookie matches None ==> (r matches Err(resp) && resp.status == 500 && resp.body@
            == "Not authenticated"@),
{
    match id_token_cookie {
        Some(token) => {
            if jwt_structure_ok(token.as_str()) {
                Ok(HttpResponse { status: 200, body: String::from_str("Authenticated") })
            } else {
                Err(internal_server_error(String::from_str("Failed to parse ID token")))
            }
        },
        None => Err(internal_server_error(String::from_str("Not authenticated"))),
    }
}

} // verus!
