//! Header construction for the relayed POST: three fixed fields always, plus
//! one authorization field exactly when the caller supplied a credential.

use vstd::prelude::*;
use vstd::string::StringExecFns;

verus! {

/// The header fields every relayed request carries, in order.
pub open spec fn base_header_fields() -> Seq<(Seq<char>, Seq<char>)> {
    seq![
        ("content-type"@, "application/json"@),
        ("accept"@, "application/json"@),
        ("pragma"@, "no-cache"@),
    ]
}

/// The header fields sent for a given credential: the base fields alone when
/// the credential is empty, otherwise the base fields followed by an
/// authorization field whose value is the credential verbatim — no scheme
/// prefix is added or assumed.
pub open spec fn request_header_fields(auth: Seq<char>) -> Seq<(Seq<char>, Seq<char>)> {
    if auth.len() == 0 {
        base_header_fields()
    } else {
        base_header_fields().push(("authorization"@, auth))
    }
}

/// Builds the header list for a request carrying the given credential.
pub fn request_headers(auth: &str) -> (hs: Vec<(String, String)>)
    ensures
        hs@.len() == request_header_fields(auth@).len(),
        forall|i: int|
            0 <= i < hs@.len() ==> (#[trigger] hs@[i]).0@ == request_header_fields(auth@)[i].0
                && hs@[i].1@ == request_header_fields(auth@)[i].1,
{
    let mut hs: Vec<(String, String)> = Vec::new();
    hs.push((String::from_str("content-type"), String::from_str("application/json")));
    hs.push((String::from_str("accept"), String::from_str("application/json")));
    hs.push((String::from_str("pragma"), String::from_str("no-cache")));
    if !auth.is_empty() {
        hs.push((String::from_str("authorization"), String::from_str(auth)));
    }
    hs
}

/// An authorization field stands among the request headers exactly when the
/// credential is non-empty; then it stands once, last, and carries the
/// credential itself as its value. No base field names it.
pub proof fn lemma_authorization_field(auth: Seq<char>)
    ensures
        auth.len() == 0 ==> forall|i: int|
            0 <= i < request_header_fields(auth).len() ==> (#[trigger] request_header_fields(
                auth,
            )[i]).0 != "authorization"@,
        auth.len() > 0 ==> {
            &&& request_header_fields(auth).len() == 4
            &&& request_header_fields(auth)[3] == ("authorization"@, auth)
            &&& forall|i: int|
                0 <= i < 3 ==> (#[trigger] request_header_fields(auth)[i]).0 != "authorization"@
        },
{
    reveal_strlit("content-type");
    reveal_strlit("accept");
    reveal_strlit("pragma");
    reveal_strlit("authorization");
    assert("content-type"@.len() == 12);
    assert("accept"@.len() == 6);
    assert("pragma"@.len() == 6);
    assert("authorization"@.len() == 13);
    assert(forall|i: int|
        0 <= i < 3 ==> (#[trigger] base_header_fields()[i]).0 != "authorization"@) by {
        assert(base_header_fields()[0].0 == "content-type"@);
        assert(base_header_fields()[1].0 == "accept"@);
        assert(base_header_fields()[2].0 == "pragma"@);
    }
}

} // verus!
