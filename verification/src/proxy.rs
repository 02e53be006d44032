//! Preparation of a configured proxy address for the outbound network
//! client that collaborators construct.
use vstd::prelude::*;
use crate::strings::str_starts_with;

verus! {

/// A proxy address made scheme-qualified: one that does not already start
/// with `http` gets `http://` prefixed, any other is kept as it is.
pub fn normalize_proxy(proxy: &str) -> (r: String)
    ensures
        "http"@.is_prefix_of(proxy@) ==> r@ == proxy@,
        !"http"@.is_prefix_of(proxy@) ==> r@ == "http://"@ + proxy@,
{
    if str_starts_with(proxy, "http") {
        proxy.to_owned()
    } else {
        let mut s = String::new();
        s.append("http://");
        s.append(proxy);
        s
    }
}

} // verus!
