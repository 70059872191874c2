use vstd::prelude::*;

verus! {

/// The key under which a service's address is registered in the key-value
/// store: `/services/` followed by the service's name.
pub fn service_key(service_name: &str) -> (key: String)
    ensures
        key@ == "/services/"@ + service_name@,
{
    String::from_str("/services/").concat(service_name)
}

} // verus!
