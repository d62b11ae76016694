//! The CepLá service adapter's verified pieces: the normalized address type
//! and the construction of the request URL. The wire call itself lives with
//! the caller that owns the transport.
use vstd::prelude::*;
use vstd::string::StringExecFns;

verus! {

/// A resolved postal address, normalized field by field. Immutable once
/// built; two addresses are the same location when their city, state and
/// neighborhood agree, whatever formatting the service applied to the rest.
#[derive(PartialEq, Eq, Debug)]
pub struct Address {
    pub cep: String,
    pub state: String,
    pub city: String,
    pub neighborhood: String,
    pub address: String,
    pub details: String,
}

impl Clone for Address {
    fn clone(&self) -> (res: Self)
        ensures
            res == *self,
    {
        Address {
            cep: self.cep.clone(),
            state: self.state.clone(),
            city: self.city.clone(),
            neighborhood: self.neighborhood.clone(),
            address: self.address.clone(),
            details: self.details.clone(),
        }
    }
}

/// Whether two addresses name the same location: city, state and
/// neighborhood agree, even if the services formatted the other fields
/// differently.
pub fn same_location(a: &Address, b: &Address) -> (r: bool)
    ensures
        r == (a.city@ == b.city@ && a.state@ == b.state@ && a.neighborhood@ == b.neighborhood@),
{
    a.city == b.city && a.state == b.state && a.neighborhood == b.neighborhood
}

/// The URL that the CepLá lookup for `cep` is sent to.
pub fn request_url(cep: &str) -> (r: String)
    ensures
        r@ == "http://cep.la/"@ + cep@,
{
    let mut r = "http://cep.la/".to_owned();
    r.append(cep);
    r
}

} // verus!
