//! The trusted boundary to the remote-node client: the opaque client
//! handle and its constructor from an endpoint string.

use vstd::prelude::*;

verus! {

#[verifier::external_type_specification]
#[verifier::external_body]
#[verifier::reject_recursive_types(P)]
pub struct ExProvider<P>(ethers::providers::Provider<P>);

#[verifier::external_type_specification]
#[verifier::external_body]
pub struct ExHttp(ethers::providers::Http);

/// Whether the remote-client constructor accepts an endpoint string.
pub uninterp spec fn endpoint_accepted(url: Seq<char>) -> bool;

/// Relies on ethers' `Provider::<Http>::try_from`, which builds an HTTP
/// client handle by parsing the endpoint with `Url::parse` and performs
/// no network traffic: it succeeds exactly on the strings that parser
/// accepts, a function of the string alone.
#[verifier::external_body]
pub(crate) fn connect_provider(url: &str) -> (r: Option<
    ethers::providers::Provider<ethers::providers::Http>,
>)
    ensures
        r is Some <==> endpoint_accepted(url@),
{
    ethers::providers::Provider::try_from(url).ok()
}

} // verus!
