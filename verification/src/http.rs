//! The addresses of the notification service.
//!
//! The service is reached over HTTP by whoever embeds the library; what the
//! library fixes is the address that belongs to each endpoint.

use vstd::prelude::*;

verus! {

/// The address of an endpoint: the base address, a slash, and the endpoint.
pub open spec fn endpoint_url(base_url: Seq<char>, endpoint: Seq<char>) -> Seq<char> {
    base_url + "/"@ + endpoint
}

/// A service, known by its base address.
pub struct BlocklessAPI {
    base_url: String,
}

impl View for BlocklessAPI {
    type V = Seq<char>;

    /// The base address.
    closed spec fn view(&self) -> Seq<char> {
        self.base_url@
    }
}

impl BlocklessAPI {
    /// The service at the given base address.
    pub fn new(base_url: &str) -> (api: Self)
        ensures
            api@ == base_url@,
    {
        BlocklessAPI { base_url: String::from_str(base_url) }
    }

    /// The address of the endpoint at this service.
    pub fn url(&self, endpoint: &str) -> (url: String)
        ensures
            url@ == endpoint_url(self@, endpoint@),
    {
        let mut url = self.base_url.clone();
        url.append("/");
        url.append(endpoint);
        url
    }
}

} // verus!
