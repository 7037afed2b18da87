use vstd::prelude::*;

use crate::status::Operation;

verus! {

/// The service's base endpoint.
pub const ENDPOINT: &'static str = "https://generativelanguage.googleapis.com";

/// A client configured with an API key and a base endpoint, both fixed for
/// its lifetime.
pub struct PalmClient {
    api_key: String,
    endpoint: String,
}

impl PalmClient {
    pub closed spec fn api_key_view(&self) -> Seq<char> {
        self.api_key@
    }

    pub closed spec fn endpoint_view(&self) -> Seq<char> {
        self.endpoint@
    }

    /// The API key, sent with every request.
    pub fn api_key(&self) -> (r: &String)
        ensures
            r@ == self.api_key_view(),
    {
        &self.api_key
    }

    /// The base endpoint that every request is sent to.
    pub fn endpoint(&self) -> (r: &String)
        ensures
            r@ == self.endpoint_view(),
    {
        &self.endpoint
    }

    /// The address of `op` on the model named `model` (unused for
    /// `ListModels`), with the API key as its query.
    pub fn url(&self, op: Operation, model: &str) -> (r: String)
        ensures
            op == Operation::ListModels ==> r@ == self.endpoint_view() + "/v1beta2/models"@
                + "?key="@ + self.api_key_view(),
            op != Operation::ListModels ==> r@ == self.endpoint_view() + "/v1beta2/models/"@
                + model@ + method_suffix(op) + "?key="@ + self.api_key_view(),
    {
        let mut u = self.endpoint.clone();
        if op == Operation::ListModels {
            u.append("/v1beta2/models");
        } else {
            u.append("/v1beta2/models/");
            u.append(model);
            u.append(method_suffix_str(op));
        }
        u.append("?key=");
        u.append(self.api_key.as_str());
        u
    }
}

/// What follows the model's name in the path of `op`.
pub open spec fn method_suffix(op: Operation) -> Seq<char> {
    match op {
        Operation::CountMessageTokens => ":countMessageTokens"@,
        Operation::GenerateEmbeddings => ":embedText"@,
        Operation::Chat => ":generateMessage"@,
        Operation::GenerateText => ":generateText"@,
        _ => ""@,
    }
}

fn method_suffix_str(op: Operation) -> (r: &'static str)
    ensures
        r@ == method_suffix(op),
{
    match op {
        Operation::CountMessageTokens => ":countMessageTokens",
        Operation::GenerateEmbeddings => ":embedText",
        Operation::Chat => ":generateMessage",
        Operation::GenerateText => ":generateText",
        _ => "",
    }
}

/// A client for the service's own endpoint.
pub fn create_client(api_key: String) -> (c: PalmClient)
    ensures
        c.api_key_view() == api_key@,
        c.endpoint_view() == ENDPOINT@,
{
    PalmClient { api_key: api_key, endpoint: String::from_str(ENDPOINT) }
}

/// A client for another endpoint, such as a local stand-in for the service.
pub fn create_client_with_endpoint(api_key: String, endpoint: String) -> (c: PalmClient)
    ensures
        c.api_key_view() == api_key@,
        c.endpoint_view() == endpoint@,
{
    PalmClient { api_key: api_key, endpoint: endpoint }
}

} // verus!
