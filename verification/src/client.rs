//! The client: a base address and the four endpoint addresses built from it.

use vstd::prelude::*;
use vstd::string::StringExecFns;

verus! {

/// Address of the public service that [`Client::new`] points at.
pub const BASE_API_URL: &'static str = "https://api-v3.amtraker.com/v3";

/// A client of the tracking service, identified by the base address that its
/// endpoint addresses start with.
#[derive(Debug, Clone)]
pub struct Client {
    base_url: String,
}

impl View for Client {
    type V = Seq<char>;

    /// The base address, as a sequence of characters.
    closed spec fn view(&self) -> Seq<char> {
        self.base_url@
    }
}

impl Default for Client {
    /// The client of the public service.
    fn default() -> (client: Client)
        ensures
            client@ == BASE_API_URL@,
    {
        Client::new()
    }
}

impl Client {
    /// Creates a client of the public service.
    pub fn new() -> (client: Client)
        ensures
            client@ == BASE_API_URL@,
    {
        Client { base_url: String::from_str(BASE_API_URL) }
    }

    /// Creates a client of the service found at `base_url`.
    pub fn with_base_url(base_url: &str) -> (client: Client)
        ensures
            client@ == base_url@,
    {
        Client { base_url: String::from_str(base_url) }
    }

    /// The address that lists every train the service tracks.
    pub fn trains_url(&self) -> (url: String)
        ensures
            url@ == self@ + "/trains"@,
    {
        self.base_url.clone().concat("/trains")
    }

    /// The address that lists the trains which `train_identifier` names,
    /// a train number such as `657` or a train identifier such as `657-30`.
    pub fn train_url(&self, train_identifier: &str) -> (url: String)
        ensures
            url@ == self@ + "/trains/"@ + train_identifier@,
    {
        self.base_url.clone().concat("/trains/").concat(train_identifier)
    }

    /// The address that gives every station the service knows.
    pub fn stations_url(&self) -> (url: String)
        ensures
            url@ == self@ + "/stations"@,
    {
        self.base_url.clone().concat("/stations")
    }

    /// The address that gives the station whose code is `station_code`.
    pub fn station_url(&self, station_code: &str) -> (url: String)
        ensures
            url@ == self@ + "/stations/"@ + station_code@,
    {
        self.base_url.clone().concat("/stations/").concat(station_code)
    }

    /// The base address of the client.
    pub fn base_url(&self) -> (base: &str)
        ensures
            base@ == self@,
    {
        self.base_url.as_str()
    }
}

} // verus!
