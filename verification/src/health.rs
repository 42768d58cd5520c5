//! The report that the service gives of itself.

use vstd::prelude::*;
use vstd::string::*;

verus! {

/// One endpoint of the service as plain values: what an `EndpointInfo`
/// stands for.
pub struct Endpoint {
    pub path: Seq<char>,
    pub method: Seq<char>,
    pub description: Seq<char>,
}

/// One endpoint of the service: where it is, how it is called, what it does.
#[derive(Debug)]
pub struct EndpointInfo {
    pub path: String,
    pub method: String,
    pub description: String,
}

impl View for EndpointInfo {
    type V = Endpoint;

    open spec fn view(&self) -> Endpoint {
        Endpoint { path: self.path@, method: self.method@, description: self.description@ }
    }
}

impl EndpointInfo {
    /// An endpoint with the given path, method and description.
    pub fn new(path: &str, method: &str, description: &str) -> (endpoint: Self)
        ensures
            endpoint@ == (Endpoint { path: path@, method: method@, description: description@ }),
    {
        EndpointInfo {
            path: String::from_str(path),
            method: String::from_str(method),
            description: String::from_str(description),
        }
    }
}

/// The report of a service as plain values: what a `HealthResponse` stands for.
pub struct Health {
    pub status: Seq<char>,
    pub version: Seq<char>,
    pub endpoints: Seq<Endpoint>,
}

impl Health {
    /// The four endpoints of the service, in the order in which they are reported.
    pub open spec fn endpoints() -> Seq<Endpoint> {
        seq![
            Endpoint { path: "/"@, method: "GET"@, description: "Health check endpoint"@ },
            Endpoint {
                path: "/generate"@,
                method: "POST"@,
                description: "Generate customized QR code as JSON with base64 image"@,
            },
            Endpoint {
                path: "/generate"@,
                method: "GET"@,
                description: "Generate customized QR code via query parameters"@,
            },
            Endpoint {
                path: "/image"@,
                method: "POST"@,
                description: "Generate customized QR code as downloadable image"@,
            },
        ]
    }

    /// The report of a healthy service of the given version.
    pub open spec fn healthy(version: Seq<char>) -> Health {
        Health { status: "healthy"@, version, endpoints: Health::endpoints() }
    }
}

/// The report of a service: its state, its version and its endpoints.
#[derive(Debug)]
pub struct HealthResponse {
    pub status: String,
    pub version: String,
    pub endpoints: Vec<EndpointInfo>,
}

impl View for HealthResponse {
    type V = Health;

    open spec fn view(&self) -> Health {
        Health {
            status: self.status@,
            version: self.version@,
            endpoints: self.endpoints@.map_values(|endpoint: EndpointInfo| endpoint@),
        }
    }
}

impl HealthResponse {
    /// The report of a healthy service of the given version.
    pub fn healthy(version: &str) -> (report: Self)
        ensures
            report@ == Health::healthy(version@),
    {
        let mut endpoints: Vec<EndpointInfo> = Vec::new();
        endpoints.push(EndpointInfo::new("/", "GET", "Health check endpoint"));
        endpoints.push(
            EndpointInfo::new(
                "/generate",
                "POST",
                "Generate customized QR code as JSON with base64 image",
            ),
        );
        endpoints.push(
            EndpointInfo::new(
                "/generate",
                "GET",
                "Generate customized QR code via query parameters",
            ),
        );
        endpoints.push(
            EndpointInfo::new(
                "/image",
                "POST",
                "Generate customized QR code as downloadable image",
            ),
        );
        assert(endpoints@.map_values(|endpoint: EndpointInfo| endpoint@) =~= Health::endpoints());
        HealthResponse {
            status: String::from_str("healthy"),
            version: String::from_str(version),
            endpoints,
        }
    }
}

} // verus!
