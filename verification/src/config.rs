//! Service configuration.
//!
//! The configuration options of the surrounding service, with their
//! default values. Reading overrides from the environment is left to the
//! unverified shell around the library; it hands the library plain
//! values.

use vstd::prelude::*;

verus! {

/// Configuration options of the surrounding service.
#[derive(Clone, Debug, PartialEq)]
pub struct Config {
    /// Port to be used for the gRPC server.
    pub docker_port_grpc: u16,
    /// Port to be used for the REST server.
    pub docker_port_rest: u16,
    /// Storage microservice host.
    pub storage_host_grpc: String,
    /// Storage microservice port.
    pub storage_port_grpc: u16,
    /// Path to the log configuration YAML file.
    pub log_config: String,
    /// Rate limit in requests per second for REST requests.
    pub rest_request_limit_per_second: u8,
    /// Limit on the concurrent number of requests the underlying service
    /// can handle.
    pub rest_concurrency_limit_per_service: u8,
    /// Full URL, including the port number, allowed as a request origin
    /// for REST requests.
    pub rest_cors_allowed_origin: String,
}

/// Whether a configuration holds exactly the default values.
pub open spec fn spec_is_default_config(c: Config) -> bool {
    &&& c.docker_port_grpc == 50051u16
    &&& c.docker_port_rest == 8000u16
    &&& c.storage_host_grpc@ == "svc-storage"@
    &&& c.storage_port_grpc == 50008u16
    &&& c.log_config@ == "log4rs.yaml"@
    &&& c.rest_request_limit_per_second == 2u8
    &&& c.rest_concurrency_limit_per_service == 5u8
    &&& c.rest_cors_allowed_origin@ == "http://localhost:3000"@
}

impl Config {
    /// Default values for every configuration option.
    pub fn new() -> (r: Config)
        ensures
            spec_is_default_config(r),
    {
        Config {
            docker_port_grpc: 50051,
            docker_port_rest: 8000,
            storage_host_grpc: "svc-storage".to_owned(),
            storage_port_grpc: 50008,
            log_config: "log4rs.yaml".to_owned(),
            rest_request_limit_per_second: 2,
            rest_concurrency_limit_per_service: 5,
            rest_cors_allowed_origin: "http://localhost:3000".to_owned(),
        }
    }
}

impl Default for Config {
    /// The default configuration, as [`Config::new`] builds it.
    fn default() -> (r: Config)
        ensures
            spec_is_default_config(r),
    {
        Config::new()
    }
}

} // verus!
