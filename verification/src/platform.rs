//! The types of the surrounding server that the states hand on without looking inside.

use vstd::prelude::*;

verus! {

/// Names the types that a host of the states brings along.
pub trait Platform {
    /// Where the schema comes from.
    type SchemaSource;

    /// Where the operations come from.
    type OperationSource;

    /// How clients reach the server.
    type Transport;

    /// Which headers of a client's request are passed on to the GraphQL endpoint.
    type ForwardHeaders;

    /// A last change to the headers of an outgoing request.
    type HeaderTransform;

    /// An HTTP request as it reached the server.
    type RequestParts;

    /// The JSON schemas of custom GraphQL scalars.
    type CustomScalarMap;

    /// Which mutations may become tools.
    type MutationMode;

    /// Settings of the health check.
    type HealthCheckConfig;

    /// The health check of a running server.
    type HealthCheck;

    /// Settings for cross-origin requests.
    type CorsConfig;

    /// Stops the serving tasks of a running server.
    type CancellationToken;

    /// A connected client.
    type Peer;

    /// A tool of an app, with what is needed to present and to execute it.
    type AppTool;

    /// What an app is made of, besides its name, its tools and its resource.
    type AppManifest;

    /// The kind of client that an app is presented to.
    type AppTarget;

    /// Why the operations could not be read from files.
    type FileError;

    /// Which operations could not be read from files.
    type FileOrigin;

    /// Why the operations could not be fetched from a collection.
    type CollectionError;

    /// Why the server could not be started.
    type StartError;
}

} // verus!
