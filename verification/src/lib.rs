//! Manifest resolution for a local package-manager client: named buckets of
//! JSON manifests, a specifier grammar `[bucket/]app`, tolerant license-field
//! normalization, and a first-match-wins lookup policy over bucket order.
pub mod bucket;
pub mod error;
pub mod json;
pub mod license;
pub mod manifest;
pub mod ops;
pub mod proxy;
pub mod strings;
