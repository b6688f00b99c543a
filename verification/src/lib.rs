pub mod cluster;
pub mod connections;
pub mod crypto;
pub mod digest;
pub mod envelopes;
pub mod federated;
pub mod harness;
pub mod identities;
pub mod jira;
pub mod json;
pub mod kube_api;
pub mod manifests;
pub mod openshell;
pub mod orchestration;
pub mod polling;
pub mod probe;
pub mod runtimes;
pub mod servers;
pub mod store_run;
pub mod task_api;
pub mod task_store;
pub mod text;
pub mod upgrade;
