pub mod check;
pub mod cleanup;
pub mod cluster;
pub mod deploy;
pub mod init;
pub mod undeploy;
pub mod values;

pub use check::check;
pub use check::create_check;
pub use cleanup::cleanup_all_namespaces;
pub use cleanup::cleanup_namespace;
pub use cluster::list_clusters;
pub use cluster::set_cluster;
pub use deploy::create_deploy;
pub use deploy::deploy;
pub use init::initialize_configuration;
pub use undeploy::create_undeploy;
pub use undeploy::undeploy;
