use vstd::prelude::*;
use crate::memo::{CreatedCluster, Memo};
use crate::network::Subnet;
use crate::resources::ProviderError;
use crate::role::ProfileLookup;

verus! {

/// What a state machine asks its driver to do next.
#[derive(Debug)]
pub enum Action {
    /// Read the last published progress record.
    GetInfo,
    /// Publish the progress record.
    SendInfo(Memo),
    /// Build cloud access from a credentials secret, an assumed role and a region
    /// (the default region when absent).
    BuildConfig {
        aws_secret_name: Option<String>,
        assume_role: Option<String>,
        region: Option<String>,
    },
    CreateCluster { cluster_name: String },
    /// Read the ARN of an instance profile.
    GetInstanceProfileArn { instance_profile_name: String },
    /// Ask whether an instance profile exists.
    LookupInstanceProfile { instance_profile_name: String },
    CreateRole { role_name: String, assume_role_policy_document: String },
    AttachRolePolicy { role_name: String, policy_arn: String },
    CreateInstanceProfile { instance_profile_name: String },
    AddRoleToInstanceProfile { instance_profile_name: String, role_name: String },
    /// Find the id of the account's default network.
    FindDefaultVpc,
    DescribeSubnets { vpc_id: String },
    /// Wait `delay_secs` seconds, then list the cluster's container instances.
    ListContainerInstances { cluster_name: String, delay_secs: u64 },
    DeleteCluster { cluster_name: String },
    /// Creation succeeded.
    Created(CreatedCluster),
    /// Destruction succeeded.
    Destroyed,
    /// The operation failed.
    Fail(ProviderError),
}

/// The outcome of the last action, as the driver observed it.
#[derive(Debug)]
pub enum Event {
    /// The progress record that was read.
    Info(Memo),
    /// The action succeeded and returned nothing that the machine needs.
    Completed,
    /// The action returned a value (an ARN, a network id).
    Value(String),
    /// The action succeeded but the value it should have returned was absent.
    Missing,
    Lookup(ProfileLookup),
    Subnets(Vec<Subnet>),
    /// The container instances still registered, and the seconds since the wait began.
    ContainerInstances { arns: Vec<String>, elapsed_secs: u64 },
    /// The wait for the container instances passed its bound.
    TimedOut,
    /// The entity that the action was to create exists already.
    AlreadyExists,
    /// The action's effect could not be observed (the request timed out, or
    /// its answer was ambiguous).
    Unobserved,
    /// The action failed, for the given cause.
    Failed(String),
}

} // verus!
