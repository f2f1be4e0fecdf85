use vstd::prelude::*;

verus! {

/// The well-known name of the role and instance profile that cluster instances use
/// when a request names no instance profile of its own.
pub const IAM_INSTANCE_PROFILE_NAME: &'static str = "testsys-bottlerocket-aws-ecsInstanceRole";

/// The managed policy that lets instances be reached through SSM.
pub const SSM_POLICY_ARN: &'static str = "arn:aws:iam::aws:policy/AmazonSSMManagedInstanceCore";

/// The managed policy that lets instances join an ECS cluster.
pub const ECS_POLICY_ARN: &'static str =
    "arn:aws:iam::aws:policy/service-role/AmazonEC2ContainerServiceforEC2Role";

/// The trust policy of the instance role: EC2 may assume it.
pub const ECS_ROLE_POLICY_DOCUMENT: &'static str = "{
    \"Version\": \"2008-10-17\",
    \"Statement\": [
        {
        \"Sid\": \"\",
        \"Effect\": \"Allow\",
        \"Principal\": {
            \"Service\": \"ec2.amazonaws.com\"
        },
        \"Action\": \"sts:AssumeRole\"
        }
    ]
}";

/// How a lookup of the well-known instance profile came out.
#[derive(PartialEq, Eq, Structural, Clone, Copy, Debug)]
pub enum ProfileLookup {
    Found,
    /// The service answered that no such entity exists.
    NoSuchEntity,
    /// Any other failure of the lookup.
    OtherError,
}

/// Whether the lookup shows the profile may exist: only a definite "no such
/// entity" answer means that it must be created.
pub fn profile_exists(lookup: ProfileLookup) -> (r: bool)
    ensures
        r == (lookup != ProfileLookup::NoSuchEntity),
{
    match lookup {
        ProfileLookup::NoSuchEntity => false,
        _ => true,
    }
}

pub fn text(s: &str) -> (r: String)
    ensures
        r@ == s@,
{
    s.to_string()
}

/// The trust policy document of the instance role.
pub fn ecs_role_policy_document() -> (r: String)
    ensures
        r@ == ECS_ROLE_POLICY_DOCUMENT@,
{
    text(ECS_ROLE_POLICY_DOCUMENT)
}

} // verus!
