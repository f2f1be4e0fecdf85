use vstd::prelude::*;

verus! {

/// The name under which a creation request lists its AWS credentials secret.
pub const AWS_CREDENTIALS_SECRET_NAME: &'static str = "aws-credentials";

/// The region used when a request names none.
pub const DEFAULT_REGION: &'static str = "us-west-2";

/// The progress record of one cluster's lifecycle, published after each phase.
/// It holds what destroying the cluster needs without the creation request.
#[derive(Debug)]
pub struct Memo {
    pub current_status: String,
    /// The reference of the secret that holds the AWS credentials.
    pub aws_secret_name: Option<String>,
    /// The role the agent assumes.
    pub assume_role: Option<String>,
    /// The name of the cluster, once it is created.
    pub cluster_name: Option<String>,
    /// The region of the cluster.
    pub region: Option<String>,
}

/// What a successful creation hands back.
#[derive(Debug)]
pub struct CreatedCluster {
    pub cluster_name: String,
    pub region: String,
    pub public_subnet_ids: Vec<String>,
    pub private_subnet_ids: Vec<String>,
    /// The ARN of the instance profile that the cluster's instances use.
    pub iam_instance_profile_arn: String,
}

/// The cluster-specific part of a creation request.
#[derive(Debug)]
pub struct EcsClusterConfig {
    pub cluster_name: String,
    pub region: Option<String>,
    /// The network to place instances in; the account's default one when absent.
    pub vpc: Option<String>,
    /// An existing instance profile to use instead of the well-known one.
    pub iam_instance_profile_name: Option<String>,
    pub assume_role: Option<String>,
}

/// A creation request: the configuration and the secrets by logical name.
#[derive(Debug)]
pub struct EcsSpec {
    pub configuration: EcsClusterConfig,
    pub secrets: Vec<(String, String)>,
}

pub fn clone_string(s: &String) -> (r: String)
    ensures
        r == *s,
{
    s.clone()
}

pub fn clone_opt(o: &Option<String>) -> (r: Option<String>)
    ensures
        r == *o,
{
    match o {
        Some(s) => Some(s.clone()),
        None => None,
    }
}

/// The reference listed under `name`: the first entry with that name.
pub open spec fn secret_lookup(secrets: Seq<(String, String)>, name: Seq<char>) -> Option<String>
    decreases secrets.len(),
{
    if secrets.len() == 0 {
        None
    } else if secrets[0].0@ == name {
        Some(secrets[0].1)
    } else {
        secret_lookup(secrets.drop_first(), name)
    }
}

/// Looks up the secret reference listed under `name`.
pub fn secret_named(secrets: &Vec<(String, String)>, name: &String) -> (r: Option<String>)
    ensures
        r == secret_lookup(secrets@, name@),
{
    let mut i: usize = 0;
    assert(secrets@.subrange(0, secrets@.len() as int) =~= secrets@);
    while i < secrets.len()
        invariant
            i <= secrets@.len(),
            secret_lookup(secrets@, name@) == secret_lookup(secrets@.subrange(i as int, secrets@.len() as int), name@),
        decreases secrets@.len() - i,
    {
        let ghost rest = secrets@.subrange(i as int, secrets@.len() as int);
        assert(rest[0] == secrets@[i as int]);
        if secrets[i].0 == *name {
            return Some(clone_string(&secrets[i].1));
        }
        assert(rest.drop_first() =~= secrets@.subrange(i + 1, secrets@.len() as int));
        i = i + 1;
    }
    None
}

impl Memo {
    /// A record with no status and nothing recorded.
    pub fn empty() -> (r: Memo)
        ensures
            r.current_status@ == Seq::<char>::empty(),
            r.aws_secret_name.is_none(),
            r.assume_role.is_none(),
            r.cluster_name.is_none(),
            r.region.is_none(),
    {
        Memo {
            current_status: String::new(),
            aws_secret_name: None,
            assume_role: None,
            cluster_name: None,
            region: None,
        }
    }

    /// A copy of the record, equal in every field.
    pub fn snapshot(&self) -> (r: Memo)
        ensures
            r == *self,
    {
        Memo {
            current_status: clone_string(&self.current_status),
            aws_secret_name: clone_opt(&self.aws_secret_name),
            assume_role: clone_opt(&self.assume_role),
            cluster_name: clone_opt(&self.cluster_name),
            region: clone_opt(&self.region),
        }
    }
}

} // verus!
