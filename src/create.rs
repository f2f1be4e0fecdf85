use vstd::prelude::*;
use crate::memo::{
    clone_opt, clone_string, secret_lookup, secret_named, CreatedCluster, EcsSpec, Memo,
    AWS_CREDENTIALS_SECRET_NAME, DEFAULT_REGION,
};
use crate::network::{ids_of_type, subnet_ids, SubnetType};
use crate::protocol::{Action, Event};
use crate::resources::{ProviderError, Resources};
use crate::role::{
    ecs_role_policy_document, profile_exists, text, ECS_POLICY_ARN, ECS_ROLE_POLICY_DOCUMENT,
    IAM_INSTANCE_PROFILE_NAME, SSM_POLICY_ARN,
};

verus! {

pub const STATUS_INITIALIZING: &'static str = "Initializing Agent";
pub const STATUS_GETTING_SECRET: &'static str = "Getting AWS secret";
pub const STATUS_CREATING_CONFIG: &'static str = "Creating AWS config";
pub const STATUS_CREATING_CLUSTER: &'static str = "Creating cluster";
pub const STATUS_CLUSTER_CREATED: &'static str = "Cluster created";
pub const STATUS_CREATING_PROFILE: &'static str = "Creating instance profile";
pub const STATUS_GETTING_CLUSTER_INFO: &'static str = "Getting cluster info";

/// Where a creation stands: each step names the action whose outcome it awaits.
#[derive(PartialEq, Eq, Structural, Clone, Copy, Debug)]
pub enum CreateStep {
    LoadingMemo,
    SentInitializing,
    SentGettingSecret,
    SentCreatingConfig,
    BuildingConfig,
    SentCreatingCluster,
    CreatingCluster,
    SentClusterCreated,
    SentCreatingProfile,
    CheckingProfile,
    CreatingRole,
    AttachingSsmPolicy,
    AttachingEcsPolicy,
    CreatingInstanceProfile,
    AddingRoleToProfile,
    ResolvingProfile,
    SentGettingClusterInfo,
    FindingVpc,
    ListingSubnets,
    SentDone,
    Finished,
    Failed,
}

/// What a failure at `step` leaves behind: nothing until the cluster exists,
/// the cluster from then on.
pub open spec fn failure_resources(step: CreateStep) -> Resources {
    match step {
        CreateStep::LoadingMemo | CreateStep::SentInitializing | CreateStep::SentGettingSecret
        | CreateStep::SentCreatingConfig | CreateStep::BuildingConfig
        | CreateStep::SentCreatingCluster | CreateStep::CreatingCluster => Resources::Clear,
        _ => Resources::Remaining,
    }
}

/// What a failure at `step` on outcome `event` leaves behind: a cluster
/// creation whose effect could not be observed may have left the cluster.
pub open spec fn failure_resources_on(step: CreateStep, event: Event) -> Resources {
    if step == CreateStep::CreatingCluster && (event is Unobserved || event is TimedOut) {
        Resources::Unknown
    } else {
        failure_resources(step)
    }
}

/// The cause that a failing outcome reports.
pub open spec fn cause_of(event: Event) -> Seq<char> {
    match event {
        Event::Failed(c) => c@,
        _ => Seq::empty(),
    }
}

/// The outcome that lets `step` go forward. Where a step creates an IAM
/// entity, finding it already there (made by a concurrent creation) is as good.
pub open spec fn accepts(step: CreateStep, event: Event) -> bool {
    match step {
        CreateStep::LoadingMemo => event is Info,
        CreateStep::CheckingProfile => event is Lookup,
        CreateStep::ResolvingProfile | CreateStep::FindingVpc => event is Value,
        CreateStep::ListingSubnets => event is Subnets,
        CreateStep::CreatingRole | CreateStep::AttachingSsmPolicy | CreateStep::AttachingEcsPolicy
        | CreateStep::CreatingInstanceProfile | CreateStep::AddingRoleToProfile => event is Completed
            || event is AlreadyExists,
        CreateStep::Finished | CreateStep::Failed => false,
        _ => event is Completed,
    }
}

/// The region a request resolves to.
pub open spec fn region_of(spec: EcsSpec) -> Seq<char> {
    match spec.configuration.region {
        Some(r) => r@,
        None => DEFAULT_REGION@,
    }
}

/// `b` is `a` with the status `status`.
pub open spec fn status_changed(a: Memo, b: Memo, status: Seq<char>) -> bool {
    &&& b.current_status@ == status
    &&& b.aws_secret_name == a.aws_secret_name
    &&& b.assume_role == a.assume_role
    &&& b.cluster_name == a.cluster_name
    &&& b.region == a.region
}

/// The creation of one ECS cluster, from an empty progress record to a
/// described cluster. Start it with `Action::GetInfo`, then feed each action's
/// outcome to `step` until it returns `Created` or `Fail`.
pub struct EcsCreator {
    pub spec: EcsSpec,
    pub memo: Memo,
    pub step: CreateStep,
    pub region: String,
    pub instance_profile_arn: String,
    pub created: Option<CreatedCluster>,
}

impl EcsCreator {
    /// The region is the one the request resolves to, and the cluster's
    /// description is held from the moment it is assembled until it is handed out.
    pub open spec fn wf(self) -> bool {
        &&& self.region@ == region_of(self.spec)
        &&& self.step == CreateStep::SentDone ==> self.created.is_some()
    }

    pub fn new(spec: EcsSpec) -> (r: EcsCreator)
        ensures
            r.spec == spec,
            r.step == CreateStep::LoadingMemo,
            r.region@ == region_of(spec),
            r.created.is_none(),
            r.wf(),
    {
        let region = match &spec.configuration.region {
            Some(r) => clone_string(r),
            None => text(DEFAULT_REGION),
        };
        EcsCreator {
            spec,
            memo: Memo::empty(),
            step: CreateStep::LoadingMemo,
            region,
            instance_profile_arn: String::new(),
            created: None,
        }
    }

    /// The first action of a creation.
    pub fn start(&self) -> (r: Action)
        ensures
            r is GetInfo,
    {
        Action::GetInfo
    }

    pub fn is_done(&self) -> (r: bool)
        ensures
            r == (self.step == CreateStep::Finished || self.step == CreateStep::Failed),
    {
        self.step == CreateStep::Finished || self.step == CreateStep::Failed
    }

    fn fail(&mut self, context: &str, event: Event) -> (r: Action)
        ensures
            r is Fail,
            r->Fail_0.resources == failure_resources_on(old(self).step, event),
            r->Fail_0.cause@ == cause_of(event),
            final(self).step == CreateStep::Failed,
            final(self).memo == old(self).memo,
            final(self).spec == old(self).spec,
            final(self).region == old(self).region,
            final(self).instance_profile_arn == old(self).instance_profile_arn,
            final(self).created == old(self).created,
    {
        let unobserved = match event {
            Event::Unobserved | Event::TimedOut => true,
            _ => false,
        };
        let resources = match self.step {
            CreateStep::CreatingCluster => if unobserved {
                Resources::Unknown
            } else {
                Resources::Clear
            },
            CreateStep::LoadingMemo | CreateStep::SentInitializing
            | CreateStep::SentGettingSecret | CreateStep::SentCreatingConfig
            | CreateStep::BuildingConfig | CreateStep::SentCreatingCluster => Resources::Clear,
            _ => Resources::Remaining,
        };
        let cause = match event {
            Event::Failed(c) => c,
            _ => String::new(),
        };
        self.step = CreateStep::Failed;
        Action::Fail(ProviderError::new(resources, context, cause))
    }

    fn publish(&mut self, status: &str, next: CreateStep) -> (r: Action)
        ensures
            status_changed(old(self).memo, final(self).memo, status@),
            r == Action::SendInfo(final(self).memo),
            final(self).step == next,
            final(self).spec == old(self).spec,
            final(self).region == old(self).region,
            final(self).instance_profile_arn == old(self).instance_profile_arn,
            final(self).created == old(self).created,
    {
        self.memo.current_status = text(status);
        self.step = next;
        Action::SendInfo(self.memo.snapshot())
    }

    fn request_arn(&mut self, name: String) -> (r: Action)
        ensures
            r == (Action::GetInstanceProfileArn { instance_profile_name: name }),
            final(self).step == CreateStep::ResolvingProfile,
            final(self).memo == old(self).memo,
            final(self).spec == old(self).spec,
            final(self).region == old(self).region,
            final(self).instance_profile_arn == old(self).instance_profile_arn,
            final(self).created == old(self).created,
    {
        self.step = CreateStep::ResolvingProfile;
        Action::GetInstanceProfileArn { instance_profile_name: name }
    }

    fn goto(&mut self, next: CreateStep, action: Action) -> (r: Action)
        ensures
            r == action,
            final(self).step == next,
            final(self).memo == old(self).memo,
            final(self).spec == old(self).spec,
            final(self).region == old(self).region,
            final(self).instance_profile_arn == old(self).instance_profile_arn,
            final(self).created == old(self).created,
    {
        self.step = next;
        action
    }

    /// Takes the outcome of the last action and returns the next action.
    /// An outcome that the current step does not expect fails the creation,
    /// tagged with what that step leaves behind.
    pub fn step(&mut self, event: Event) -> (r: Action)
        requires
            old(self).wf(),
            old(self).step != CreateStep::Finished,
            old(self).step != CreateStep::Failed,
        ensures
            final(self).wf(),
            final(self).spec == old(self).spec,
            final(self).region == old(self).region,
            !(r is SendInfo) ==> final(self).memo == old(self).memo,
            old(self).step != CreateStep::ResolvingProfile ==> final(self).instance_profile_arn
                == old(self).instance_profile_arn,
            old(self).step != CreateStep::ListingSubnets && old(self).step != CreateStep::SentDone
                ==> final(self).created == old(self).created,
            !accepts(old(self).step, event) ==> {
                &&& r is Fail
                &&& r->Fail_0.resources == failure_resources_on(old(self).step, event)
                &&& r->Fail_0.cause@ == cause_of(event)
                &&& final(self).step == CreateStep::Failed
            },
            accepts(old(self).step, event) ==> {
                let o = *old(self);
                let n = *final(self);
                let conf = o.spec.configuration;
                let wk = IAM_INSTANCE_PROFILE_NAME@;
                match o.step {
                    CreateStep::LoadingMemo => status_changed(event->Info_0, n.memo, STATUS_INITIALIZING@)
                        && r == Action::SendInfo(n.memo) && n.step == CreateStep::SentInitializing,
                    CreateStep::SentInitializing => status_changed(o.memo, n.memo, STATUS_GETTING_SECRET@)
                        && r == Action::SendInfo(n.memo) && n.step == CreateStep::SentGettingSecret,
                    CreateStep::SentGettingSecret => {
                        &&& n.memo.current_status@ == STATUS_CREATING_CONFIG@
                        &&& n.memo.aws_secret_name == secret_lookup(o.spec.secrets@, AWS_CREDENTIALS_SECRET_NAME@)
                        &&& n.memo.assume_role == conf.assume_role
                        &&& n.memo.cluster_name == o.memo.cluster_name
                        &&& n.memo.region == o.memo.region
                        &&& r == Action::SendInfo(n.memo)
                        &&& n.step == CreateStep::SentCreatingConfig
                    },
                    CreateStep::SentCreatingConfig => {
                        &&& r is BuildConfig
                        &&& r->aws_secret_name == secret_lookup(o.spec.secrets@, AWS_CREDENTIALS_SECRET_NAME@)
                        &&& r->BuildConfig_assume_role == conf.assume_role
                        &&& r->BuildConfig_region == conf.region
                        &&& n.step == CreateStep::BuildingConfig
                    },
                    CreateStep::BuildingConfig => status_changed(o.memo, n.memo, STATUS_CREATING_CLUSTER@)
                        && r == Action::SendInfo(n.memo) && n.step == CreateStep::SentCreatingCluster,
                    CreateStep::SentCreatingCluster => r == (Action::CreateCluster {
                        cluster_name: conf.cluster_name,
                    }) && n.step == CreateStep::CreatingCluster,
                    CreateStep::CreatingCluster => status_changed(o.memo, n.memo, STATUS_CLUSTER_CREATED@)
                        && r == Action::SendInfo(n.memo) && n.step == CreateStep::SentClusterCreated,
                    CreateStep::SentClusterCreated => match conf.iam_instance_profile_name {
                        Some(name) => r == (Action::GetInstanceProfileArn {
                            instance_profile_name: name,
                        }) && n.step == CreateStep::ResolvingProfile,
                        None => status_changed(o.memo, n.memo, STATUS_CREATING_PROFILE@)
                            && r == Action::SendInfo(n.memo)
                            && n.step == CreateStep::SentCreatingProfile,
                    },
                    CreateStep::SentCreatingProfile => r is LookupInstanceProfile
                        && r->LookupInstanceProfile_instance_profile_name@ == wk
                        && n.step == CreateStep::CheckingProfile,
                    CreateStep::CheckingProfile => if event->Lookup_0 != crate::role::ProfileLookup::NoSuchEntity {
                        r is GetInstanceProfileArn && r->GetInstanceProfileArn_instance_profile_name@ == wk
                            && n.step == CreateStep::ResolvingProfile
                    } else {
                        r is CreateRole && r->CreateRole_role_name@ == wk
                            && r->assume_role_policy_document@ == ECS_ROLE_POLICY_DOCUMENT@
                            && n.step == CreateStep::CreatingRole
                    },
                    CreateStep::CreatingRole => r is AttachRolePolicy && r->AttachRolePolicy_role_name@ == wk
                        && r->policy_arn@ == SSM_POLICY_ARN@ && n.step == CreateStep::AttachingSsmPolicy,
                    CreateStep::AttachingSsmPolicy => r is AttachRolePolicy && r->AttachRolePolicy_role_name@ == wk
                        && r->policy_arn@ == ECS_POLICY_ARN@ && n.step == CreateStep::AttachingEcsPolicy,
                    CreateStep::AttachingEcsPolicy => r is CreateInstanceProfile
                        && r->CreateInstanceProfile_instance_profile_name@ == wk
                        && n.step == CreateStep::CreatingInstanceProfile,
                    CreateStep::CreatingInstanceProfile => r is AddRoleToInstanceProfile
                        && r->AddRoleToInstanceProfile_instance_profile_name@ == wk
                        && r->AddRoleToInstanceProfile_role_name@ == wk
                        && n.step == CreateStep::AddingRoleToProfile,
                    CreateStep::AddingRoleToProfile => r is GetInstanceProfileArn
                        && r->GetInstanceProfileArn_instance_profile_name@ == wk
                        && n.step == CreateStep::ResolvingProfile,
                    CreateStep::ResolvingProfile => status_changed(o.memo, n.memo, STATUS_GETTING_CLUSTER_INFO@)
                        && n.instance_profile_arn == event->Value_0
                        && r == Action::SendInfo(n.memo) && n.step == CreateStep::SentGettingClusterInfo,
                    CreateStep::SentGettingClusterInfo => match conf.vpc {
                        Some(v) => r == (Action::DescribeSubnets { vpc_id: v })
                            && n.step == CreateStep::ListingSubnets,
                        None => r is FindDefaultVpc && n.step == CreateStep::FindingVpc,
                    },
                    CreateStep::FindingVpc => r == (Action::DescribeSubnets { vpc_id: event->Value_0 })
                        && n.step == CreateStep::ListingSubnets,
                    CreateStep::ListingSubnets => {
                        let c = n.created.unwrap();
                        &&& n.created.is_some()
                        &&& c.cluster_name == conf.cluster_name
                        &&& c.region == o.region
                        &&& c.public_subnet_ids@.map_values(|x: String| x@)
                            == ids_of_type(event->Subnets_0@, SubnetType::Public)
                        &&& c.private_subnet_ids@.map_values(|x: String| x@)
                            == ids_of_type(event->Subnets_0@, SubnetType::Private)
                        &&& c.iam_instance_profile_arn == o.instance_profile_arn
                        &&& n.memo.current_status@ == STATUS_CLUSTER_CREATED@
                        &&& n.memo.aws_secret_name == o.memo.aws_secret_name
                        &&& n.memo.assume_role == o.memo.assume_role
                        &&& n.memo.cluster_name == Some(conf.cluster_name)
                        &&& n.memo.region == Some(o.region)
                        &&& r == Action::SendInfo(n.memo)
                        &&& n.step == CreateStep::SentDone
                    },
                    CreateStep::SentDone => r == Action::Created(o.created.unwrap())
                        && n.step == CreateStep::Finished,
                    _ => true,
                }
            },
    {
        match self.step {
            CreateStep::LoadingMemo => match event {
                Event::Info(m) => {
                    self.memo = m;
                    self.publish(STATUS_INITIALIZING, CreateStep::SentInitializing)
                },
                other => self.fail("Unable to get info from client", other),
            },
            CreateStep::SentInitializing => match event {
                Event::Completed => self.publish(STATUS_GETTING_SECRET, CreateStep::SentGettingSecret),
                other => self.fail("Error sending cluster creation message", other),
            },
            CreateStep::SentGettingSecret => match event {
                Event::Completed => {
                    self.memo.aws_secret_name = secret_named(
                        &self.spec.secrets,
                        &text(AWS_CREDENTIALS_SECRET_NAME),
                    );
                    self.memo.assume_role = clone_opt(&self.spec.configuration.assume_role);
                    self.publish(STATUS_CREATING_CONFIG, CreateStep::SentCreatingConfig)
                },
                other => self.fail("Error sending cluster creation message", other),
            },
            CreateStep::SentCreatingConfig => match event {
                Event::Completed => {
                    let action = Action::BuildConfig {
                        aws_secret_name: secret_named(
                            &self.spec.secrets,
                            &text(AWS_CREDENTIALS_SECRET_NAME),
                        ),
                        assume_role: clone_opt(&self.spec.configuration.assume_role),
                        region: clone_opt(&self.spec.configuration.region),
                    };
                    self.goto(CreateStep::BuildingConfig, action)
                },
                other => self.fail("Error sending cluster creation message", other),
            },
            CreateStep::BuildingConfig => match event {
                Event::Completed => self.publish(STATUS_CREATING_CLUSTER, CreateStep::SentCreatingCluster),
                other => self.fail("Error creating config", other),
            },
            CreateStep::SentCreatingCluster => match event {
                Event::Completed => {
                    let action = Action::CreateCluster {
                        cluster_name: clone_string(&self.spec.configuration.cluster_name),
                    };
                    self.goto(CreateStep::CreatingCluster, action)
                },
                other => self.fail("Error sending cluster creation message", other),
            },
            CreateStep::CreatingCluster => match event {
                Event::Completed => self.publish(STATUS_CLUSTER_CREATED, CreateStep::SentClusterCreated),
                other => self.fail("The cluster could not be created.", other),
            },
            CreateStep::SentClusterCreated => match event {
                Event::Completed => match &self.spec.configuration.iam_instance_profile_name {
                    Some(name) => {
                        let name = clone_string(name);
                        self.request_arn(name)
                    },
                    None => self.publish(STATUS_CREATING_PROFILE, CreateStep::SentCreatingProfile),
                },
                other => self.fail("Error sending cluster creation message", other),
            },
            CreateStep::SentCreatingProfile => match event {
                Event::Completed => {
                    let action = Action::LookupInstanceProfile {
                        instance_profile_name: text(IAM_INSTANCE_PROFILE_NAME),
                    };
                    self.goto(CreateStep::CheckingProfile, action)
                },
                other => self.fail("Error sending cluster creation message", other),
            },
            CreateStep::CheckingProfile => match event {
                Event::Lookup(lookup) => {
                    if profile_exists(lookup) {
                        self.request_arn(text(IAM_INSTANCE_PROFILE_NAME))
                    } else {
                        let action = Action::CreateRole {
                            role_name: text(IAM_INSTANCE_PROFILE_NAME),
                            assume_role_policy_document: ecs_role_policy_document(),
                        };
                        self.goto(CreateStep::CreatingRole, action)
                    }
                },
                other => self.fail("Unable to get instance profile.", other),
            },
            CreateStep::CreatingRole => match event {
                Event::Completed | Event::AlreadyExists => {
                    let action = Action::AttachRolePolicy {
                        role_name: text(IAM_INSTANCE_PROFILE_NAME),
                        policy_arn: text(SSM_POLICY_ARN),
                    };
                    self.goto(CreateStep::AttachingSsmPolicy, action)
                },
                other => self.fail("Unable to create new role.", other),
            },
            CreateStep::AttachingSsmPolicy => match event {
                Event::Completed | Event::AlreadyExists => {
                    let action = Action::AttachRolePolicy {
                        role_name: text(IAM_INSTANCE_PROFILE_NAME),
                        policy_arn: text(ECS_POLICY_ARN),
                    };
                    self.goto(CreateStep::AttachingEcsPolicy, action)
                },
                other => self.fail("Unable to attach AmazonSSM policy", other),
            },
            CreateStep::AttachingEcsPolicy => match event {
                Event::Completed | Event::AlreadyExists => {
                    let action = Action::CreateInstanceProfile {
                        instance_profile_name: text(IAM_INSTANCE_PROFILE_NAME),
                    };
                    self.goto(CreateStep::CreatingInstanceProfile, action)
                },
                other => self.fail("Unable to attach AmazonEC2ContainerServiceforEC2Role policy", other),
            },
            CreateStep::CreatingInstanceProfile => match event {
                Event::Completed | Event::AlreadyExists => {
                    let action = Action::AddRoleToInstanceProfile {
                        instance_profile_name: text(IAM_INSTANCE_PROFILE_NAME),
                        role_name: text(IAM_INSTANCE_PROFILE_NAME),
                    };
                    self.goto(CreateStep::AddingRoleToProfile, action)
                },
                other => self.fail("Unable to create instance profile", other),
            },
            CreateStep::AddingRoleToProfile => match event {
                Event::Completed | Event::AlreadyExists => self.request_arn(text(IAM_INSTANCE_PROFILE_NAME)),
                other => self.fail("Unable to add role to instance profile", other),
            },
            CreateStep::ResolvingProfile => match event {
                Event::Value(arn) => {
                    self.instance_profile_arn = arn;
                    self.publish(STATUS_GETTING_CLUSTER_INFO, CreateStep::SentGettingClusterInfo)
                },
                Event::Missing => self.fail("Instance profile does not contain an arn.", Event::Missing),
                other => self.fail("Unable to get instance profile.", other),
            },
            CreateStep::SentGettingClusterInfo => match event {
                Event::Completed => match &self.spec.configuration.vpc {
                    Some(v) => {
                        let action = Action::DescribeSubnets { vpc_id: clone_string(v) };
                        self.goto(CreateStep::ListingSubnets, action)
                    },
                    None => self.goto(CreateStep::FindingVpc, Action::FindDefaultVpc),
                },
                other => self.fail("Error sending cluster creation message", other),
            },
            CreateStep::FindingVpc => match event {
                Event::Value(vpc_id) => self.goto(CreateStep::ListingSubnets, Action::DescribeSubnets { vpc_id }),
                Event::Missing => self.fail("The default vpc has no vpc id.", Event::Missing),
                other => self.fail("VPC list is missing.", other),
            },
            CreateStep::ListingSubnets => match event {
                Event::Subnets(subnets) => {
                    let created = CreatedCluster {
                        cluster_name: clone_string(&self.spec.configuration.cluster_name),
                        region: clone_string(&self.region),
                        public_subnet_ids: subnet_ids(&subnets, SubnetType::Public),
                        private_subnet_ids: subnet_ids(&subnets, SubnetType::Private),
                        iam_instance_profile_arn: clone_string(&self.instance_profile_arn),
                    };
                    self.created = Some(created);
                    self.memo.cluster_name = Some(clone_string(&self.spec.configuration.cluster_name));
                    self.memo.region = Some(clone_string(&self.region));
                    self.publish(STATUS_CLUSTER_CREATED, CreateStep::SentDone)
                },
                other => self.fail("Unable to get subnet information.", other),
            },
            CreateStep::SentDone => match event {
                Event::Completed => {
                    match self.created.take() {
                        Some(c) => {
                            self.step = CreateStep::Finished;
                            Action::Created(c)
                        },
                        None => self.fail("Error sending cluster created message", Event::Completed),
                    }
                },
                other => self.fail("Error sending cluster created message", other),
            },
            _ => self.fail("The creation has already ended.", event),
        }
    }
}

} // verus!
