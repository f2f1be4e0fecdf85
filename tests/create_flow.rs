use ecs_provider::create::{CreateStep, EcsCreator};
use ecs_provider::memo::{EcsClusterConfig, EcsSpec, Memo};
use ecs_provider::network::Subnet;
use ecs_provider::protocol::{Action, Event};
use ecs_provider::resources::Resources;
use ecs_provider::role::{
    ecs_role_policy_document, ProfileLookup, ECS_POLICY_ARN, IAM_INSTANCE_PROFILE_NAME,
    SSM_POLICY_ARN,
};

fn spec(cluster: &str, region: Option<&str>, profile: Option<&str>, vpc: Option<&str>) -> EcsSpec {
    EcsSpec {
        configuration: EcsClusterConfig {
            cluster_name: cluster.to_string(),
            region: region.map(|r| r.to_string()),
            vpc: vpc.map(|v| v.to_string()),
            iam_instance_profile_name: profile.map(|p| p.to_string()),
            assume_role: None,
        },
        secrets: vec![("aws-credentials".to_string(), "ref-A".to_string())],
    }
}

fn subnet(id: &str, public: Option<bool>) -> Subnet {
    Subnet { subnet_id: Some(id.to_string()), map_public_ip_on_launch: public }
}

fn status_of(action: &Action) -> String {
    match action {
        Action::SendInfo(m) => m.current_status.clone(),
        other => panic!("expected a published record, got {:?}", other),
    }
}

#[test]
fn end_to_end_create_with_default_region() {
    let mut c = EcsCreator::new(spec("t1", None, None, None));
    assert!(matches!(c.start(), Action::GetInfo));
    let mut statuses = Vec::new();

    let a = c.step(Event::Info(Memo::empty()));
    statuses.push(status_of(&a));
    let a = c.step(Event::Completed);
    statuses.push(status_of(&a));
    let a = c.step(Event::Completed);
    statuses.push(status_of(&a));
    match &a {
        Action::SendInfo(m) => assert_eq!(m.aws_secret_name.as_deref(), Some("ref-A")),
        _ => unreachable!(),
    }
    match c.step(Event::Completed) {
        Action::BuildConfig { aws_secret_name, assume_role, region } => {
            assert_eq!(aws_secret_name.as_deref(), Some("ref-A"));
            assert_eq!(assume_role, None);
            assert_eq!(region, None);
        }
        other => panic!("{:?}", other),
    }
    let a = c.step(Event::Completed);
    statuses.push(status_of(&a));
    match c.step(Event::Completed) {
        Action::CreateCluster { cluster_name } => assert_eq!(cluster_name, "t1"),
        other => panic!("{:?}", other),
    }
    let a = c.step(Event::Completed);
    statuses.push(status_of(&a));
    let a = c.step(Event::Completed);
    statuses.push(status_of(&a));
    match c.step(Event::Completed) {
        Action::LookupInstanceProfile { instance_profile_name } => {
            assert_eq!(instance_profile_name, IAM_INSTANCE_PROFILE_NAME)
        }
        other => panic!("{:?}", other),
    }
    match c.step(Event::Lookup(ProfileLookup::NoSuchEntity)) {
        Action::CreateRole { role_name, assume_role_policy_document } => {
            assert_eq!(role_name, IAM_INSTANCE_PROFILE_NAME);
            assert_eq!(assume_role_policy_document, ecs_role_policy_document());
        }
        other => panic!("{:?}", other),
    }
    match c.step(Event::Completed) {
        Action::AttachRolePolicy { policy_arn, .. } => assert_eq!(policy_arn, SSM_POLICY_ARN),
        other => panic!("{:?}", other),
    }
    match c.step(Event::Completed) {
        Action::AttachRolePolicy { policy_arn, .. } => assert_eq!(policy_arn, ECS_POLICY_ARN),
        other => panic!("{:?}", other),
    }
    assert!(matches!(c.step(Event::Completed), Action::CreateInstanceProfile { .. }));
    assert!(matches!(c.step(Event::Completed), Action::AddRoleToInstanceProfile { .. }));
    match c.step(Event::Completed) {
        Action::GetInstanceProfileArn { instance_profile_name } => {
            assert_eq!(instance_profile_name, IAM_INSTANCE_PROFILE_NAME)
        }
        other => panic!("{:?}", other),
    }
    let a = c.step(Event::Value("arn:profile".to_string()));
    statuses.push(status_of(&a));
    assert!(matches!(c.step(Event::Completed), Action::FindDefaultVpc));
    match c.step(Event::Value("vpc-1".to_string())) {
        Action::DescribeSubnets { vpc_id } => assert_eq!(vpc_id, "vpc-1"),
        other => panic!("{:?}", other),
    }
    let a = c.step(Event::Subnets(vec![
        subnet("s-pub", Some(true)),
        subnet("s-priv", Some(false)),
        subnet("s-none", None),
    ]));
    statuses.push(status_of(&a));
    match &a {
        Action::SendInfo(m) => {
            assert_eq!(m.cluster_name.as_deref(), Some("t1"));
            assert_eq!(m.region.as_deref(), Some("us-west-2"));
        }
        _ => unreachable!(),
    }
    match c.step(Event::Completed) {
        Action::Created(cluster) => {
            assert_eq!(cluster.cluster_name, "t1");
            assert_eq!(cluster.region, "us-west-2");
            assert_eq!(cluster.public_subnet_ids, vec!["s-pub".to_string()]);
            assert_eq!(cluster.private_subnet_ids, vec!["s-priv".to_string()]);
            assert_eq!(cluster.iam_instance_profile_arn, "arn:profile");
        }
        other => panic!("{:?}", other),
    }
    assert!(c.is_done());
    assert_eq!(
        statuses,
        vec![
            "Initializing Agent",
            "Getting AWS secret",
            "Creating AWS config",
            "Creating cluster",
            "Cluster created",
            "Creating instance profile",
            "Getting cluster info",
            "Cluster created",
        ]
    );
}

fn run_to_cluster_created(c: &mut EcsCreator) {
    c.step(Event::Info(Memo::empty()));
    for _ in 0..6 {
        c.step(Event::Completed);
    }
    assert_eq!(c.step, CreateStep::SentClusterCreated);
}

#[test]
fn named_profile_skips_role_creation() {
    let mut c = EcsCreator::new(spec("t2", Some("eu-west-1"), Some("my-profile"), Some("vpc-9")));
    run_to_cluster_created(&mut c);
    match c.step(Event::Completed) {
        Action::GetInstanceProfileArn { instance_profile_name } => {
            assert_eq!(instance_profile_name, "my-profile")
        }
        other => panic!("{:?}", other),
    }
    c.step(Event::Value("arn:mine".to_string()));
    match c.step(Event::Completed) {
        Action::DescribeSubnets { vpc_id } => assert_eq!(vpc_id, "vpc-9"),
        other => panic!("{:?}", other),
    }
    c.step(Event::Subnets(vec![]));
    match c.step(Event::Completed) {
        Action::Created(cluster) => {
            assert_eq!(cluster.region, "eu-west-1");
            assert!(cluster.public_subnet_ids.is_empty());
            assert!(cluster.private_subnet_ids.is_empty());
        }
        other => panic!("{:?}", other),
    }
}

#[test]
fn existing_profile_is_resolved_not_created() {
    for lookup in [ProfileLookup::Found, ProfileLookup::OtherError] {
        let mut c = EcsCreator::new(spec("t3", None, None, None));
        run_to_cluster_created(&mut c);
        c.step(Event::Completed);
        c.step(Event::Completed);
        match c.step(Event::Lookup(lookup)) {
            Action::GetInstanceProfileArn { instance_profile_name } => {
                assert_eq!(instance_profile_name, IAM_INSTANCE_PROFILE_NAME)
            }
            other => panic!("{:?}", other),
        }
    }
}

fn failure(a: Action) -> Resources {
    match a {
        Action::Fail(e) => e.resources,
        other => panic!("expected a failure, got {:?}", other),
    }
}

#[test]
fn failures_before_the_cluster_leave_nothing() {
    let mut c = EcsCreator::new(spec("t4", None, None, None));
    assert_eq!(failure(c.step(Event::Failed("denied".to_string()))), Resources::Clear);
    assert!(c.is_done());

    let mut c = EcsCreator::new(spec("t4", None, None, None));
    c.step(Event::Info(Memo::empty()));
    for _ in 0..5 {
        c.step(Event::Completed);
    }
    assert_eq!(c.step, CreateStep::CreatingCluster);
    assert_eq!(failure(c.step(Event::Failed("denied".to_string()))), Resources::Clear);
}

#[test]
fn failures_after_the_cluster_leave_it_behind() {
    let mut c = EcsCreator::new(spec("t5", None, None, None));
    run_to_cluster_created(&mut c);
    assert_eq!(failure(c.step(Event::Failed("denied".to_string()))), Resources::Remaining);

    let mut c = EcsCreator::new(spec("t5", None, Some("p"), None));
    run_to_cluster_created(&mut c);
    c.step(Event::Completed);
    assert_eq!(failure(c.step(Event::Missing)), Resources::Remaining);

    let mut c = EcsCreator::new(spec("t5", None, Some("p"), None));
    run_to_cluster_created(&mut c);
    c.step(Event::Completed);
    c.step(Event::Value("arn".to_string()));
    c.step(Event::Completed);
    assert_eq!(c.step, CreateStep::FindingVpc);
    assert_eq!(failure(c.step(Event::Missing)), Resources::Remaining);
}

#[test]
fn missing_secret_leaves_reference_empty() {
    let mut s = spec("t6", None, None, None);
    s.secrets = vec![("other".to_string(), "ref-B".to_string())];
    let mut c = EcsCreator::new(s);
    c.step(Event::Info(Memo::empty()));
    c.step(Event::Completed);
    match c.step(Event::Completed) {
        Action::SendInfo(m) => assert_eq!(m.aws_secret_name, None),
        other => panic!("{:?}", other),
    }
}

#[test]
fn prior_memo_fields_are_kept() {
    let mut c = EcsCreator::new(spec("t7", None, None, None));
    let mut m = Memo::empty();
    m.region = Some("ap-south-1".to_string());
    match c.step(Event::Info(m)) {
        Action::SendInfo(m) => {
            assert_eq!(m.current_status, "Initializing Agent");
            assert_eq!(m.region.as_deref(), Some("ap-south-1"));
        }
        other => panic!("{:?}", other),
    }
}

#[test]
fn unobserved_cluster_creation_is_unknown() {
    for outcome in [Event::Unobserved, Event::TimedOut] {
        let mut c = EcsCreator::new(spec("t8", None, None, None));
        c.step(Event::Info(Memo::empty()));
        for _ in 0..5 {
            c.step(Event::Completed);
        }
        assert_eq!(c.step, CreateStep::CreatingCluster);
        assert_eq!(failure(c.step(outcome)), Resources::Unknown);
    }
}

#[test]
fn concurrently_created_role_is_tolerated() {
    let mut c = EcsCreator::new(spec("t9", None, None, None));
    run_to_cluster_created(&mut c);
    c.step(Event::Completed);
    c.step(Event::Completed);
    assert!(matches!(c.step(Event::Lookup(ProfileLookup::NoSuchEntity)), Action::CreateRole { .. }));
    assert!(matches!(c.step(Event::AlreadyExists), Action::AttachRolePolicy { .. }));
    assert!(matches!(c.step(Event::Completed), Action::AttachRolePolicy { .. }));
    assert!(matches!(c.step(Event::Completed), Action::CreateInstanceProfile { .. }));
    assert!(matches!(c.step(Event::AlreadyExists), Action::AddRoleToInstanceProfile { .. }));
    match c.step(Event::AlreadyExists) {
        Action::GetInstanceProfileArn { instance_profile_name } => {
            assert_eq!(instance_profile_name, IAM_INSTANCE_PROFILE_NAME)
        }
        other => panic!("{:?}", other),
    }
}

#[test]
fn create_failure_carries_cause() {
    let mut c = EcsCreator::new(spec("t10", None, None, None));
    run_to_cluster_created(&mut c);
    match c.step(Event::Failed("access denied".to_string())) {
        Action::Fail(e) => {
            assert_eq!(e.resources, Resources::Remaining);
            assert_eq!(e.cause, "access denied");
            assert_eq!(e.context, "Error sending cluster creation message");
        }
        other => panic!("{:?}", other),
    }
}

#[test]
fn last_record_keeps_request_fields() {
    let mut s = spec("t11", Some("eu-central-1"), Some("p"), Some("vpc-2"));
    s.configuration.assume_role = Some("arn:role".to_string());
    let mut c = EcsCreator::new(s);
    run_to_cluster_created(&mut c);
    c.step(Event::Completed);
    c.step(Event::Value("arn:p".to_string()));
    c.step(Event::Completed);
    match c.step(Event::Subnets(vec![subnet("x", Some(false))])) {
        Action::SendInfo(m) => {
            assert_eq!(m.aws_secret_name.as_deref(), Some("ref-A"));
            assert_eq!(m.assume_role.as_deref(), Some("arn:role"));
            assert_eq!(m.cluster_name.as_deref(), Some("t11"));
            assert_eq!(m.region.as_deref(), Some("eu-central-1"));
        }
        other => panic!("{:?}", other),
    }
    match c.step(Event::Completed) {
        Action::Created(cluster) => {
            assert_eq!(cluster.region, "eu-central-1");
            assert_eq!(cluster.iam_instance_profile_arn, "arn:p");
            assert_eq!(cluster.private_subnet_ids, vec!["x".to_string()]);
        }
        other => panic!("{:?}", other),
    }
}
