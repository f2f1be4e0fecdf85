use ecs_provider::agent_error::{AgentError, Error, InfoClientError, InnerError};
use ecs_provider::memo::{secret_named, Memo};
use ecs_provider::network::{subnet_ids, Subnet, SubnetType};
use ecs_provider::resources::{ProviderError, Resources};
use ecs_provider::role::{ecs_role_policy_document, profile_exists, ProfileLookup};

fn subnet(id: Option<&str>, public: Option<bool>) -> Subnet {
    Subnet { subnet_id: id.map(|i| i.to_string()), map_public_ip_on_launch: public }
}

#[test]
fn subnets_partition_by_flag() {
    let subnets = vec![
        subnet(Some("a"), Some(true)),
        subnet(Some("b"), Some(false)),
        subnet(Some("c"), Some(true)),
        subnet(Some("d"), None),
        subnet(None, Some(true)),
        subnet(Some("e"), Some(false)),
    ];
    let public = subnet_ids(&subnets, SubnetType::Public);
    let private = subnet_ids(&subnets, SubnetType::Private);
    assert_eq!(public, vec!["a".to_string(), "c".to_string()]);
    assert_eq!(private, vec!["b".to_string(), "e".to_string()]);
    assert!(public.iter().all(|p| !private.contains(p)));
}

#[test]
fn subnets_empty() {
    assert!(subnet_ids(&vec![], SubnetType::Public).is_empty());
}

#[test]
fn only_no_such_entity_means_absent() {
    assert!(profile_exists(ProfileLookup::Found));
    assert!(profile_exists(ProfileLookup::OtherError));
    assert!(!profile_exists(ProfileLookup::NoSuchEntity));
}

#[test]
fn policy_document_names_ec2() {
    let doc = ecs_role_policy_document();
    assert!(doc.contains("\"Service\": \"ec2.amazonaws.com\""));
    assert!(doc.contains("sts:AssumeRole"));
}

#[test]
fn secret_lookup_takes_first_match() {
    let secrets = vec![
        ("x".to_string(), "1".to_string()),
        ("aws-credentials".to_string(), "2".to_string()),
        ("aws-credentials".to_string(), "3".to_string()),
    ];
    assert_eq!(secret_named(&secrets, &"aws-credentials".to_string()), Some("2".to_string()));
    assert_eq!(secret_named(&secrets, &"y".to_string()), None);
    assert_eq!(secret_named(&vec![], &"x".to_string()), None);
}

#[test]
fn memo_snapshot_keeps_fields() {
    let mut m = Memo::empty();
    m.current_status = "s".to_string();
    m.assume_role = Some("role".to_string());
    let c = m.snapshot();
    assert_eq!(c.current_status, "s");
    assert_eq!(c.assume_role.as_deref(), Some("role"));
    assert_eq!(c.cluster_name, None);
}

#[test]
fn provider_error_keeps_tag_and_context() {
    let e = ProviderError::new(Resources::Unknown, "why", "timeout".to_string());
    assert_eq!(e.resources, Resources::Unknown);
    assert_eq!(e.context, "why");
    assert_eq!(e.cause, "timeout");
}

#[test]
fn agent_error_wraps_inner() {
    let e: Error<String, String> =
        Error::from_inner(InnerError::InfoClient(InfoClientError::RequestFailed(None)));
    match e {
        Error::Agent(a) => assert!(matches!(
            a.kind(),
            InnerError::InfoClient(InfoClientError::RequestFailed(None))
        )),
        _ => panic!("expected an agent error"),
    }
    let a = AgentError::new(InnerError::Archive("io".to_string()));
    assert!(matches!(a.kind(), InnerError::Archive(s) if s == "io"));
}

#[test]
fn info_client_error_messages() {
    assert_eq!(
        InfoClientError::InitializationFailed(None).message(),
        "initialization failed: None"
    );
    assert_eq!(
        InfoClientError::RequestFailed(Some("503".to_string())).message(),
        "request failed: 503"
    );
}

#[test]
fn agent_error_messages() {
    let a = AgentError::new(InnerError::InfoClient(InfoClientError::RequestFailed(None)));
    assert_eq!(a.message(), "Info Client: request failed: None");
    let a = AgentError::new(InnerError::Archive("disk full".to_string()));
    assert_eq!(a.message(), "An error occurred while creating archive: disk full");
}
