use ecsr::arn::{extract, ResourceKind};
use ecsr::errors::RunError;
use ecsr::lookup::extract_ids;

#[test]
fn cluster_id_is_suffix_after_marker() {
    let got = extract(
        "arn:aws:ecs:us-east-1:123456789012:cluster/prod",
        ResourceKind::Cluster,
        None,
    );
    assert_eq!(got, Ok("prod".to_string()));
}

#[test]
fn service_id_is_suffix_after_parent() {
    let got = extract(
        "arn:aws:ecs:us-east-1:123456789012:service/prod/web-api",
        ResourceKind::Service,
        Some("prod"),
    );
    assert_eq!(got, Ok("web-api".to_string()));
}

#[test]
fn task_id_is_suffix_after_parent() {
    let got = extract(
        "arn:aws:ecs:us-east-1:123456789012:task/prod/abcd1234",
        ResourceKind::Task,
        Some("prod"),
    );
    assert_eq!(got, Ok("abcd1234".to_string()));
}

#[test]
fn empty_identifier_is_well_formed() {
    let got = extract(
        "arn:aws:ecs:us-east-1:123456789012:cluster/",
        ResourceKind::Cluster,
        None,
    );
    assert_eq!(got, Ok("".to_string()));
}

#[test]
fn empty_region_is_well_formed() {
    let got = extract(
        "arn:aws:ecs::123456789012:cluster/x",
        ResourceKind::Cluster,
        None,
    );
    assert_eq!(got, Ok("x".to_string()));
}

#[test]
fn identifier_may_contain_separators() {
    let got = extract(
        "arn:aws:ecs:eu-west-1:123456789012:task/prod/abc/def",
        ResourceKind::Task,
        Some("prod"),
    );
    assert_eq!(got, Ok("abc/def".to_string()));
}

#[test]
fn cluster_arn_rejected_by_service_template() {
    let got = extract(
        "arn:aws:ecs:us-east-1:123456789012:cluster/prod",
        ResourceKind::Service,
        Some("prod"),
    );
    assert_eq!(got, Err(RunError::MalformedIdentifier));
}

#[test]
fn service_arn_rejected_by_cluster_template() {
    let got = extract(
        "arn:aws:ecs:us-east-1:123456789012:service/prod/web-api",
        ResourceKind::Cluster,
        None,
    );
    assert_eq!(got, Err(RunError::MalformedIdentifier));
}

#[test]
fn task_arn_rejected_by_service_template() {
    let got = extract(
        "arn:aws:ecs:us-east-1:123456789012:task/prod/abcd1234",
        ResourceKind::Service,
        Some("prod"),
    );
    assert_eq!(got, Err(RunError::MalformedIdentifier));
}

#[test]
fn foreign_prefix_rejected() {
    let got = extract(
        "arn:aws:s3:us-east-1:123456789012:cluster/prod",
        ResourceKind::Cluster,
        None,
    );
    assert_eq!(got, Err(RunError::MalformedIdentifier));
}

#[test]
fn short_account_rejected() {
    let got = extract(
        "arn:aws:ecs:us-east-1:12345678901:cluster/prod",
        ResourceKind::Cluster,
        None,
    );
    assert_eq!(got, Err(RunError::MalformedIdentifier));
}

#[test]
fn nondigit_account_rejected() {
    let got = extract(
        "arn:aws:ecs:us-east-1:12345678901x:cluster/prod",
        ResourceKind::Cluster,
        None,
    );
    assert_eq!(got, Err(RunError::MalformedIdentifier));
}

#[test]
fn region_with_separator_rejected() {
    let got = extract(
        "arn:aws:ecs:us:east:123456789012:cluster/prod",
        ResourceKind::Cluster,
        None,
    );
    assert_eq!(got, Err(RunError::MalformedIdentifier));
}

#[test]
fn wrong_parent_rejected() {
    let got = extract(
        "arn:aws:ecs:us-east-1:123456789012:service/prod/web-api",
        ResourceKind::Service,
        Some("staging"),
    );
    assert_eq!(got, Err(RunError::MalformedIdentifier));
}

#[test]
fn truncated_name_rejected() {
    let got = extract(
        "arn:aws:ecs:us-east-1:123456789012:cluster",
        ResourceKind::Cluster,
        None,
    );
    assert_eq!(got, Err(RunError::MalformedIdentifier));
}

#[test]
fn missing_colon_after_region_rejected() {
    let got = extract("arn:aws:ecs:us-east-1", ResourceKind::Cluster, None);
    assert_eq!(got, Err(RunError::MalformedIdentifier));
}

#[test]
fn extraction_preserves_order() {
    let names = vec![
        "arn:aws:ecs:us-east-1:123456789012:cluster/prod".to_string(),
        "arn:aws:ecs:us-east-1:123456789012:cluster/staging".to_string(),
        "arn:aws:ecs:eu-west-1:999999999999:cluster/dev".to_string(),
    ];
    let got = extract_ids(&names, ResourceKind::Cluster, None);
    assert_eq!(
        got,
        Ok(vec![
            "prod".to_string(),
            "staging".to_string(),
            "dev".to_string()
        ])
    );
}

#[test]
fn one_malformed_name_rejects_the_list() {
    let names = vec![
        "arn:aws:ecs:us-east-1:123456789012:service/prod/web-api".to_string(),
        "arn:aws:ecs:us-east-1:123456789012:service/other/api".to_string(),
    ];
    let got = extract_ids(&names, ResourceKind::Service, Some("prod"));
    assert_eq!(got, Err(RunError::MalformedIdentifier));
}

#[test]
fn empty_list_reduces_to_empty_list() {
    let names: Vec<String> = vec![];
    let got = extract_ids(&names, ResourceKind::Task, Some("prod"));
    assert_eq!(got, Ok(vec![]));
}

#[test]
fn same_identifier_under_distinct_regions() {
    // extraction is injective only per template instantiation: two names that
    // differ in region alone still carry the same short identifier
    let a = extract(
        "arn:aws:ecs:us-east-1:123456789012:cluster/prod",
        ResourceKind::Cluster,
        None,
    );
    let b = extract(
        "arn:aws:ecs:eu-west-1:123456789012:cluster/prod",
        ResourceKind::Cluster,
        None,
    );
    assert_eq!(a, b);
    assert_eq!(a, Ok("prod".to_string()));
}
