use shippr::deploy_config::{Deployment, DeploymentFileName};
use shippr::Error;

#[test]
fn deploy_config_file_deserialized_correctly() {
    // given
    let file_content = "
        name: TestName
        version: TestVersion
        namespace: TestNamespace
        location:
            repo: TestRepo
        ";

    // when
    let result = Deployment::new("TestDirectory", file_content).unwrap();

    // then
    assert_eq!(result.chart.name, "TestName");
    assert_eq!(result.chart.version, Some(String::from("TestVersion")));
    assert_eq!(result.chart.namespace, Some(String::from("TestNamespace")));
    assert_eq!(result.chart.location.repo, Some(String::from("TestRepo")));
    assert_eq!(result.chart.location.local, None);
    assert_eq!(result.release.name, "TestDirectory".to_string());
}

#[test]
fn file_deserialized_duplicate_location_error() {
    // given
    let file_content = "
        name: TestName
        version: TestVersion
        namespace: TestNamespace
        location:
            repo: TestRepo
            local: TestPath
        ";

    // when
    let result = Deployment::new("TestDirectory", file_content);

    // then
    assert!(matches!(result.err(), Some(Error::DuplicateLocation)));
}

#[test]
fn manifest_with_no_location_is_rejected() {
    let file_content = "
        name: TestName
        version: TestVersion
        ";

    let result = Deployment::new("TestDirectory", file_content);

    assert!(matches!(result.err(), Some(Error::DuplicateLocation)));
}

#[test]
fn manifest_with_local_location_loads() {
    let file_content = "
        name: TestName
        location:
            local: ./chart
        ";

    let result = Deployment::new("TestDirectory", file_content).unwrap();

    assert_eq!(result.chart.location.local, Some(String::from("./chart")));
    assert_eq!(result.chart.location.repo, None);
    assert_eq!(result.chart.version, None);
    assert_eq!(result.chart.namespace, None);
}

#[test]
fn manifest_missing_chart_name_is_config_error() {
    let file_content = "
        version: TestVersion
        location:
            repo: TestRepo
        ";

    let result = Deployment::new("TestDirectory", file_content);

    assert!(matches!(result.err(), Some(Error::ConfigError(_))));
}

#[test]
fn manifest_unparsable_is_config_error() {
    let result = Deployment::new("TestDirectory", "][ not yaml");

    assert!(matches!(result.err(), Some(Error::ConfigError(_))));
}

#[test]
fn deployment_file_name_defaults() {
    let name = DeploymentFileName::default();

    assert_eq!(name.0, "deployment");
}
