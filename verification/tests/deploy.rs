use shippr::actions::deploy::{create_deploy, deploy};
use shippr::deploy_config::{DeployChart, Deployment, Location, Release};

fn deployment() -> Deployment {
    Deployment {
        release: Release {
            name: String::from("TestRelease"),
        },
        chart: DeployChart {
            name: String::from("TestChartName"),
            version: Some(String::from("TestVersion")),
            namespace: Some(String::from("TestNamespace")),
            location: Location {
                repo: Some(String::from("TestRepo")),
                local: None,
            },
        },
    }
}

#[test]
fn deploy_no_profile() {
    // given
    let deployment = deployment();

    let values_default = String::from("values-default.yaml");

    // when
    let result = create_deploy(deployment, values_default, None);

    // then
    assert_eq!(result.get_program(), "helm");
    assert_eq!(
        result.get_args(),
        [
            "upgrade",
            "--install",
            "--wait",
            "--timeout",
            "2m0s",
            "-f",
            "values-default.yaml",
            "--version",
            "TestVersion",
            "--namespace",
            "TestNamespace",
            "--create-namespace",
            "TestRelease",
            "TestChartName",
            "--repo",
            "TestRepo",
        ]
    );
}

#[test]
fn deploy_with_profile() {
    // given
    let deployment = deployment();

    let values_default = String::from("values-default.yaml");
    let values_profile = String::from("values-test.yaml");

    // when
    let result = create_deploy(deployment, values_default, Some(values_profile));

    // then
    assert_eq!(result.get_program(), "helm");
    assert_eq!(
        result.get_args(),
        [
            "upgrade",
            "--install",
            "--wait",
            "--timeout",
            "2m0s",
            "-f",
            "values-default.yaml",
            "-f",
            "values-test.yaml",
            "--version",
            "TestVersion",
            "--namespace",
            "TestNamespace",
            "--create-namespace",
            "TestRelease",
            "TestChartName",
            "--repo",
            "TestRepo",
        ]
    );
}

const MANIFEST: &str = "name: TestChartName\nversion: TestVersion\nnamespace: TestNamespace\nlocation:\n  local: ./chart\n";

#[test]
fn deploy_plan_requires_confirmation_by_default() {
    let plan = deploy(None, "mychart", MANIFEST, true, false, false).unwrap();

    assert!(plan.needs_confirmation);
    assert_eq!(plan.command.get_program(), "helm");
}

#[test]
fn deploy_plan_skips_confirmation_when_suppressed() {
    let plan = deploy(None, "mychart", MANIFEST, true, false, true).unwrap();

    assert!(!plan.needs_confirmation);
}

#[test]
fn deploy_local_location_appended_bare() {
    let plan = deploy(None, "mychart", MANIFEST, true, false, true).unwrap();

    assert_eq!(
        plan.command.get_args(),
        [
            "upgrade",
            "--install",
            "--wait",
            "--timeout",
            "2m0s",
            "-f",
            "mychart/values-default.yaml",
            "--version",
            "TestVersion",
            "--namespace",
            "TestNamespace",
            "--create-namespace",
            "mychart",
            "./chart",
        ]
    );
}
