use shippr::actions::check::{check, create_check};
use shippr::deploy_config::{DeployChart, Deployment, Location, Release};
use shippr::Error;

fn deployment() -> Deployment {
    Deployment {
        release: Release {
            name: String::from("TestRelease"),
        },
        chart: DeployChart {
            name: String::from("TestChartName"),
            version: Some(String::from("TestVersion")),
            namespace: Some(String::from("TestNamespace")),
            location: Location {
                repo: Some(String::from("TestRepo")),
                local: None,
            },
        },
    }
}

#[test]
fn check_no_profile() {
    // given
    let deployment = deployment();

    let values_default = String::from("values-default.yaml");

    // when
    let result = create_check(deployment, values_default, None);

    // then
    assert_eq!(result.get_program(), "helm");
    assert_eq!(
        result.get_args(),
        [
            "upgrade",
            "--install",
            "--version",
            "TestVersion",
            "--namespace",
            "TestNamespace",
            "--create-namespace",
            "TestRelease",
            "TestChartName",
            "--repo",
            "TestRepo",
            "-f",
            "values-default.yaml",
            "--dry-run",
        ]
    );
}

#[test]
fn check_with_profile() {
    // given
    let deployment = deployment();

    let values_default = String::from("values-default.yaml");
    let values_profile = String::from("values-test.yaml");

    // when
    let result = create_check(deployment, values_default, Some(values_profile));

    // then
    assert_eq!(result.get_program(), "helm");
    assert_eq!(
        result.get_args(),
        [
            "upgrade",
            "--install",
            "--version",
            "TestVersion",
            "--namespace",
            "TestNamespace",
            "--create-namespace",
            "TestRelease",
            "TestChartName",
            "--repo",
            "TestRepo",
            "-f",
            "values-default.yaml",
            "-f",
            "values-test.yaml",
            "--dry-run",
        ]
    );
}

const MANIFEST: &str = "name: TestChartName\nversion: TestVersion\nnamespace: TestNamespace\nlocation:\n  repo: TestRepo\n";

#[test]
fn check_builds_dry_run_from_manifest() {
    let result = check(None, "mychart", MANIFEST, true, false).unwrap();

    assert_eq!(result.get_program(), "helm");
    assert_eq!(
        result.get_args(),
        [
            "upgrade",
            "--install",
            "--version",
            "TestVersion",
            "--namespace",
            "TestNamespace",
            "--create-namespace",
            "mychart",
            "TestChartName",
            "--repo",
            "TestRepo",
            "-f",
            "mychart/values-default.yaml",
            "--dry-run",
        ]
    );
}

#[test]
fn check_missing_default_values_file() {
    let result = check(None, "mychart", MANIFEST, false, false);

    match result {
        Err(Error::ValuesDefaultMissing(path)) => {
            assert_eq!(path, "mychart/values-default.yaml");
        }
        other => panic!("expected ValuesDefaultMissing, got {:?}", other),
    }
}

#[test]
fn check_missing_profile_values_file() {
    let result = check(Some(String::from("dev")), "mychart", MANIFEST, true, false);

    match result {
        Err(Error::ValuesProfileMissing(path)) => {
            assert_eq!(path, "mychart/values-dev.yaml");
        }
        other => panic!("expected ValuesProfileMissing, got {:?}", other),
    }
}

#[test]
fn check_with_profile_values_file_present() {
    let result = check(Some(String::from("dev")), "mychart", MANIFEST, true, true).unwrap();

    let args = result.get_args();
    assert!(args.contains(&String::from("mychart/values-dev.yaml")));
}
