use shippr::actions::undeploy::{create_undeploy, undeploy as undeploy_action};
use shippr::deploy_config::{DeployChart, Deployment, Location, Release};

fn deployment() -> Deployment {
    Deployment {
        release: Release {
            name: String::from("TestRelease"),
        },
        chart: DeployChart {
            name: String::from("TestChartName"),
            version: Some(String::from("TestVersion")),
            namespace: Some(String::from("TestNamespace")),
            location: Location {
                repo: Some(String::from("TestRepo")),
                local: None,
            },
        },
    }
}

#[test]
fn undeploy() {
    // given
    let deployment = deployment();

    // when
    let result = create_undeploy(deployment);

    // then
    assert_eq!(result.get_program(), "helm");
    assert_eq!(
        result.get_args(),
        ["uninstall", "TestRelease", "--namespace", "TestNamespace"]
    );
}

#[test]
fn undeploy_plan_from_manifest() {
    let manifest = "name: TestChartName\nnamespace: TestNamespace\nlocation:\n  repo: TestRepo\n";

    let plan = undeploy_action("mychart", manifest, false).unwrap();

    assert!(plan.needs_confirmation);
    assert_eq!(plan.command.get_program(), "helm");
    assert_eq!(
        plan.command.get_args(),
        ["uninstall", "mychart", "--namespace", "TestNamespace"]
    );
}

#[test]
fn undeploy_without_namespace_omits_flag() {
    let manifest = "name: TestChartName\nlocation:\n  repo: TestRepo\n";

    let plan = undeploy_action("mychart", manifest, true).unwrap();

    assert!(!plan.needs_confirmation);
    assert_eq!(plan.command.get_args(), ["uninstall", "mychart"]);
}
