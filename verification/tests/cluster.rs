use shippr::actions::cluster::{list_clusters, set_cluster};

#[test]
fn correct_kubectl_command() {
    // given

    // when
    let command = list_clusters();

    // then
    assert_eq!(command.get_program(), "kubectl");
    assert_eq!(command.get_args(), ["config", "get-contexts"]);
}

#[test]
fn set_uses_name_for_kubectl_cmd() {
    // given
    let name = "testName";

    // when
    let command = set_cluster(name);

    // then
    assert_eq!(command.get_program(), "kubectl");
    assert_eq!(command.get_args(), ["config", "use-context", "testName"]);
}
