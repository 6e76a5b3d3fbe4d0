use phishvault::runner::{
    choose_project_root, compose_args, docker_failed_entry, docker_finished_entry,
    docker_started_entry, quoted_list, root_fallback_entry, root_found_entry,
};

#[test]
fn compose_argument_vectors() {
    assert_eq!(
        compose_args(true),
        vec!["compose", "-f", "deploy/docker-compose.yml", "up", "-d"]
    );
    assert_eq!(
        compose_args(false),
        vec!["compose", "-f", "deploy/docker-compose.yml", "down"]
    );
}

#[test]
fn quoted_list_rendering() {
    assert_eq!(quoted_list(&Vec::new()), "[]");
    assert_eq!(quoted_list(&vec!["a".to_string()]), "[\"a\"]");
    assert_eq!(
        quoted_list(&vec!["up".to_string(), "-d".to_string()]),
        "[\"up\", \"-d\"]"
    );
}

#[test]
fn started_and_finished_entries() {
    let args = compose_args(false);
    let s = docker_started_entry(&args);
    assert_eq!(s.level, "CMD");
    assert_eq!(
        s.message,
        "Running Docker: [\"compose\", \"-f\", \"deploy/docker-compose.yml\", \"down\"]"
    );
    let f = docker_finished_entry(&args);
    assert_eq!(f.level, "DOCKER");
    assert_eq!(
        f.message,
        "Command Finished: [\"compose\", \"-f\", \"deploy/docker-compose.yml\", \"down\"]"
    );
}

#[test]
fn failure_and_fallback_entries() {
    let e = docker_failed_entry("no such file");
    assert_eq!(e.level, "ERROR");
    assert_eq!(e.message, "Docker failed: no such file");
    let w = root_fallback_entry();
    assert_eq!(w.level, "WARN");
    assert_eq!(
        w.message,
        "Could not auto-detect project root. using default '..' path."
    );
    let d = root_found_entry("/srv/deploy-root");
    assert_eq!(d.level, "DEBUG");
    assert_eq!(d.message, "Project Root Found: \"/srv/deploy-root\"");
}

#[test]
fn project_root_takes_first_hit() {
    assert_eq!(choose_project_root(&vec![false, false, true, false]), Some(2));
    assert_eq!(choose_project_root(&vec![true, true]), Some(0));
    assert_eq!(choose_project_root(&vec![false, false]), None);
    assert_eq!(choose_project_root(&Vec::new()), None);
}
