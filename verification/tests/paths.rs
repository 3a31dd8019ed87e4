use services_control::paths::{get_completion_path, get_directory, get_path};

#[test]
fn registry_path_of_a_user() {
    assert_eq!(get_path("ana"), "/home/ana/.cli/services.json");
}

#[test]
fn directory_of_a_user() {
    assert_eq!(get_directory("ana"), "/home/ana/.cli");
}

#[test]
fn completion_path_of_a_user() {
    assert_eq!(get_completion_path("ana"), "/home/ana/.cli/bash_completion.sh");
}

#[test]
fn paths_take_the_user_name_as_it_is() {
    assert_eq!(get_path(""), "/home//.cli/services.json");
    assert_eq!(get_path("a b"), "/home/a b/.cli/services.json");
}
