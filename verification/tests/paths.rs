use pwnenv::repo::SharedResources;
use pwnenv::util::{get_entry_name, option_to_vec, try_entry_name};

#[test]
fn entry_name_is_the_final_component() {
    assert_eq!(get_entry_name("/home/u/proj"), "proj");
    assert_eq!(get_entry_name("/home/u/proj/"), "proj");
    assert_eq!(get_entry_name("proj"), "proj");
    assert_eq!(get_entry_name("/home/u/my project.d"), "my project.d");
}

#[test]
fn entry_name_is_missing_for_root_and_parent() {
    assert_eq!(try_entry_name("/home/u/proj"), Some("proj".to_string()));
    assert_eq!(try_entry_name("/"), None);
    assert_eq!(try_entry_name(""), None);
    assert_eq!(try_entry_name("/home/u/.."), None);
}

#[test]
fn option_becomes_a_vector() {
    assert_eq!(option_to_vec(Some(3)), vec![3]);
    assert_eq!(option_to_vec::<u8>(None), Vec::<u8>::new());
    assert_eq!(option_to_vec(Some("x".to_string())), vec!["x".to_string()]);
}

#[test]
fn shared_resources_are_found_under_the_shared_directory() {
    let shared = SharedResources {
        shared_dir_path: "/home/u/.local/share/pwnenv".to_string(),
        dockerfile_template_relative_path: "template.dockerfile".to_string(),
        compose_template_relative_path: "template.compose.yml".to_string(),
        database_relative_path: "store.db".to_string(),
    };
    assert_eq!(
        shared.dockerfile_template_absolute_path(),
        "/home/u/.local/share/pwnenv/template.dockerfile"
    );
    assert_eq!(
        shared.compose_template_absolute_path(),
        "/home/u/.local/share/pwnenv/template.compose.yml"
    );
    assert_eq!(shared.database_absolute_path(), "/home/u/.local/share/pwnenv/store.db");
}

#[test]
fn absolute_relative_path_replaces_the_shared_directory() {
    let shared = SharedResources {
        shared_dir_path: "/home/u/share/".to_string(),
        dockerfile_template_relative_path: "/etc/template.dockerfile".to_string(),
        compose_template_relative_path: "sub/template.compose.yml".to_string(),
        database_relative_path: String::new(),
    };
    assert_eq!(shared.dockerfile_template_absolute_path(), "/etc/template.dockerfile");
    assert_eq!(shared.compose_template_absolute_path(), "/home/u/share/sub/template.compose.yml");
    assert_eq!(shared.database_absolute_path(), "/home/u/share/");
}
