use static_serve::change_detection_exclude_dir;
use static_serve::generate_resources_code;
use static_serve::generate_resources_mapping_code;
use static_serve::resource_dir;
use static_serve::CollectedEntry;
use static_serve::NpmBuild;

fn one_entry() -> Vec<CollectedEntry> {
    vec![CollectedEntry {
        rel_path: "a.txt".to_string(),
        data: b"hi".to_vec(),
        modified: 1620000000,
    }]
}

#[test]
fn generated_function_reconstructs_the_table() {
    let code = generate_resources_code("generate", &one_entry());
    let expected = "pub fn generate() -> ::static_serve::ResourceTable {\nuse ::static_serve::new_resource as n;\nlet mut r = ::static_serve::ResourceTable::new();\nr.insert(\"a.txt\".to_string(),n(vec![104,105],1620000000,\"text/plain\".to_string()));\nr\n}\n";
    assert_eq!(code, expected);
}

#[test]
fn generated_mapping_is_a_bare_block() {
    let code = generate_resources_mapping_code(&one_entry());
    let expected = "{\nuse ::static_serve::new_resource as n;\nlet mut r = ::static_serve::ResourceTable::new();\nr.insert(\"a.txt\".to_string(),n(vec![104,105],1620000000,\"text/plain\".to_string()));\nr\n}\n";
    assert_eq!(code, expected);
}

#[test]
fn generation_is_deterministic() {
    let first = generate_resources_code("generate", &one_entry());
    let second = generate_resources_code("generate", &one_entry());
    assert_eq!(first, second);
}

#[test]
fn unknown_extension_falls_back_to_octet_stream() {
    let entries = vec![CollectedEntry {
        rel_path: "blob.zzz-unknown".to_string(),
        data: b"x".to_vec(),
        modified: 0,
    }];
    let code = generate_resources_code("generate", &entries);
    assert!(code.contains("\"application/octet-stream\""));
}

#[test]
fn quotes_and_backslashes_in_keys_are_escaped() {
    let entries = vec![CollectedEntry {
        rel_path: "a\"b\\c.txt".to_string(),
        data: b"x".to_vec(),
        modified: 0,
    }];
    let code = generate_resources_code("generate", &entries);
    assert!(code.contains("r.insert(\"a\\\"b\\\\c.txt\".to_string()"));
}

#[test]
fn inserts_keep_collection_order() {
    let entries = vec![
        CollectedEntry { rel_path: "one.txt".to_string(), data: b"1".to_vec(), modified: 1 },
        CollectedEntry { rel_path: "two.txt".to_string(), data: b"2".to_vec(), modified: 2 },
    ];
    let code = generate_resources_code("generate", &entries);
    let one = code.find("one.txt").unwrap();
    let two = code.find("two.txt").unwrap();
    assert!(one < two);
}

#[test]
fn resource_dir_builder_sets_names() {
    let dir = resource_dir("./assets")
        .with_generated_filename("generated.rs")
        .with_generated_fn("make_table");
    assert_eq!(dir.resource_dir, "./assets".to_string());
    assert_eq!(dir.generated_filename, Some("generated.rs".to_string()));
    assert_eq!(dir.generated_fn, Some("make_table".to_string()));
}

#[test]
fn npm_build_defaults_to_node_modules() {
    let dir = NpmBuild::new("./web").to_resource_dir();
    assert_eq!(dir.resource_dir, "./web/node_modules".to_string());
}

#[test]
fn npm_build_target_overrides_the_directory() {
    let build = NpmBuild::new("./web").executable("yarn").target("./web/dist");
    assert_eq!(build.executable, "yarn".to_string());
    let dir = build.to_resource_dir();
    assert_eq!(dir.resource_dir, "./web/dist".to_string());
}

#[test]
fn change_detection_excludes_the_child_of_the_package_dir() {
    assert_eq!(change_detection_exclude_dir("web", "web/dist/sub"), "web/dist".to_string());
    assert_eq!(change_detection_exclude_dir("web", "web/dist"), "web/dist".to_string());
}

#[test]
fn change_detection_keeps_an_outside_target_as_it_is() {
    assert_eq!(change_detection_exclude_dir("web", "other/dist"), "other/dist".to_string());
    assert_eq!(change_detection_exclude_dir("web", "web"), "web".to_string());
}
