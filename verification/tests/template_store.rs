use golem_common::template_store::{FsTemplateObjectStore, TemplateStoreLocalConfig};

fn store(root: &str, prefix: &str) -> FsTemplateObjectStore {
    FsTemplateObjectStore::from_config(&TemplateStoreLocalConfig {
        root_path: root.to_string(),
        object_prefix: prefix.to_string(),
    })
}

#[test]
fn dir_path_joins_prefix() {
    assert_eq!(store("/tmp/cloud-service", "prefix").get_dir_path(), "/tmp/cloud-service/prefix");
    assert_eq!(store("/tmp/cloud-service/", "prefix").get_dir_path(), "/tmp/cloud-service/prefix");
    assert_eq!(store("/tmp/cloud-service", "").get_dir_path(), "/tmp/cloud-service");
    assert_eq!(store("/tmp/cloud-service", "/abs").get_dir_path(), "/abs");
    assert_eq!(store("", "prefix").get_dir_path(), "prefix");
}

#[test]
fn object_path_joins_key() {
    assert_eq!(
        store("/tmp/cloud-service", "prefix").object_path("test_object"),
        "/tmp/cloud-service/prefix/test_object"
    );
    assert_eq!(store("root", "").object_path("k"), "root/k");
    assert_eq!(store("root", "p").object_path(""), "root/p/");
}
