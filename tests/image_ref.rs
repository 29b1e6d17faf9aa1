use paastel::image_ref::split_image;

fn split(s: &str) -> (String, String) {
    split_image(s)
}

#[test]
fn split_bare_name_gets_latest() {
    assert_eq!(split("nginx"), ("nginx".to_string(), "latest".to_string()));
}

#[test]
fn split_name_and_tag() {
    assert_eq!(split("sample-nginx:dev"), ("sample-nginx".to_string(), "dev".to_string()));
}

#[test]
fn split_registry_path_and_tag() {
    assert_eq!(
        split("localhost:5000/teste/nginx:dev"),
        ("localhost:5000/teste/nginx".to_string(), "dev".to_string())
    );
}

#[test]
fn split_port_colon_is_not_a_tag() {
    assert_eq!(
        split("localhost:5000/nginx"),
        ("localhost:5000/nginx".to_string(), "latest".to_string())
    );
}

#[test]
fn split_empty_tag_falls_back_to_latest() {
    assert_eq!(split("nginx:"), ("nginx:".to_string(), "latest".to_string()));
}

#[test]
fn split_empty_repository_is_kept_whole() {
    assert_eq!(split(":dev"), (":dev".to_string(), "latest".to_string()));
}

#[test]
fn split_uses_last_colon() {
    assert_eq!(split("org/app:1.2:rc1"), ("org/app:1.2".to_string(), "rc1".to_string()));
}

#[test]
fn split_non_ascii_reference() {
    assert_eq!(split("ação/imagem:versão"), ("ação/imagem".to_string(), "versão".to_string()));
}
