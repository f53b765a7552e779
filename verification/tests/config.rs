use channel_runner::config::{Defaults, Image};

fn image(i: Option<&str>, r: Option<&str>) -> Image {
    Image { image: i.map(|s| s.to_string()), release: r.map(|s| s.to_string()) }
}

#[test]
fn defaults_new_is_empty() {
    let d = Defaults::new();
    assert_eq!(d.len(), 0);
    assert!(d.get("docker").is_none());
}

#[test]
fn defaults_get_after_insert() {
    let mut d = Defaults::new();
    d.insert("docker".to_string(), image(Some("alpine"), Some("latest")));
    assert_eq!(d.get("docker"), Some(&image(Some("alpine"), Some("latest"))));
    assert!(d.get("lxc").is_none());
}

#[test]
fn defaults_insert_replaces_and_keeps_others() {
    let mut d = Defaults::new();
    d.insert("docker".to_string(), image(Some("alpine"), Some("latest")));
    d.insert("lxc".to_string(), image(Some("alpine"), Some("edge")));
    d.insert("docker".to_string(), image(Some("debian"), None));
    assert_eq!(d.len(), 2);
    assert_eq!(d.get("docker"), Some(&image(Some("debian"), None)));
    assert_eq!(d.get("lxc"), Some(&image(Some("alpine"), Some("edge"))));
}

#[test]
fn defaults_keys_lists_each_backend_once() {
    let mut d = Defaults::new();
    d.insert("docker".to_string(), image(None, None));
    d.insert("lxc".to_string(), image(None, None));
    d.insert("docker".to_string(), image(Some("x"), None));
    let mut ks = d.keys();
    ks.sort();
    assert_eq!(ks, vec!["docker".to_string(), "lxc".to_string()]);
}
