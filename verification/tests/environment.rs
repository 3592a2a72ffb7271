use zed_core::environment::{node_binary_options, node_binary_options_with_home, proxy_from_settings, user_agent};

#[test]
fn user_agent_text() {
    assert_eq!(user_agent("0.190.0", "linux", "x86_64"), "Zed/0.190.0 (linux; x86_64)");
}

#[test]
fn proxy_setting() {
    assert!(proxy_from_settings(None).is_none());
    let good = "http://127.0.0.1:8080".to_string();
    assert_eq!(proxy_from_settings(Some(&good)).unwrap().as_str(), "http://127.0.0.1:8080/");
    assert!(proxy_from_settings(Some(&"not a url".to_string())).is_none());
}

#[test]
fn node_options() {
    let options = node_binary_options(true, None, None);
    assert!(!options.allow_path_lookup);
    assert!(options.allow_binary_download);
    assert!(options.use_paths.is_none());

    let node = "/usr/local/bin/node".to_string();
    let options = node_binary_options(false, Some(&node), None);
    assert!(options.allow_path_lookup);
    assert_eq!(
        options.use_paths,
        Some(("/usr/local/bin/node".to_string(), std::path::Path::new("/usr/local/bin").join("npm").to_string_lossy().into_owned()))
    );

    let npm = "/opt/npm".to_string();
    let options = node_binary_options(false, Some(&"node".to_string()), Some(&npm));
    assert_eq!(options.use_paths, Some(("node".to_string(), "/opt/npm".to_string())));

    let options = node_binary_options(false, Some(&"node".to_string()), None);
    assert_eq!(options.use_paths, Some(("node".to_string(), "npm".to_string())));
}

#[test]
fn node_path_with_home() {
    let node = "~/bin/node".to_string();
    let options = node_binary_options(false, Some(&node), None);
    let (n, _) = options.use_paths.unwrap();
    assert!(n.ends_with("/bin/node"));
    assert!(n == node || !n.starts_with('~'));
}

#[test]
fn node_options_with_a_home_directory() {
    let home = "/home/ann".to_string();
    let node = "~/bin/node".to_string();
    let npm = "~/bin/npm".to_string();
    let options = node_binary_options_with_home(false, Some(&node), Some(&npm), Some(&home));
    assert_eq!(
        options.use_paths,
        Some(("/home/ann/bin/node".to_string(), "/home/ann/bin/npm".to_string()))
    );
    let options = node_binary_options_with_home(false, Some(&"~".to_string()), None, Some(&home));
    assert_eq!(
        options.use_paths,
        Some(("/home/ann".to_string(), std::path::Path::new("/home").join("npm").to_string_lossy().into_owned()))
    );
    let options = node_binary_options_with_home(false, Some(&"~ann/node".to_string()), None, Some(&home));
    assert_eq!(options.use_paths.unwrap().0, "~ann/node");
    let options = node_binary_options_with_home(false, Some(&node), None, None);
    assert_eq!(options.use_paths.unwrap().0, "~/bin/node");
}
