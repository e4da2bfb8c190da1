use strand::{ArchivePlugin, Config, GitProvider, GitRepo, Plugin};

fn archive(url: &str) -> Plugin {
    Plugin::Archive(ArchivePlugin {
        url: String::from(url),
    })
}

#[test]
fn install_tar_on_empty_list() {
    let mut config = Config {
        plugin_dir: String::from("/plugins"),
        plugins: Vec::new(),
    };
    config.add_plugin(archive("https://host/x.tar.gz"));
    assert_eq!(config.plugins.len(), 1);
    assert_eq!(config.plugins[0], archive("https://host/x.tar.gz"));
    assert_eq!(config.plugins[0].url(), "https://host/x.tar.gz");
    assert_eq!(config.plugin_dir, "/plugins");
}

#[test]
fn append_keeps_order() {
    let first = Plugin::Git(GitRepo {
        provider: GitProvider::GitHub,
        user: String::from("acme"),
        repo: String::from("tools"),
        git_ref: None,
    });
    let second = archive("https://host/a.tar.gz");
    let mut config = Config {
        plugin_dir: String::from("/plugins"),
        plugins: vec![first.clone(), second.clone()],
    };
    config.add_plugin(second.clone());
    assert_eq!(config.plugins, vec![first, second.clone(), second]);
}

#[test]
fn plugin_dir_expands_once() {
    let mut config = Config {
        plugin_dir: String::from("~/.local/share/strand/plugins"),
        plugins: vec![archive("https://host/a.tar.gz")],
    };
    config.expand_plugin_dir("/home/u");
    assert_eq!(config.plugin_dir, "/home/u/.local/share/strand/plugins");
    config.expand_plugin_dir("/home/u");
    assert_eq!(config.plugin_dir, "/home/u/.local/share/strand/plugins");
    assert_eq!(config.plugins, vec![archive("https://host/a.tar.gz")]);
}

#[test]
fn resolving_an_absolute_dir_changes_nothing() {
    let mut config = Config {
        plugin_dir: String::from("/srv/plugins"),
        plugins: Vec::new(),
    };
    assert!(config.resolve_plugin_dir());
    assert_eq!(config.plugin_dir, "/srv/plugins");
}
