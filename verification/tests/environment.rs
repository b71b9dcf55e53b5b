//! The data model of the environment commands.

use flox_activations::environment::{
    environment_description,
    ConcreteEnvironment,
    EnvironmentOrGlobalSelect,
    EnvironmentSelect,
    PullSelect,
    ShellType,
};

#[test]
fn exe_path_returns_the_shells_executable() {
    let bash = ShellType::Bash("/bin/bash".to_string());
    assert_eq!(bash.exe_path(), "/bin/bash");
    let zsh = ShellType::Zsh("/usr/bin/zsh".to_string());
    assert_eq!(zsh.exe_path(), "/usr/bin/zsh");
}

#[test]
fn description_names_each_environment_kind() {
    let path = ConcreteEnvironment::Path {
        name: "myenv".to_string(),
    };
    assert_eq!(environment_description(&path), "myenv");

    let managed = ConcreteEnvironment::Managed {
        owner: "alice".to_string(),
        name: "myenv".to_string(),
    };
    assert_eq!(environment_description(&managed), "alice/myenv");

    let remote = ConcreteEnvironment::Remote {
        owner: "bob".to_string(),
        name: "tools".to_string(),
    };
    assert_eq!(environment_description(&remote), "bob/tools");
}

#[test]
fn selects_default_to_the_callers_context() {
    assert!(matches!(
        EnvironmentSelect::default(),
        EnvironmentSelect::Unspecified
    ));
    assert!(matches!(
        EnvironmentOrGlobalSelect::default(),
        EnvironmentOrGlobalSelect::Environment(EnvironmentSelect::Unspecified)
    ));
    assert!(matches!(
        PullSelect::default(),
        PullSelect::Existing { dir: None, force: false }
    ));
}
