use mount_luks::cli::{cli_internal, SubCommand};
use mount_luks::logging::LogLevel;
use mount_luks::options::{
    get_default_config_path, get_paths, has_config_extension, is_config_entry, Options,
    OptionsError,
};

fn options(mapper_name: &str) -> Options {
    Options {
        partition_path: "/dev/sda2".to_string(),
        mapper_name: mapper_name.to_string(),
        mount_path: "/mnt/test2".to_string(),
        ..Options::default()
    }
}

#[test]
fn mapper_path_joins_name_under_dev_mapper() {
    assert_eq!(options("test-2").get_mapper_path(), "/dev/mapper/test-2");
    assert_eq!(options("e").get_mapper_path(), "/dev/mapper/e");
}

#[test]
fn mapper_path_of_absolute_name_is_the_name() {
    assert_eq!(options("/dev/other").get_mapper_path(), "/dev/other");
}

#[test]
fn default_config_path_needs_exactly_one_file() {
    assert_eq!(get_default_config_path(vec![]), Err(OptionsError::NoFile));
    assert_eq!(
        get_default_config_path(vec!["/etc/a.yaml".to_string()]),
        Ok("/etc/a.yaml".to_string())
    );
    assert_eq!(
        get_default_config_path(vec!["/etc/a.yaml".to_string(), "/etc/b.yml".to_string()]),
        Err(OptionsError::MultipleFiles)
    );
}

#[test]
fn config_entries_are_yaml_files() {
    assert!(is_config_entry("/cfg/config1.yaml", Some(true)));
    assert!(is_config_entry("/cfg/config2.yml", None));
    assert!(!is_config_entry("/cfg/config3.yaml", Some(false)));
    assert!(!is_config_entry("/cfg/notes.txt", Some(true)));
    assert!(!is_config_entry("/cfg/yaml", Some(true)));
    assert!(!is_config_entry("/cfg/.yaml", Some(true)));
    assert!(!is_config_entry("/cfg/config.YAML", Some(true)));
}

#[test]
fn config_extension_values() {
    assert!(has_config_extension(&Some("yaml".to_string())));
    assert!(has_config_extension(&Some("yml".to_string())));
    assert!(!has_config_extension(&Some("toml".to_string())));
    assert!(!has_config_extension(&None));
}

#[test]
fn paths_keep_config_files_in_order() {
    let entries = vec![
        ("/cfg/config1.yaml".to_string(), Some(true)),
        ("/cfg/readme.md".to_string(), Some(true)),
        ("/cfg/sub.yaml".to_string(), Some(false)),
        ("/cfg/config3.yml".to_string(), None),
    ];
    assert_eq!(
        get_paths(&entries),
        vec!["/cfg/config1.yaml".to_string(), "/cfg/config3.yml".to_string()]
    );
}

#[test]
fn options_error_messages() {
    assert_eq!(OptionsError::NoFile.message(), "Options file does not exist");
    assert_eq!(OptionsError::MultipleFiles.message(), "Multiple options files found");
    assert_eq!(OptionsError::Deserialize.message(), "Unable to deserialize options file");
}

#[test]
fn plan_defaults_to_mount_with_header() {
    let plan = cli_internal(None, None);
    assert!(plan.show_header);
    assert_eq!(plan.command, SubCommand::Mount);
    let plan = cli_internal(Some(true), Some(SubCommand::SetLuks));
    assert!(!plan.show_header);
    assert_eq!(plan.command, SubCommand::SetLuks);
    assert!(cli_internal(Some(false), Some(SubCommand::Validate)).show_header);
}

#[test]
fn names_of_subcommands_and_levels() {
    assert_eq!(SubCommand::SetTpm.name(), "SetTpm");
    assert_eq!(SubCommand::default(), SubCommand::Mount);
    assert_eq!(LogLevel::Warn.name(), "warn");
    assert_eq!(LogLevel::chosen_or_default(None), LogLevel::Info);
    assert_eq!(LogLevel::chosen_or_default(Some(LogLevel::Trace)), LogLevel::Trace);
}
