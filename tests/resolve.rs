use cli_config::error::ConfigError;
use cli_config::fs::TestConfig;
use cli_config::paths::{candidate_paths, has_file, join_path, select_existing, BaseDirs};
use cli_config::resolve::{
    confirm_new_path, get_new_config_path, locate_config, plan_init, InitPlan, CANNOT_CREATE,
    EMPTY_NAME,
};

fn unix() -> BaseDirs {
    BaseDirs::Unix {
        config_home: Some("/home/u/.config".to_string()),
        home: Some("/home/u".to_string()),
    }
}

fn windows() -> BaseDirs {
    BaseDirs::Windows {
        config_dir: Some("C:\\Users\\u\\AppData\\Roaming".to_string()),
    }
}

fn files(paths: &[&str]) -> Vec<String> {
    paths.iter().map(|p| p.to_string()).collect()
}

#[test]
fn join_adds_one_separator() {
    assert_eq!(join_path("/a", "b", "/"), "/a/b");
    assert_eq!(join_path("/a/", "b", "/"), "/a/b");
    assert_eq!(join_path("", "b", "/"), "b");
    assert_eq!(join_path("C:\\x", "y", "\\"), "C:\\x\\y");
}

#[test]
fn unix_candidates_in_search_order() {
    let c = candidate_paths(&unix(), "hawk", "config.toml");
    assert_eq!(
        c,
        vec![
            "/home/u/.config/hawk/config.toml",
            "/home/u/.config/hawk.json",
            "/home/u/.config/hawk/config.toml",
            "/home/u/.hawk.json",
        ]
    );
}

#[test]
fn unix_candidates_with_other_home() {
    let dirs = BaseDirs::Unix {
        config_home: Some("/xdg".to_string()),
        home: Some("/home/u".to_string()),
    };
    let c = candidate_paths(&dirs, "hawk", "config.toml");
    assert_eq!(
        c,
        vec![
            "/xdg/hawk/config.toml",
            "/xdg/hawk.json",
            "/home/u/.config/hawk/config.toml",
            "/home/u/.hawk.json",
        ]
    );
}

#[test]
fn unknown_base_directories_give_fewer_candidates() {
    let dirs = BaseDirs::Unix { config_home: None, home: Some("/home/u".to_string()) };
    assert_eq!(
        candidate_paths(&dirs, "hawk", "c.json"),
        vec!["/home/u/.config/hawk/c.json", "/home/u/.hawk.json"]
    );
    let none = BaseDirs::Unix { config_home: None, home: None };
    assert!(candidate_paths(&none, "hawk", "c.json").is_empty());
    let win = BaseDirs::Windows { config_dir: None };
    assert!(candidate_paths(&win, "hawk", "c.json").is_empty());
}

#[test]
fn windows_has_one_candidate() {
    assert_eq!(
        candidate_paths(&windows(), "hawk", "config.json"),
        vec!["C:\\Users\\u\\AppData\\Roaming\\hawk\\config.json"]
    );
}

#[test]
fn has_file_compares_whole_paths() {
    let ex = files(&["/a/b", "/c"]);
    assert!(has_file(&ex, &"/c".to_string()));
    assert!(!has_file(&ex, &"/a".to_string()));
    assert!(!has_file(&Vec::new(), &"/c".to_string()));
}

#[test]
fn select_takes_first_listed() {
    let cands = files(&["/1", "/2", "/3"]);
    assert_eq!(select_existing(&cands, &files(&["/3", "/2"])), Some("/2".to_string()));
    assert_eq!(select_existing(&cands, &files(&["/4"])), None);
}

#[test]
fn first_candidate_found() {
    let ex = files(&["/home/u/.config/hawk/config.json", "/home/u/.hawk.json"]);
    assert_eq!(
        locate_config(&unix(), "hawk", "config.json", &ex),
        Some("/home/u/.config/hawk/config.json".to_string())
    );
}

#[test]
fn flat_json_beats_home_config() {
    let dirs = BaseDirs::Unix {
        config_home: Some("/xdg".to_string()),
        home: Some("/home/u".to_string()),
    };
    let ex = files(&["/home/u/.config/hawk/config.yml", "/xdg/hawk.json"]);
    assert_eq!(
        locate_config(&dirs, "hawk", "config.yml", &ex),
        Some("/xdg/hawk.json".to_string())
    );
}

#[test]
fn hidden_home_file_is_last_resort() {
    let ex = files(&["/home/u/.hawk.json"]);
    assert_eq!(
        locate_config(&unix(), "hawk", "config.json", &ex),
        Some("/home/u/.hawk.json".to_string())
    );
}

#[test]
fn nothing_found_without_files() {
    assert_eq!(locate_config(&unix(), "hawk", "config.json", &Vec::new()), None);
    assert_eq!(locate_config(&windows(), "hawk", "config.json", &Vec::new()), None);
}

#[test]
fn empty_names_find_nothing() {
    let ex = files(&["/home/u/.config/.json", "/home/u/.config/hawk/"]);
    assert_eq!(locate_config(&unix(), "", "config.json", &ex), None);
    assert_eq!(locate_config(&unix(), "hawk", "", &ex), None);
}

#[test]
fn empty_names_are_rejected() {
    match plan_init(&unix(), "", "config.json", &Vec::new()) {
        Err(ConfigError::InvalidConfig(m)) => assert_eq!(m, EMPTY_NAME),
        other => panic!("unexpected {:?}", other),
    }
    match plan_init(&unix(), "hawk", "", &Vec::new()) {
        Err(ConfigError::InvalidConfig(m)) => assert_eq!(m, EMPTY_NAME),
        other => panic!("unexpected {:?}", other),
    }
}

#[test]
fn first_run_plans_creation() {
    match plan_init(&unix(), "hawk", "config.json", &Vec::new()) {
        Ok(InitPlan::Create { dir, path }) => {
            assert_eq!(dir, "/home/u/.config/hawk");
            assert_eq!(path, "/home/u/.config/hawk/config.json");
        }
        other => panic!("unexpected {:?}", other),
    }
}

#[test]
fn existing_file_is_kept() {
    let ex = files(&["/home/u/.hawk.json"]);
    match plan_init(&unix(), "hawk", "config.json", &ex) {
        Ok(InitPlan::Existing(p)) => assert_eq!(p, "/home/u/.hawk.json"),
        other => panic!("unexpected {:?}", other),
    }
}

#[test]
fn second_init_finds_first_file() {
    let mut ex = Vec::new();
    let created = match plan_init(&unix(), "hawk", "config.json", &ex) {
        Ok(InitPlan::Create { path, .. }) => path,
        other => panic!("unexpected {:?}", other),
    };
    ex.push(created.clone());
    assert_eq!(locate_config(&unix(), "hawk", "config.json", &ex), Some(created.clone()));
    match plan_init(&unix(), "hawk", "config.json", &ex) {
        Ok(InitPlan::Existing(p)) => assert_eq!(p, created),
        other => panic!("unexpected {:?}", other),
    }
}

#[test]
fn no_config_home_cannot_create() {
    let dirs = BaseDirs::Unix { config_home: None, home: Some("/home/u".to_string()) };
    assert_eq!(get_new_config_path(&dirs, "hawk", "config.json", &Vec::new()), None);
    match plan_init(&dirs, "hawk", "config.json", &Vec::new()) {
        Err(ConfigError::Custom(m)) => assert_eq!(m, CANNOT_CREATE),
        other => panic!("unexpected {:?}", other),
    }
}

#[test]
fn windows_never_offers_a_new_file() {
    assert_eq!(get_new_config_path(&windows(), "hawk", "config.json", &Vec::new()), None);
    match plan_init(&windows(), "hawk", "config.json", &Vec::new()) {
        Err(ConfigError::Custom(m)) => assert_eq!(m, "Could not create file"),
        other => panic!("unexpected {:?}", other),
    }
    let ex = files(&["C:\\Users\\u\\AppData\\Roaming\\hawk\\config.json"]);
    assert_eq!(
        get_new_config_path(&windows(), "hawk", "config.json", &ex),
        Some("C:\\Users\\u\\AppData\\Roaming\\hawk\\config.json".to_string())
    );
    match plan_init(&windows(), "hawk", "config.json", &ex) {
        Ok(InitPlan::Existing(p)) => {
            assert_eq!(p, "C:\\Users\\u\\AppData\\Roaming\\hawk\\config.json")
        }
        other => panic!("unexpected {:?}", other),
    }
}

#[test]
fn unix_new_path_is_first_candidate() {
    let dirs = BaseDirs::Unix { config_home: Some("/xdg/".to_string()), home: None };
    assert_eq!(
        get_new_config_path(&dirs, "hawk", "config.json", &Vec::new()),
        Some("/xdg/hawk/config.json".to_string())
    );
}

#[test]
fn confirm_depends_on_directory() {
    match confirm_new_path("/x/y".to_string(), true) {
        Ok(p) => assert_eq!(p, "/x/y"),
        other => panic!("unexpected {:?}", other),
    }
    match confirm_new_path("/x/y".to_string(), false) {
        Err(ConfigError::Custom(m)) => assert_eq!(m, "Could not create file"),
        other => panic!("unexpected {:?}", other),
    }
}

#[test]
fn test_config_default_values() {
    let c = TestConfig::default();
    assert_eq!(c.foo, "foo");
    assert!(c.bar);
    assert_eq!(c.baz, 42);
    assert_eq!(c, TestConfig { foo: "foo".to_string(), bar: true, baz: 42 });
    assert_ne!(c, TestConfig { foo: "foo".to_string(), bar: true, baz: 41 });
}

#[test]
fn empty_names_get_no_new_path() {
    let ex = files(&["C:\\Users\\u\\AppData\\Roaming\\hawk.json"]);
    assert_eq!(get_new_config_path(&unix(), "", "hawk.json", &Vec::new()), None);
    assert_eq!(get_new_config_path(&unix(), "hawk", "", &Vec::new()), None);
    assert_eq!(get_new_config_path(&unix(), "", "", &Vec::new()), None);
    assert_eq!(get_new_config_path(&windows(), "", "hawk.json", &ex), None);
}
