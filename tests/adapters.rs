use editor_plugins::jetbrains::JETBRAINS_PLUGIN_ID;
use editor_plugins::text::{contains, is_blank, starts_with, trim};
use editor_plugins::vscode::VSCODE_EXTENSION_ID;
use editor_plugins::{
    is_process_running, patch_settings, process_query, resolve_cli, settings_source, InstallError,
    JetBrainsFamily, Platform, ProbeOutcome, RunOutcome, ShapeFailure, VsCodeFamily, Zed,
};

const IDEA: JetBrainsFamily = JetBrainsFamily {
    name: "IntelliJ IDEA",
    product_codes: &["IntelliJIdea", "IdeaIC"],
    cli_command: "idea",
    macos_app_names: &["IntelliJ IDEA", "IntelliJ IDEA CE"],
};

const CODE: VsCodeFamily = VsCodeFamily {
    name: "VS Code",
    config_subdir: ".vscode",
    cli_command: "code",
    macos_app_name: "Visual Studio Code",
    windows_app_folder: "Microsoft VS Code",
};

fn strings(items: &[&str]) -> Vec<String> {
    items.iter().map(|s| s.to_string()).collect()
}

fn squeeze(s: &str) -> String {
    s.chars().filter(|c| !c.is_whitespace()).collect()
}

#[test]
fn resolver_prefers_search_path() {
    let fallbacks = strings(&["/opt/idea/bin/idea", "/usr/local/bin/idea"]);
    let r = resolve_cli(Some("/usr/bin/idea".to_string()), &fallbacks, &vec![true, true]);
    assert_eq!(r, Some("/usr/bin/idea".to_string()));
}

#[test]
fn resolver_takes_first_existing_fallback() {
    let fallbacks = strings(&["/a/code", "/b/code", "/c/code"]);
    let r = resolve_cli(None, &fallbacks, &vec![false, true, true]);
    assert_eq!(r, Some("/b/code".to_string()));
}

#[test]
fn resolver_exhausted_finds_nothing() {
    let fallbacks = strings(&["/a/code", "/b/code"]);
    assert_eq!(resolve_cli(None, &fallbacks, &vec![false, false]), None);
    assert_eq!(resolve_cli(None, &Vec::new(), &Vec::new()), None);
}

#[test]
fn patch_twice_equals_patch_once() {
    for input in ["", "{}", "{ \"foo\": 1, // comment\n \"bar\": 2 }", "{\"auto_install_extensions\": {\"wakatime\": false}}"] {
        let once = patch_settings("settings.json", Some(input)).unwrap();
        let twice = patch_settings("settings.json", Some(once.as_str())).unwrap();
        assert_eq!(once, twice);
    }
}

#[test]
fn patch_keeps_unrelated_content() {
    let input = "{ \"foo\": 1, // comment\n \"bar\": 2 }";
    let out = patch_settings("settings.json", Some(input)).unwrap();
    assert_ne!(out, input);
    assert!(out.contains("\"foo\": 1"));
    assert!(out.contains("// comment"));
    assert!(out.contains("\"bar\": 2"));
    let squeezed = squeeze(&out);
    assert!(squeezed.contains("\"auto_install_extensions\":{\"wakatime\":true}"));
}

#[test]
fn patch_on_empty_content() {
    let expected = "{\"auto_install_extensions\":{\"wakatime\":true}}";
    for content in [None, Some(""), Some("   \n\t ")] {
        let out = patch_settings("settings.json", content).unwrap();
        assert_eq!(squeeze(&out), expected);
    }
}

#[test]
fn patch_rejects_non_object_list() {
    let input = "{\"auto_install_extensions\": 5}";
    match patch_settings("/cfg/settings.json", Some(input)) {
        Err(InstallError::ConfigShape { path, failure: ShapeFailure::Key(k) }) => {
            assert_eq!(path, "/cfg/settings.json");
            assert_eq!(k, "auto_install_extensions");
        }
        other => panic!("unexpected {:?}", other),
    }
}

#[test]
fn patch_rejects_non_object_root() {
    match patch_settings("settings.json", Some("[1, 2]")) {
        Err(InstallError::ConfigShape { failure: ShapeFailure::Root, .. }) => {}
        other => panic!("unexpected {:?}", other),
    }
}

#[test]
fn patch_rejects_invalid_text() {
    match patch_settings("/cfg/settings.json", Some("{\"a\": }")) {
        Err(InstallError::ConfigParse { path, detail }) => {
            assert_eq!(path, "/cfg/settings.json");
            assert!(!detail.is_empty());
        }
        other => panic!("unexpected {:?}", other),
    }
}

#[test]
fn patch_overwrites_existing_value() {
    let input = "{\n  // keep\n  \"auto_install_extensions\": {\n    \"wakatime\": false\n  }\n}\n";
    let out = patch_settings("settings.json", Some(input)).unwrap();
    assert!(out.contains("// keep"));
    assert!(out.contains("\"wakatime\": true"));
    assert!(!out.contains("false"));
}

#[test]
fn blank_content_is_an_empty_object() {
    assert_eq!(settings_source(None), "{}");
    assert_eq!(settings_source(Some(" \u{3000}\n")), "{}");
    assert_eq!(settings_source(Some(" {\"a\": 1}")), " {\"a\": 1}");
}

#[test]
fn detection_without_config_or_cli() {
    assert!(!IDEA.is_installed(&Vec::new(), &None));
    assert!(!CODE.is_installed(&None, false));
    assert!(!Zed.is_installed(Platform::Linux, &ProbeOutcome::Failed, &vec![false, false, false, false]));
}

#[test]
fn detection_with_config_or_cli() {
    assert!(IDEA.is_installed(&strings(&["/c/IdeaIC2024.1"]), &None));
    assert!(IDEA.is_installed(&Vec::new(), &Some("/usr/bin/idea".to_string())));
    assert!(CODE.is_installed(&None, true));
    assert!(CODE.is_installed(&Some("code".to_string()), false));
}

#[test]
fn install_without_cli_is_not_found() {
    match IDEA.install(None) {
        Err(InstallError::NotFound { editor }) => assert_eq!(editor, "IntelliJ IDEA"),
        other => panic!("unexpected {:?}", other),
    }
    match CODE.install(Platform::Linux, None) {
        Err(InstallError::NotFound { editor }) => assert_eq!(editor, "VS Code"),
        other => panic!("unexpected {:?}", other),
    }
}

#[test]
fn jetbrains_install() {
    let inv = IDEA.install(Some("/opt/idea/bin/idea".to_string())).unwrap();
    assert_eq!(inv.program, "/opt/idea/bin/idea");
    assert_eq!(inv.args, strings(&["installPlugins", "com.wakatime.intellij.plugin"]));
    assert_eq!(JETBRAINS_PLUGIN_ID, "com.wakatime.intellij.plugin");
}

#[test]
fn vscode_install_per_platform() {
    let inv = CODE.install(Platform::Linux, Some("/usr/bin/code".to_string())).unwrap();
    assert_eq!(inv.program, "/usr/bin/code");
    assert_eq!(inv.args, strings(&["--install-extension", VSCODE_EXTENSION_ID]));
    let inv = CODE.install(Platform::Windows, Some("C:\\code.cmd".to_string())).unwrap();
    assert_eq!(inv.program, "cmd");
    assert_eq!(inv.args, strings(&["/C", "C:\\code.cmd", "--install-extension", "WakaTime.vscode-wakatime"]));
}

#[test]
fn installer_outcomes() {
    assert!(IDEA.install_result("idea", RunOutcome::Exited(Some(0))).is_ok());
    match IDEA.install_result("idea", RunOutcome::Exited(Some(1))) {
        Err(InstallError::Failed { editor, code }) => {
            assert_eq!(editor, "IntelliJ IDEA");
            assert_eq!(code, Some(1));
        }
        other => panic!("unexpected {:?}", other),
    }
    match CODE.install_result("code", RunOutcome::Exited(None)) {
        Err(InstallError::Failed { code: None, .. }) => {}
        other => panic!("unexpected {:?}", other),
    }
    match CODE.install_result("code", RunOutcome::SpawnFailed("denied".to_string())) {
        Err(InstallError::SpawnFailed { program, detail }) => {
            assert_eq!(program, "code");
            assert_eq!(detail, "denied");
        }
        other => panic!("unexpected {:?}", other),
    }
}

#[test]
fn process_queries() {
    let q = process_query(Platform::Linux, "idea");
    assert_eq!(q.program, "pgrep");
    assert_eq!(q.args, strings(&["-i", "idea"]));
    let q = process_query(Platform::Windows, "idea64");
    assert_eq!(q.program, "tasklist");
    assert_eq!(q.args, strings(&["/FI", "IMAGENAME eq idea64.exe"]));
}

#[test]
fn process_reports() {
    let ran = |success: bool, stdout: &str| ProbeOutcome::Finished { success, stdout: stdout.to_string() };
    assert!(is_process_running(Platform::Linux, "idea", &ran(true, "")));
    assert!(!is_process_running(Platform::Linux, "idea", &ran(false, "")));
    assert!(!is_process_running(Platform::MacOs, "idea", &ProbeOutcome::Failed));
    assert!(is_process_running(Platform::Windows, "idea", &ran(true, "Image Name\nidea.exe   1234")));
    assert!(!is_process_running(Platform::Windows, "idea", &ran(true, "INFO: No tasks are running")));
    assert!(IDEA.is_running(Platform::Linux, &ran(true, "")));
    assert!(!IDEA.is_running(Platform::Windows, &ran(true, "ideaX.exe")));
}

#[test]
fn running_warning_names_the_ide() {
    assert_eq!(
        IDEA.running_warning(),
        "Warning: IntelliJ IDEA appears to be running. Please close it for the plugin to install correctly."
    );
}

#[test]
fn jetbrains_config_dirs() {
    let root = JetBrainsFamily::config_root(Platform::Linux, Some("/home/u"), None).unwrap();
    assert_eq!(root, "/home/u/.config/JetBrains");
    assert_eq!(
        JetBrainsFamily::config_root(Platform::MacOs, Some("/Users/u"), None),
        Some("/Users/u/Library/Application Support/JetBrains".to_string())
    );
    assert_eq!(
        JetBrainsFamily::config_root(Platform::Windows, Some("/home/u"), Some("C:/AppData")),
        Some("C:/AppData/JetBrains".to_string())
    );
    assert_eq!(JetBrainsFamily::config_root(Platform::Windows, Some("/home/u"), None), None);
    let entries = strings(&["IdeaIC2023.3", "PyCharm2024.1", "IntelliJIdea2024.1", "Idea"]);
    assert_eq!(
        IDEA.config_dirs(&root, &entries),
        strings(&["/home/u/.config/JetBrains/IdeaIC2023.3", "/home/u/.config/JetBrains/IntelliJIdea2024.1"])
    );
}

#[test]
fn jetbrains_cli_paths_per_platform() {
    assert_eq!(
        IDEA.cli_paths(Platform::Linux, Some("/home/u"), None, None),
        strings(&[
            "/home/u/.local/share/JetBrains/Toolbox/apps/idea/bin/idea",
            "/opt/idea/bin/idea",
            "/usr/local/bin/idea",
            "/snap/bin/idea",
        ])
    );
    assert_eq!(
        IDEA.cli_paths(Platform::MacOs, Some("/Users/u"), None, None),
        strings(&[
            "/Applications/IntelliJ IDEA.app/Contents/MacOS/idea",
            "/Users/u/Applications/IntelliJ IDEA.app/Contents/MacOS/idea",
            "/Applications/IntelliJ IDEA CE.app/Contents/MacOS/idea",
            "/Users/u/Applications/IntelliJ IDEA CE.app/Contents/MacOS/idea",
        ])
    );
    assert_eq!(
        IDEA.cli_paths(Platform::Windows, None, Some("C:/L"), Some("C:/P")),
        strings(&[
            "C:/L/JetBrains/Toolbox/apps/idea/bin/idea.cmd",
            "C:/P/JetBrains/IntelliJ IDEA/bin/idea.bat",
            "C:/P/JetBrains/IntelliJ IDEA CE/bin/idea.bat",
        ])
    );
    assert!(IDEA.cli_paths(Platform::Other, Some("/home/u"), None, None).is_empty());
}

#[test]
fn vscode_paths_per_platform() {
    assert_eq!(CODE.extensions_dir(Some("/home/u")), Some("/home/u/.vscode/extensions".to_string()));
    assert_eq!(CODE.extensions_dir(None), None);
    assert_eq!(CODE.config_dir("/home/u"), "/home/u/.vscode");
    assert_eq!(
        CODE.fallback_paths(Platform::Linux, Some("/home/u"), None, None, None),
        strings(&["/usr/bin/code", "/usr/local/bin/code", "/snap/bin/code", "/home/u/.local/bin/code"])
    );
    assert_eq!(
        CODE.fallback_paths(Platform::MacOs, None, None, None, None),
        strings(&["/Applications/Visual Studio Code.app/Contents/Resources/app/bin/code"])
    );
    assert_eq!(
        CODE.fallback_paths(Platform::Windows, None, Some("C:\\L"), Some("C:\\P"), Some("C:\\X")),
        strings(&[
            "C:\\L\\Programs\\Microsoft VS Code\\bin\\code.cmd",
            "C:\\P\\Microsoft VS Code\\bin\\code.cmd",
            "C:\\X\\Microsoft VS Code\\bin\\code.cmd",
        ])
    );
}

#[test]
fn zed_detection_and_paths() {
    let q = Zed::url_handler_query(Platform::Linux).unwrap();
    assert_eq!(q.program, "xdg-mime");
    assert_eq!(q.args, strings(&["query", "default", "x-scheme-handler/zed"]));
    assert!(Zed::url_handler_query(Platform::Other).is_none());
    assert_eq!(
        Zed::binary_paths(Platform::Linux, Some("/home/u")),
        strings(&["/usr/bin/zed", "/usr/bin/zeditor", "/usr/local/bin/zed", "/home/u/.local/bin/zed"])
    );
    let named = ProbeOutcome::Finished { success: true, stdout: "dev.zed.Zed.desktop\n".to_string() };
    let silent = ProbeOutcome::Finished { success: true, stdout: String::new() };
    assert!(Zed::has_url_handler(Platform::Linux, &named, &vec![false]));
    assert!(!Zed::has_url_handler(Platform::Linux, &silent, &vec![false, false]));
    assert!(Zed::has_url_handler(Platform::Linux, &silent, &vec![false, true]));
    assert!(Zed::has_url_handler(Platform::MacOs, &silent, &Vec::new()));
    assert!(!Zed::has_url_handler(Platform::Other, &named, &vec![true]));
    assert_eq!(Zed.name(), "Zed");
}

#[test]
fn zed_settings_location() {
    assert_eq!(
        Zed::config_dir(Platform::Linux, Some("/flatpak"), Some("/home/u"), Some("/home/u/.config")),
        Some("/flatpak/zed".to_string())
    );
    assert_eq!(
        Zed::config_dir(Platform::Linux, None, Some("/home/u"), Some("/home/u/.config")),
        Some("/home/u/.config/zed".to_string())
    );
    assert_eq!(Zed::config_dir(Platform::MacOs, None, Some("/Users/u"), None), Some("/Users/u/.config/zed".to_string()));
    assert_eq!(Zed::config_dir(Platform::Windows, None, None, Some("C:/R")), Some("C:/R/Zed".to_string()));
    assert_eq!(Zed::settings_path(Some("/c/zed".to_string())).unwrap(), "/c/zed/settings.json");
    match Zed::settings_path(None) {
        Err(InstallError::NoConfigDir { editor }) => assert_eq!(editor, "Zed"),
        other => panic!("unexpected {:?}", other),
    }
    let out = Zed.install("settings.json", Some("{}")).unwrap();
    assert_eq!(squeeze(&out), "{\"auto_install_extensions\":{\"wakatime\":true}}");
}

#[test]
fn text_helpers() {
    assert!(is_blank(""));
    assert!(is_blank(" \t\n\u{a0}"));
    assert!(!is_blank(" x "));
    assert!(starts_with("IdeaIC2024", "IdeaIC"));
    assert!(!starts_with("Idea", "IdeaIC"));
    assert!(contains("abc.exe", "c.exe"));
    assert!(!contains("abc", "abcd"));
    assert!(contains("abc", ""));
}

#[test]
fn jetbrains_search_lookup() {
    let q = IDEA.search_query(Platform::Linux);
    assert_eq!(q.program, "which");
    assert_eq!(q.args, strings(&["idea"]));
    let q = IDEA.search_query(Platform::Windows);
    assert_eq!(q.program, "idea");
    assert_eq!(q.args, strings(&["--version"]));
    let found = ProbeOutcome::Finished { success: true, stdout: "  /usr/bin/idea\n".to_string() };
    assert_eq!(IDEA.search_hit(Platform::Linux, &found), Some("/usr/bin/idea".to_string()));
    let empty = ProbeOutcome::Finished { success: true, stdout: " \n".to_string() };
    assert_eq!(IDEA.search_hit(Platform::Linux, &empty), None);
    let failed = ProbeOutcome::Finished { success: false, stdout: "/usr/bin/idea".to_string() };
    assert_eq!(IDEA.search_hit(Platform::MacOs, &failed), None);
    assert_eq!(IDEA.search_hit(Platform::Windows, &empty), Some("idea".to_string()));
    assert_eq!(IDEA.search_hit(Platform::Windows, &ProbeOutcome::Failed), None);
}

#[test]
fn trimming() {
    assert_eq!(trim("  a b \t\n"), "a b");
    assert_eq!(trim(" \u{2003} "), "");
    assert_eq!(trim("x"), "x");
}
