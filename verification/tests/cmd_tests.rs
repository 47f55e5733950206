use langc::cmd::env::{CompilerEnv, resolve_root_path, resolve_std_lib_path, resolve_third_party_lib_path};
use langc::cmd::init::{create_deps_json, create_main_file};
use langc::cmd::resolve_std_path;
use langc::debug::debug_flag;

fn sample_env() -> CompilerEnv {
    CompilerEnv::new("/opt/lang".to_string(), "/opt/lang/std".to_string(), "/opt/lang/vendor".to_string())
}

#[test]
fn environment_lookup() {
    let env = sample_env();
    assert_eq!(env.get("ROOT"), Some(&"/opt/lang".to_string()));
    assert_eq!(env.get("STD_LIB_PATH"), Some(&"/opt/lang/std".to_string()));
    assert_eq!(env.get("THIRD_PARTY_LIB_PATH"), Some(&"/opt/lang/vendor".to_string()));
    assert_eq!(env.get("HOME"), None);
    assert_eq!(env.keys(), vec!["ROOT", "STD_LIB_PATH", "THIRD_PARTY_LIB_PATH"]);
}

#[test]
fn environment_lines() {
    let env = sample_env();
    assert_eq!(
        env.lines(),
        vec!["ROOT=/opt/lang", "STD_LIB_PATH=/opt/lang/std", "THIRD_PARTY_LIB_PATH=/opt/lang/vendor"]
    );
    assert_eq!(env.key_line("ROOT"), Some("ROOT=/opt/lang".to_string()));
    assert_eq!(env.key_line("root"), None);
}

#[test]
fn path_resolution_prefers_the_environment() {
    assert_eq!(resolve_std_lib_path(Some("/x/std".to_string()), true), "/x/std");
    assert_eq!(resolve_std_lib_path(None, true), "./std");
    assert_eq!(resolve_std_lib_path(None, false), "/usr/local/lib/lang/std");
    assert_eq!(resolve_third_party_lib_path(None, true), "./vendor");
    assert_eq!(resolve_third_party_lib_path(None, false), "/usr/local/lib/lang/vendor");
    assert_eq!(resolve_third_party_lib_path(Some("v".to_string()), false), "v");
    assert_eq!(resolve_root_path(None), "/usr/local/lib/lang");
    assert_eq!(resolve_root_path(Some("/r".to_string())), "/r");
}

#[test]
fn std_path_prefers_the_command_line() {
    let env = sample_env();
    assert_eq!(resolve_std_path(Some("/cli/std".to_string()), &env), "/cli/std");
    assert_eq!(resolve_std_path(None, &env), "/opt/lang/std");
}

#[test]
fn new_project_files() {
    assert_eq!(
        create_deps_json("demo"),
        "{\n  \"name\": \"demo\",\n  \"version\": \"0.1.0\",\n  \"description\": \"A Lang project\",\n  \"dependencies\": {\n    \"io\": \"*\",\n    \"builtin\": \"*\"\n  },\n  \"devDependencies\": {},\n  \"type\": \"lang-package\"\n}\n"
    );
    assert_eq!(
        create_main_file(),
        "// Main entry point for the project\n\nfn main() {\n    io.println(\"Hello, World!\");\n}\n"
    );
}

#[test]
fn debug_output_switch() {
    assert!(debug_flag(Some("1")));
    assert!(!debug_flag(Some("true")));
    assert!(!debug_flag(None));
}
