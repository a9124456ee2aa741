use celix_bundle::bundle::{
    base_bundle_copies, bundle_destination, bundle_plan, config_file_path, config_properties,
    config_text, deployed_bundle_path, deployed_bundles_dir, get_lib_name, lib_name, manifest,
    manifest_text, plan_for_package, try_get_lib_name, try_manifest,
};
use celix_bundle::cargo_toml::{toml_lookup, try_toml_lookup, LookupError};
use celix_bundle::celix::{celix_thread_default, ENOMEM};
use celix_bundle::locate::{cargo_toml_path, celix_dir, temp_dir};
use celix_bundle::text::{
    remove_path_noise, second_field_of, trim_end_white_space, underscore_name, white_space,
};

const CARGO_TOML: &str = "[package]\nname = \"my-cool-bundle\"\nversion = \"0.3.1\"\nauthors = [\"someone\"]\n\n[dependencies]\ncelix = \"*\"\n";

#[test]
fn underscore_name_replaces_every_dash() {
    assert_eq!(underscore_name("my-cool-bundle"), "my_cool_bundle");
    assert_eq!(underscore_name("plain"), "plain");
    assert_eq!(underscore_name(""), "");
    assert_eq!(underscore_name("--a-"), "__a_");
    assert_eq!(underscore_name("ünï-çødé"), "ünï_çødé");
}

#[test]
fn underscore_name_is_idempotent() {
    let once = underscore_name("a-b-c");
    assert_eq!(underscore_name(&once), once);
}

#[test]
fn lib_name_examples() {
    assert_eq!(lib_name("lib", ".so", "packagename"), "libpackagename.so");
    assert_eq!(lib_name("lib", ".so", "my-bundle"), "libmy_bundle.so");
    assert_eq!(lib_name("target/release/lib", ".so", "my-bundle"), "target/release/libmy_bundle.so");
    assert_eq!(lib_name("", ".zip", "my-bundle"), "my_bundle.zip");
}

#[test]
fn get_lib_name_reads_the_package_name() {
    assert_eq!(get_lib_name("lib", ".so", CARGO_TOML), "libmy_cool_bundle.so");
    assert_eq!(try_get_lib_name("lib", ".so", CARGO_TOML), Ok("libmy_cool_bundle.so".to_string()));
    assert_eq!(try_get_lib_name("lib", ".so", "[package]\nversion = \"1\"\n"), Err(LookupError::Missing));
}

#[test]
fn toml_lookup_finds_strings() {
    assert_eq!(toml_lookup(CARGO_TOML, "package.name"), "my-cool-bundle");
    assert_eq!(toml_lookup(CARGO_TOML, "package.version"), "0.3.1");
    assert_eq!(try_toml_lookup(CARGO_TOML, "dependencies.celix"), Ok("*".to_string()));
    assert_eq!(try_toml_lookup(CARGO_TOML, "package.authors.0"), Ok("someone".to_string()));
}

#[test]
fn toml_lookup_errors() {
    assert_eq!(try_toml_lookup("[package\nname = 1", "package.name"), Err(LookupError::Unparsable));
    assert_eq!(try_toml_lookup(CARGO_TOML, "package.license"), Err(LookupError::Missing));
    assert_eq!(try_toml_lookup(CARGO_TOML, "package.authors"), Err(LookupError::NotAString));
    assert_eq!(try_toml_lookup("[package]\nname = 3\n", "package.name"), Err(LookupError::NotAString));
}

#[test]
fn manifest_text_is_exact() {
    let m = manifest_text("my-bundle", "1.2.3", "Instant { t: 1 }");
    assert_eq!(
        m,
        "Manifest-Version: 1.0\nBundle-SymbolicName: my_bundle\nBundle-Name: my_bundle\nBundle-Version: 1.2.3\nBundle-Activator: libmy_bundle.so\nPrivate-Library: libmy_bundle.so\nCREATION-TIME: Instant { t: 1 }\n"
    );
}

#[test]
fn manifest_reads_name_and_version() {
    assert_eq!(manifest(CARGO_TOML, "now"), manifest_text("my-cool-bundle", "0.3.1", "now"));
    assert_eq!(try_manifest(CARGO_TOML, "now"), Ok(manifest_text("my-cool-bundle", "0.3.1", "now")));
    assert_eq!(try_manifest("[package]\nname = \"x\"\n", "now"), Err(LookupError::Missing));
    assert_eq!(try_manifest("[package]\nversion = \"1\"\n", "now"), Err(LookupError::Missing));
    assert_eq!(try_manifest("[package]\nname = \"x\"\nversion = 1\n", "now"), Err(LookupError::NotAString));
    assert_eq!(try_manifest("name = ", "now"), Err(LookupError::Unparsable));
}

#[test]
fn config_starts_the_bundle_and_the_shell() {
    assert_eq!(
        config_text("my-bundle"),
        "cosgi.auto.start.1=bundles/my_bundle.zip bundles/shell_tui.zip bundles/shell.zip"
    );
    assert_eq!(config_properties(CARGO_TOML), Ok(config_text("my-cool-bundle")));
    assert_eq!(config_properties("x = 1"), Err(LookupError::Missing));
}

#[test]
fn deployed_bundle_is_the_started_one() {
    let deployed = deployed_bundle_path("my-bundle");
    assert_eq!(deployed, "deploy/bundles/my_bundle.zip");
    let config = config_text("my-bundle");
    let first = config
        .trim_start_matches("cosgi.auto.start.1=")
        .split(' ')
        .next()
        .unwrap()
        .to_string();
    assert_eq!(format!("deploy/{}", first), deployed);
    assert_eq!(bundle_destination(CARGO_TOML), Ok("deploy/bundles/my_cool_bundle.zip".to_string()));
}

#[test]
fn base_bundles_come_from_the_celix_installation() {
    let copies = base_bundle_copies("/usr/local/");
    assert_eq!(copies.len(), 2);
    assert_eq!(copies[0].from, "/usr/local//share/celix/bundles/shell.zip");
    assert_eq!(copies[0].to, "deploy/bundles/shell.zip");
    assert_eq!(copies[1].from, "/usr/local//share/celix/bundles/shell_tui.zip");
    assert_eq!(copies[1].to, "deploy/bundles/shell_tui.zip");
}

#[test]
fn celix_dir_defaults_to_usr_local() {
    assert_eq!(celix_dir(None), "/usr/local/");
    assert_eq!(celix_dir(Some("/opt/celix")), "/opt/celix");
}

#[test]
fn temp_dir_trims_the_mktemp_output() {
    assert_eq!(temp_dir("/tmp/rust-celix.AbC123\n"), "/tmp/rust-celix.AbC123/");
    assert_eq!(temp_dir("/tmp/x \t\r\n"), "/tmp/x/");
    assert_eq!(temp_dir("/tmp/x\u{3000}\u{a0}"), "/tmp/x/");
    assert_eq!(temp_dir(" /tmp/x"), " /tmp/x/");
    assert_eq!(temp_dir(""), "/");
}

#[test]
fn temp_dir_ignores_more_trailing_white_space() {
    assert_eq!(temp_dir("/tmp/abc\n \n"), temp_dir("/tmp/abc"));
}

#[test]
fn cargo_toml_path_from_locate_project() {
    let out = "{\"root\":\"/home/user/proj/Cargo.toml\"}\n";
    assert_eq!(cargo_toml_path(out), "/home/user/proj/Cargo.toml");
    assert_eq!(cargo_toml_path("{\"root\":\"/home/a:b/Cargo.toml\"}\n"), "/home/a:b/Cargo.toml");
    assert_eq!(cargo_toml_path("{\"root\":\"\"}\n"), "");
    assert_eq!(cargo_toml_path("{\"root\":\"/x\"}"), "/x");
    assert_eq!(cargo_toml_path("a:b:c"), "b");
    assert_eq!(cargo_toml_path("a:\"b}\n:c"), "b");
    assert_eq!(cargo_toml_path("a:"), "");
    assert_eq!(cargo_toml_path("{\"root\":\"/x\"} \n"), "/x ");
}

#[test]
fn text_helpers() {
    assert_eq!(second_field_of("x:y\"}:z", ':'), "y\"}");
    assert_eq!(second_field_of("x:", ':'), "");
    assert_eq!(remove_path_noise("a\"b}c\nd"), "abcd");
    assert_eq!(trim_end_white_space("ab  \n"), "ab");
    assert!(white_space('\u{2028}'));
    assert!(white_space('\t'));
    assert!(!white_space('a'));
    assert!(!white_space('\u{200b}'));
}

#[test]
fn bundle_plan_is_consistent() {
    let plan = bundle_plan(CARGO_TOML, "/tmp/rust-celix.Q\n", "when").unwrap();
    assert_eq!(plan.scratch_dir, "/tmp/rust-celix.Q/");
    assert_eq!(plan.library.from, "target/release/libmy_cool_bundle.so");
    assert_eq!(plan.library.to, "/tmp/rust-celix.Q/libmy_cool_bundle.so");
    assert_eq!(plan.meta_inf_dir, "/tmp/rust-celix.Q/META-INF");
    assert_eq!(plan.manifest_path, "/tmp/rust-celix.Q/META-INF/MANIFEST.MF");
    assert_eq!(plan.manifest, manifest_text("my-cool-bundle", "0.3.1", "when"));
    assert_eq!(
        plan.archive_args,
        vec!["cfm", "my_cool_bundle.zip", "META-INF/MANIFEST.MF", "libmy_cool_bundle.so"]
    );
    assert_eq!(plan.archive.from, "/tmp/rust-celix.Q/my_cool_bundle.zip");
    assert_eq!(plan.archive.to, "deploy/bundles/my_cool_bundle.zip");
    assert!(bundle_plan("[package]\nname = \"a\"\n", "/tmp/q", "when").is_err());
}

#[test]
fn plan_for_package_uses_the_scratch_dir() {
    let plan = plan_for_package("a-b", "2", "/s\n", "t");
    assert_eq!(plan.scratch_dir, "/s/");
    assert_eq!(plan.library.to, "/s/liba_b.so");
    assert_eq!(plan.archive.from, "/s/a_b.zip");
    assert_eq!(plan.archive.to, "deploy/bundles/a_b.zip");
    assert_eq!(plan.manifest_path, format!("{}/MANIFEST.MF", plan.meta_inf_dir));
}

#[test]
fn every_started_bundle_is_deployed_next_to_the_config() {
    let config_path = config_file_path();
    assert_eq!(config_path, "deploy/config.properties");
    let config_dir = config_path.trim_end_matches("config.properties").to_string();
    let started: Vec<String> = config_text("my-bundle")
        .trim_start_matches("cosgi.auto.start.1=")
        .split(' ')
        .map(|b| format!("{}{}", config_dir, b))
        .collect();
    let copies = base_bundle_copies("/c");
    assert_eq!(started.len(), 3);
    assert_eq!(started[0], deployed_bundle_path("my-bundle"));
    assert_eq!(started[1], copies[1].to);
    assert_eq!(started[2], copies[0].to);
    for s in &started {
        assert!(s.starts_with(&format!("{}/", deployed_bundles_dir())));
    }
}

#[test]
fn celix_constants() {
    assert_eq!(ENOMEM, 12);
    assert_eq!(celix_thread_default, (0, 0));
}
