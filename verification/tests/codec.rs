//! The persisted records: serialization round trips, tolerance of malformed
//! stored text, and the small value-level helpers.

use cargo_rapp::cli_parser::RappCmd;
use cargo_rapp::config::Config;
use cargo_rapp::error::RappError;
use cargo_rapp::init::Init;
use cargo_rapp::show;
use cargo_rapp::viewer::Viewer;
use cargo_rapp::RappTool;
use cargo_rapp::ToolPlan;

fn text(s: &str) -> Vec<char> {
    s.chars().collect()
}

fn string_of(t: &[char]) -> String {
    t.iter().collect()
}

fn sample_config() -> Config {
    Config {
        name: text("foo"),
        target_dir: text("/ws/target/debug/build/rapp_runner"),
        scratch_dir: text("/ws/target/debug/build/rapp_runner"),
        app_dir: text("/ws"),
        use_relative_paths: false,
        rebuild: false,
    }
}

#[test]
fn config_round_trip() {
    let config = sample_config();
    let encoded = config.encode();
    let decoded = Config::decode(&encoded).unwrap();
    assert_eq!(decoded, sample_config());
}

#[test]
fn config_round_trip_with_awkward_characters() {
    let config = Config {
        name: text("we\"ird\\name"),
        target_dir: text("/pa th/with \"quotes\""),
        scratch_dir: text("back\\slash"),
        app_dir: text(""),
        use_relative_paths: true,
        rebuild: true,
    };
    let encoded = config.encode();
    let decoded = Config::decode(&encoded).unwrap();
    assert_eq!(string_of(&decoded.name), "we\"ird\\name");
    assert_eq!(string_of(&decoded.target_dir), "/pa th/with \"quotes\"");
    assert_eq!(string_of(&decoded.scratch_dir), "back\\slash");
    assert_eq!(string_of(&decoded.app_dir), "");
    assert!(decoded.use_relative_paths);
    assert!(decoded.rebuild);
}

#[test]
fn config_encoding_is_the_record_syntax() {
    let encoded = sample_config().encode();
    assert_eq!(
        string_of(&encoded),
        "(name:\"foo\",target_dir:\"/ws/target/debug/build/rapp_runner\",\
         scratch_dir:\"/ws/target/debug/build/rapp_runner\",app_dir:\"/ws\",\
         use_relative_paths:false,rebuild:false)"
    );
}

#[test]
fn malformed_config_text_is_a_cache_miss() {
    assert!(Config::decode(&text("")).is_none());
    assert!(Config::decode(&text("(name:\"foo\"")).is_none());
    assert!(Config::decode(&text("garbage")).is_none());
    let mut with_tail = string_of(&sample_config().encode());
    with_tail.push_str("tail");
    assert!(Config::decode(&text(&with_tail)).is_none());
}

#[test]
fn viewer_round_trip_without_binary() {
    let viewer = Viewer {
        bin: None,
        cache_dir: text("/cache"),
        target_dir: text("/target"),
        use_relative_paths: false,
    };
    let encoded = viewer.encode();
    assert_eq!(
        string_of(&encoded),
        "(bin:None,cache_dir:\"/cache\",target_dir:\"/target\",use_relative_paths:false)"
    );
    let decoded = Viewer::decode(&encoded).unwrap();
    assert_eq!(decoded, Viewer {
        bin: None,
        cache_dir: text("/cache"),
        target_dir: text("/target"),
        use_relative_paths: false,
    });
}

#[test]
fn viewer_round_trip_with_binary() {
    let viewer = Viewer {
        bin: Some(text("/target/target/debug/rapp_runner")),
        cache_dir: text("/cache"),
        target_dir: text("/target"),
        use_relative_paths: true,
    };
    let encoded = viewer.encode();
    let decoded = Viewer::decode(&encoded).unwrap();
    assert_eq!(
        decoded.bin.as_deref().map(string_of),
        Some("/target/target/debug/rapp_runner".to_string())
    );
    assert!(decoded.use_relative_paths);
}

#[test]
fn malformed_viewer_text_is_a_cache_miss() {
    assert!(Viewer::decode(&text("")).is_none());
    assert!(Viewer::decode(&text("(bin:Maybe,cache_dir:\"x\")")).is_none());
}

#[test]
fn show_config_round_trip() {
    let config = show::Config { name: text("foo"), target_dir: text("/ws/target") };
    let encoded = config.encode();
    assert_eq!(string_of(&encoded), "(name:\"foo\",target_dir:\"/ws/target\")");
    let decoded = show::Config::decode(&encoded).unwrap();
    assert_eq!(decoded, show::Config { name: text("foo"), target_dir: text("/ws/target") });
}

#[test]
fn record_file_paths() {
    assert_eq!(string_of(&Config::config_file_path(&text("/cache"))), "/cache/config");
    assert_eq!(string_of(&Viewer::viewer_file_path(&text("/cache"))), "/cache/viewer");
    assert_eq!(string_of(&show::Config::full_path(&text("/tmp_dir"))), "/tmp_dir/config");
}

#[test]
fn error_messages() {
    let e = RappError::NoRappCrateFound(text("/cache"));
    assert_eq!(
        string_of(&e.message()),
        "Could not find a lib crate with dependency on rapp in dir /cache"
    );
    let e = RappError::MultipleRappCratesFound(vec![text("bar"), text("foo")]);
    assert_eq!(
        string_of(&e.message()),
        "Multiple candidates found: bar, foo. Please specify which one to use"
    );
    let e = RappError::Other(text("boom"));
    assert_eq!(string_of(&e.message()), "boom");
}

#[test]
fn init_message_defaults_to_the_current_directory() {
    let init = Init { path: None };
    assert_eq!(string_of(&init.message()), "Git checkout init project and name it '.'");
    let init = Init { path: Some("hello_app".to_string()) };
    assert_eq!(
        string_of(&init.message()),
        "Git checkout init project and name it 'hello_app'"
    );
}

#[test]
fn the_tool_dispatches_to_the_subcommands() {
    let plan = RappTool.plan(RappCmd::Init { path: Some("p".to_string()) });
    match plan {
        ToolPlan::RunInit { init } => assert_eq!(init.path, Some("p".to_string())),
        _ => panic!("expected the init plan"),
    }
    let plan = RappTool.plan(RappCmd::Show { rebuild: Some(true), use_relative_paths: None });
    match plan {
        ToolPlan::RunShow { show } => {
            assert_eq!(show.rebuild, Some(true));
            assert_eq!(show.use_relative_paths, None);
        }
        _ => panic!("expected the show plan"),
    }
}
