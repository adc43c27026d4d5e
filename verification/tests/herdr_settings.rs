use alacritree::herdr::model::{Indicators, Settings};
use alacritree::herdr::settings::{
    config_command, config_in, detach_chord_from, detach_chord_in, indicators_from, indicators_in,
    native_config_path, render_combo, render_key, settings, settings_from, ConfigEnv, ConfigRead,
    CONFIG_SCRIPT,
};
use alacritree::json::Json;
use alacritree::side::{Platform, Side};

#[test]
fn settings_an_untouched_config_yields_herdrs_documented_chord() {
    assert_eq!(detach_chord_from(""), Some("Ctrl+B q".to_string()));
    assert_eq!(
        detach_chord_from(
            "onboarding = false
"
        ),
        Some("Ctrl+B q".to_string())
    );
}

#[test]
fn settings_a_rebound_prefix_moves_the_first_half() {
    let cfg = "[keys]
prefix = \"f12\"
";
    assert_eq!(detach_chord_from(cfg), Some("F12 q".to_string()));
}

#[test]
fn settings_a_rebound_detach_moves_the_second_half() {
    let cfg = "[keys]
detach = \"prefix+shift+d\"
";
    assert_eq!(detach_chord_from(cfg), Some("Ctrl+B Shift+D".to_string()));
}

#[test]
fn settings_a_direct_detach_binding_drops_the_prefix() {
    let cfg = "[keys]
detach = \"ctrl+alt+q\"
";
    assert_eq!(detach_chord_from(cfg), Some("Ctrl+Alt+Q".to_string()));
}

#[test]
fn settings_a_list_of_bindings_renders_the_first() {
    let cfg = "[keys]
detach = [\"prefix+q\", \"prefix+d\"]
";
    assert_eq!(detach_chord_from(cfg), Some("Ctrl+B q".to_string()));
}

#[test]
fn settings_an_unbound_detach_has_no_chord() {
    assert_eq!(
        detach_chord_from(
            "[keys]
detach = \"\"
"
        ),
        None
    );
    assert_eq!(
        detach_chord_from(
            "[keys]
detach = []
"
        ),
        None
    );
}

#[test]
fn settings_an_unparseable_config_falls_back_to_the_defaults() {
    assert_eq!(detach_chord_from("[keys"), Some("Ctrl+B q".to_string()));
}

#[test]
fn settings_the_indicator_set_follows_herdrs_own_choice() {
    assert_eq!(indicators_from(""), Indicators::Dots);
    assert_eq!(
        indicators_from(
            "[ui]
status_indicators = \"symbols\"
"
        ),
        Indicators::Symbols
    );
    assert_eq!(
        indicators_from(
            "[ui]
status_indicators = \"dots\"
"
        ),
        Indicators::Dots
    );
}

#[test]
fn settings_an_unknown_indicator_set_keeps_the_shipped_one() {
    let cfg = "[ui]
status_indicators = \"runes\"
";
    assert_eq!(indicators_from(cfg), Indicators::Dots);
}

#[test]
fn settings_settings_carry_both_halves_of_the_config() {
    let cfg = "[keys]
prefix = \"f12\"
[ui]
status_indicators = \"symbols\"
";
    assert_eq!(settings_from(cfg), Settings {
        detach: Some("F12 q".into()),
        indicators: Indicators::Symbols
    });
}

/// herdr ships `ctrl+b` / `prefix+q`, so an untouched config is not an
/// unknown chord — it is the documented one.
#[test]
fn herdr_an_untouched_config_yields_herdrs_documented_chord() {
    assert_eq!(detach_chord_from(""), Some("Ctrl+B q".to_string()));
    assert_eq!(
        detach_chord_from(
            "onboarding = false
"
        ),
        Some("Ctrl+B q".to_string())
    );
}

#[test]
fn herdr_a_rebound_prefix_moves_the_first_half() {
    let cfg = "[keys]
prefix = \"f12\"
";
    assert_eq!(detach_chord_from(cfg), Some("F12 q".to_string()));
}

#[test]
fn herdr_a_rebound_detach_moves_the_second_half() {
    let cfg = "[keys]
detach = \"prefix+shift+d\"
";
    assert_eq!(detach_chord_from(cfg), Some("Ctrl+B Shift+D".to_string()));
}

/// A detach bound off the prefix is one chord, not two, so it renders
/// without the leading prefix it never goes through.
#[test]
fn herdr_a_direct_detach_binding_drops_the_prefix() {
    let cfg = "[keys]
detach = \"ctrl+alt+q\"
";
    assert_eq!(detach_chord_from(cfg), Some("Ctrl+Alt+Q".to_string()));
}

/// herdr accepts a list of bindings for one action.  The row has space
/// for one, and the first is the one its own help surface leads with.
#[test]
fn herdr_a_list_of_bindings_renders_the_first() {
    let cfg = "[keys]
detach = [\"prefix+q\", \"prefix+d\"]
";
    assert_eq!(detach_chord_from(cfg), Some("Ctrl+B q".to_string()));
}

/// An empty binding is herdr's spelling for "unbound", and a chord that
/// does not exist must not be advertised.
#[test]
fn herdr_an_unbound_detach_has_no_chord() {
    assert_eq!(
        detach_chord_from(
            "[keys]
detach = \"\"
"
        ),
        None
    );
    assert_eq!(
        detach_chord_from(
            "[keys]
detach = []
"
        ),
        None
    );
}

/// A config herdr itself would reject falls back to the defaults it
/// would then run with, rather than leaving the row silent.
#[test]
fn herdr_an_unparseable_config_falls_back_to_the_defaults() {
    assert_eq!(detach_chord_from("[keys"), Some("Ctrl+B q".to_string()));
}

/// herdr offers two indicator sets and ships the dotted one, so a config
/// that says nothing has still chosen it.
#[test]
fn herdr_the_indicator_set_follows_herdrs_own_choice() {
    assert_eq!(indicators_from(""), Indicators::Dots);
    assert_eq!(
        indicators_from(
            "[ui]
status_indicators = \"symbols\"
"
        ),
        Indicators::Symbols
    );
    assert_eq!(
        indicators_from(
            "[ui]
status_indicators = \"dots\"
"
        ),
        Indicators::Dots
    );
}

/// A set herdr adds later is not a reason to paint nothing: the rows keep
/// the shipped vocabulary until alacritree learns the new one.
#[test]
fn herdr_an_unknown_indicator_set_keeps_the_shipped_one() {
    let cfg = "[ui]
status_indicators = \"runes\"
";
    assert_eq!(indicators_from(cfg), Indicators::Dots);
}

#[test]
fn herdr_settings_carry_both_halves_of_the_config() {
    let cfg = "[keys]
prefix = \"f12\"
[ui]
status_indicators = \"symbols\"
";
    assert_eq!(settings_from(cfg), Settings {
        detach: Some("F12 q".into()),
        indicators: Indicators::Symbols
    });
}

fn env() -> ConfigEnv {
    ConfigEnv {
        herdr_config_path: None,
        xdg_config_home: None,
        appdata: None,
        home: None,
        userprofile: None,
    }
}

fn place(env: &ConfigEnv, platform: Platform) -> Option<(String, Vec<&'static str>)> {
    native_config_path(env, platform)
}

#[test]
fn the_environment_says_where_the_config_is() {
    let below = vec!["herdr", "config.toml"];
    let under_home = vec![".config", "herdr", "config.toml"];
    assert_eq!(place(&env(), Platform::Unix), None);
    let mut given = ConfigEnv { userprofile: Some("/u".into()), ..env() };
    assert_eq!(place(&given, Platform::Unix), Some(("/u".into(), under_home.clone())));
    given.home = Some("/h".into());
    assert_eq!(place(&given, Platform::Unix), Some(("/h".into(), under_home.clone())));
    given.appdata = Some("/a".into());
    assert_eq!(place(&given, Platform::Unix), Some(("/h".into(), under_home)));
    assert_eq!(place(&given, Platform::Windows), Some(("/a".into(), below.clone())));
    given.xdg_config_home = Some("/x".into());
    assert_eq!(place(&given, Platform::Windows), Some(("/x".into(), below)));
    given.herdr_config_path = Some("/p".into());
    assert_eq!(place(&given, Platform::Windows), Some(("/p".into(), vec![])));
}

#[test]
fn a_missing_config_reads_as_the_defaults() {
    let shipped = Settings { detach: Some("Ctrl+B q".into()), indicators: Indicators::Dots };
    assert_eq!(settings(&ConfigRead::Missing), Some(shipped));
    assert_eq!(settings(&ConfigRead::Unreadable), None);
    let read = settings(&ConfigRead::Text("[ui]\nstatus_indicators = \"symbols\"\n".into()));
    assert_eq!(read.map(|s| s.indicators), Some(Indicators::Symbols));
}

#[test]
fn a_distro_prints_its_own_config() {
    assert_eq!(config_command(&Side::Native), None);
    let (program, args) = config_command(&Side::Wsl("d".into())).expect("a command");
    assert_eq!(program, "wsl.exe");
    assert_eq!(args, vec!["-d", "d", "--exec", "sh", "-lc", CONFIG_SCRIPT]);
}

#[test]
fn a_key_is_rendered_the_way_it_is_read() {
    assert_eq!(render_key("ctrl"), "Ctrl");
    assert_eq!(render_key("f12"), "F12");
    assert_eq!(render_combo("ctrl+alt+q"), "Ctrl+Alt+Q");
}

#[test]
fn a_config_of_the_wrong_shape_is_herdrs_default() {
    let config = config_in(&Json::parse(r#"{"keys": 7}"#));
    assert_eq!(detach_chord_in(&config), Some("Ctrl+B q".to_string()));
    assert_eq!(indicators_in(&config), Indicators::Dots);
}

/// A table may be given as the values of its keys in order.
#[test]
fn a_table_spelled_in_order_is_read() {
    assert_eq!(detach_chord_from(r#"keys = ["f12", "prefix+d"]"#), Some("F12 d".to_string()));
    assert_eq!(detach_chord_from(r#"keys = ["f12", ["prefix+d"], 1]"#), Some("F12 d".to_string()));
    assert_eq!(detach_chord_from(r#"keys = ["f12"]"#), Some("Ctrl+B q".to_string()));
    assert_eq!(indicators_from(r#"ui = ["symbols"]"#), Indicators::Symbols);
    assert_eq!(indicators_from("ui = []"), Indicators::Dots);
    // A date is a table of its own kind to a reader, with none of these keys.
    let dated = "keys = 1979-05-27\n[ui]\nstatus_indicators = \"symbols\"\n";
    assert_eq!(indicators_from(dated), Indicators::Symbols);
}
