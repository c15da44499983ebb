use mun::options::{
    compiler_options, display_color_from, optimization_from_flag, DisplayColor, OptimizationLevel,
    TargetChoice,
};

fn s(text: &str) -> String {
    text.to_string()
}

#[test]
fn opt_level_flags_map_to_ordered_levels() {
    assert_eq!(optimization_from_flag(Some(&s("0"))).unwrap(), OptimizationLevel::NoOpt);
    assert_eq!(optimization_from_flag(Some(&s("1"))).unwrap(), OptimizationLevel::Less);
    assert_eq!(optimization_from_flag(Some(&s("2"))).unwrap(), OptimizationLevel::Default);
    assert_eq!(optimization_from_flag(Some(&s("3"))).unwrap(), OptimizationLevel::Aggressive);
}

#[test]
fn opt_level_absent_defaults() {
    assert_eq!(optimization_from_flag(None).unwrap(), OptimizationLevel::Default);
}

#[test]
fn opt_level_out_of_range_is_usage_error() {
    let e = optimization_from_flag(Some(&s("4"))).unwrap_err();
    assert_eq!(e.message(), "Only optimization levels 0-3 are supported");
    assert!(optimization_from_flag(Some(&s("abc"))).is_err());
    assert!(optimization_from_flag(Some(&s(""))).is_err());
}

#[test]
fn color_flag_wins_over_environment() {
    let r = display_color_from(Some(&s("enable")), Some(&s("disable")));
    assert_eq!(r, DisplayColor::Enable);
}

#[test]
fn color_environment_alone_decides() {
    assert_eq!(display_color_from(None, Some(&s("disable"))), DisplayColor::Disable);
    assert_eq!(display_color_from(None, Some(&s("enable"))), DisplayColor::Enable);
}

#[test]
fn color_neither_set_is_auto() {
    assert_eq!(display_color_from(None, None), DisplayColor::Auto);
}

#[test]
fn color_unrecognized_environment_falls_back_to_auto() {
    assert_eq!(display_color_from(None, Some(&s("purple"))), DisplayColor::Auto);
    assert_eq!(display_color_from(Some(&s("auto")), None), DisplayColor::Auto);
}

#[test]
fn compiler_options_builds_config() {
    let c = compiler_options(Some(&s("3")), None, Some(&s("disable")), Some(&s("wasm32-unknown-unknown")))
        .unwrap();
    assert_eq!(c.optimization_lvl, OptimizationLevel::Aggressive);
    assert_eq!(c.display_color, DisplayColor::Disable);
    assert!(c.out_dir.is_none());
    match c.target {
        TargetChoice::Explicit(t) => assert_eq!(t, "wasm32-unknown-unknown"),
        TargetChoice::HostDefault => panic!("expected an explicit target"),
    }
}

#[test]
fn compiler_options_defaults() {
    let c = compiler_options(None, None, None, None).unwrap();
    assert_eq!(c.optimization_lvl, OptimizationLevel::Default);
    assert_eq!(c.display_color, DisplayColor::Auto);
    assert!(c.out_dir.is_none());
    assert!(matches!(c.target, TargetChoice::HostDefault));
}

#[test]
fn compiler_options_rejects_bad_opt_level() {
    let e = compiler_options(Some(&s("9")), Some(&s("enable")), None, None).unwrap_err();
    assert_eq!(e.message(), "Only optimization levels 0-3 are supported");
}
