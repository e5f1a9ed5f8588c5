use wallcycler::engine::{build_invocation, get_engine, preflight, Engine, Swww};
use wallcycler::utils::CyclerError;
use wallcycler::Application;

#[test]
fn swww_descriptor_is_exact() {
    let e = get_engine(Application::Swww);
    assert_eq!(e.which().as_str(), "swww");
    assert_eq!(e.prefix().as_str(), "swww");
    let args: Vec<&str> = e.args().iter().map(|a| a.as_str()).collect();
    assert_eq!(args, ["img"]);
}

#[test]
fn hyprpaper_descriptor_is_exact() {
    let e = get_engine(Application::Hyprpaper);
    assert_eq!(e.which().as_str(), "hyprpaper");
    assert_eq!(e.prefix().as_str(), "hyprctl");
    let args: Vec<&str> = e.args().iter().map(|a| a.as_str()).collect();
    assert_eq!(args, ["hyprpaper", "wallpaper"]);
}

#[test]
fn invocation_appends_the_path_as_trailing_token() {
    let e = get_engine(Application::Swww);
    let inv = build_invocation(&e, &"/backgrounds/my photo.jpg".to_string());
    assert_eq!(inv.program.as_str(), "swww");
    let args: Vec<&str> = inv.args.iter().map(|a| a.as_str()).collect();
    assert_eq!(args, ["img", "/backgrounds/my photo.jpg"]);
}

#[test]
fn invocation_for_hyprpaper_keeps_fixed_args_in_order() {
    let e = get_engine(Application::Hyprpaper);
    let inv = build_invocation(&e, &"a.webp".to_string());
    assert_eq!(inv.program.as_str(), "hyprctl");
    let args: Vec<&str> = inv.args.iter().map(|a| a.as_str()).collect();
    assert_eq!(args, ["hyprpaper", "wallpaper", "a.webp"]);
}

#[test]
fn preflight_fails_fast_for_a_missing_binary() {
    let e = Swww {
        which: "surely-no-such-wallpaper-binary".to_string(),
        prefix: "surely-no-such-wallpaper-binary".to_string(),
        args: vec!["img".to_string()],
    };
    let r = preflight(&e);
    assert!(
        matches!(r, Err(CyclerError::BinaryNotFound { ref which }) if which == "surely-no-such-wallpaper-binary")
    );
}

#[test]
fn preflight_accepts_a_binary_on_the_path() {
    let e = Swww {
        which: "sh".to_string(),
        prefix: "sh".to_string(),
        args: vec!["img".to_string()],
    };
    assert!(preflight(&e).is_ok());
}
