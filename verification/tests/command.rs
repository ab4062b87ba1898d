use brightness_notifier::adjust::WriteMode;
use brightness_notifier::command::{
    adjust_brightness, brightness_command, notification_command, query_command, set_brightness,
    summary, Command,
};
use brightness_notifier::request::{Args, Request};

fn request(args: Args) -> Request {
    Request::from_args(&args).unwrap()
}

fn command(program: &str, args: &[&str]) -> Command {
    Command { program: program.to_string(), args: args.iter().map(|a| a.to_string()).collect() }
}

#[test]
fn mode_flags() {
    assert_eq!(WriteMode::SetTo.flag(), "-set");
    assert_eq!(WriteMode::Increase.flag(), "-inc");
    assert_eq!(WriteMode::Decrease.flag(), "-dec");
}

#[test]
fn query_command_line() {
    assert_eq!(query_command(), command("xbacklight", &["-get"]));
}

#[test]
fn brightness_command_line() {
    let r = request(Args::default());
    assert_eq!(
        brightness_command(WriteMode::Increase, 5, &r),
        command("xbacklight", &["-inc", "5", "-time", "100", "-steps", "25"])
    );
    assert_eq!(
        brightness_command(WriteMode::Decrease, 0, &r),
        command("xbacklight", &["-dec", "0", "-time", "100", "-steps", "25"])
    );
    let r = request(Args { fade_time: 60_000, steps: 200, ..Args::default() });
    assert_eq!(
        brightness_command(WriteMode::SetTo, 255, &r),
        command("xbacklight", &["-set", "255", "-time", "60000", "-steps", "200"])
    );
}

#[test]
fn set_brightness_command_line() {
    let r = request(Args { set: Some(50), fade_time: 0, steps: 1, ..Args::default() });
    assert_eq!(
        set_brightness(50, &r),
        command("xbacklight", &["-set", "50", "-time", "0", "-steps", "1"])
    );
}

#[test]
fn adjust_brightness_command_lines() {
    let dec = request(Args { decrease: Some(10), ..Args::default() });
    assert_eq!(
        adjust_brightness(&dec, Some(5)),
        Some(command("xbacklight", &["-set", "1", "-time", "100", "-steps", "25"]))
    );
    assert_eq!(
        adjust_brightness(&dec, Some(60)),
        Some(command("xbacklight", &["-set", "50", "-time", "100", "-steps", "25"]))
    );
    assert_eq!(
        adjust_brightness(&dec, None),
        Some(command("xbacklight", &["-set", "10", "-time", "100", "-steps", "25"]))
    );
    let inc = request(Args { increase: Some(7), ..Args::default() });
    assert_eq!(
        adjust_brightness(&inc, Some(1)),
        Some(command("xbacklight", &["-set", "7", "-time", "100", "-steps", "25"]))
    );
    assert_eq!(
        adjust_brightness(&inc, Some(2)),
        Some(command("xbacklight", &["-inc", "7", "-time", "100", "-steps", "25"]))
    );
    assert_eq!(
        adjust_brightness(&inc, None),
        Some(command("xbacklight", &["-inc", "7", "-time", "100", "-steps", "25"]))
    );
}

#[test]
fn adjust_brightness_without_a_relative_change() {
    let get = request(Args { get: true, ..Args::default() });
    assert_eq!(adjust_brightness(&get, Some(50)), None);
    let set = request(Args { set: Some(50), ..Args::default() });
    assert_eq!(adjust_brightness(&set, Some(50)), None);
}

#[test]
fn summary_line() {
    assert_eq!(summary(48), "Brightness: 48%");
    assert_eq!(summary(0), "Brightness: 0%");
    assert_eq!(summary(100), "Brightness: 100%");
}

#[test]
fn notification_command_line() {
    assert_eq!(
        notification_command(48, 2000),
        command(
            "notify-send",
            &[
                "--app-name",
                "lxqt-brightness",
                "--icon",
                "display-brightness-medium-symbolic",
                "--replace-id",
                "1",
                "--expire-time",
                "2000",
                "Brightness: 48%",
            ]
        )
    );
    assert_eq!(
        notification_command(100, 0),
        command(
            "notify-send",
            &[
                "--app-name",
                "lxqt-brightness",
                "--icon",
                "display-brightness-high-symbolic",
                "--replace-id",
                "1",
                "--expire-time",
                "0",
                "Brightness: 100%",
            ]
        )
    );
    assert_eq!(notification_command(1, 120_000).args[3], "display-brightness-low-symbolic");
    assert_eq!(notification_command(1, 120_000).args[7], "120000");
}
