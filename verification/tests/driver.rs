use brightness_notifier::command::Command;
use brightness_notifier::driver::{
    report_line, write_failure_line, Action, Driver, Outcome, Phase, Reply,
    EXIT_FAILURE, EXIT_SUCCESS,
};
use brightness_notifier::request::{Args, Mode, Request, ValidationError};

fn open(args: Args) -> (Driver, Action) {
    Driver::start(Request::from_args(&args).unwrap())
}

fn command(program: &str, args: &[&str]) -> Command {
    Command { program: program.to_string(), args: args.iter().map(|a| a.to_string()).collect() }
}

fn query() -> Action {
    Action::Capture(command("xbacklight", &["-get"]))
}

fn write(mode: &str, value: &str) -> Action {
    Action::Run(command("xbacklight", &[mode, value, "-time", "100", "-steps", "25"]))
}

fn notify(icon: &str, summary: &str) -> Action {
    Action::Run(command(
        "notify-send",
        &[
            "--app-name",
            "lxqt-brightness",
            "--icon",
            icon,
            "--replace-id",
            "1",
            "--expire-time",
            "2000",
            summary,
        ],
    ))
}

fn printed(output: &str) -> Reply {
    Reply { ok: true, output: output.as_bytes().to_vec() }
}

fn succeeded() -> Reply {
    Reply { ok: true, output: Vec::new() }
}

fn failed() -> Reply {
    Reply { ok: false, output: Vec::new() }
}

fn silent_failure() -> Action {
    Action::Exit(Outcome { code: 1, stdout: None, stderr: None })
}

#[test]
fn exit_codes() {
    assert_eq!(EXIT_SUCCESS, 0);
    assert_eq!(EXIT_FAILURE, 1);
}

#[test]
fn printed_lines() {
    assert_eq!(report_line(48), "Current brightness: 48%");
    assert_eq!(
        write_failure_line(Mode::SetTo(50)),
        Some("Failed to set brightness to 50.".to_string())
    );
    assert_eq!(
        write_failure_line(Mode::Increase(5)),
        Some("Failed to adjust the brightness.".to_string())
    );
    assert_eq!(
        write_failure_line(Mode::Decrease(5)),
        Some("Failed to adjust the brightness.".to_string())
    );
    assert_eq!(write_failure_line(Mode::Get), None);
}

#[test]
fn get_reports_the_rounded_brightness() {
    let (mut driver, first) = open(Args { get: true, ..Args::default() });
    assert_eq!(first, query());
    assert_eq!(driver.phase(), Phase::AwaitReading);
    let second = driver.step(&printed("47.6"));
    assert_eq!(second, notify("display-brightness-medium-symbolic", "Brightness: 48%"));
    assert_eq!(driver.phase(), Phase::AwaitNotify(48));
    let last = driver.step(&succeeded());
    assert_eq!(
        last,
        Action::Exit(Outcome {
            code: 0,
            stdout: Some("Current brightness: 48%".to_string()),
            stderr: None,
        })
    );
    assert_eq!(driver.phase(), Phase::Done(0));
}

#[test]
fn decrease_from_five_by_ten_sets_one() {
    let (mut driver, first) = open(Args { decrease: Some(10), ..Args::default() });
    assert_eq!(first, query());
    assert_eq!(driver.phase(), Phase::AwaitCurrent);
    assert_eq!(driver.step(&printed("5.000000\n")), write("-set", "1"));
    assert_eq!(driver.phase(), Phase::AwaitWrite);
    assert_eq!(driver.step(&succeeded()), query());
    assert_eq!(
        driver.step(&printed("1.000000\n")),
        notify("display-brightness-low-symbolic", "Brightness: 1%")
    );
    assert_eq!(
        driver.step(&succeeded()),
        Action::Exit(Outcome {
            code: 0,
            stdout: Some("Current brightness: 1%".to_string()),
            stderr: None,
        })
    );
}

#[test]
fn get_without_a_backlight_tool_fails_without_a_notification() {
    let (mut driver, first) = open(Args { get: true, ..Args::default() });
    assert_eq!(first, query());
    assert_eq!(driver.step(&failed()), silent_failure());
    assert_eq!(driver.phase(), Phase::Done(1));
}

#[test]
fn get_with_unreadable_output_fails_without_a_notification() {
    let (mut driver, _) = open(Args::default());
    assert_eq!(driver.step(&printed("No outputs have backlight property\n")), silent_failure());
    let (mut driver, _) = open(Args::default());
    assert_eq!(
        driver.step(&Reply { ok: false, output: b"50.0\n".to_vec() }),
        silent_failure()
    );
}

#[test]
fn set_then_report() {
    for v in [1u8, 50, 100] {
        let (mut driver, first) = open(Args { set: Some(v), ..Args::default() });
        let text = format!("{}", v);
        assert_eq!(first, write("-set", &text));
        assert_eq!(driver.phase(), Phase::AwaitWrite);
        assert_eq!(driver.step(&succeeded()), query());
        let shown = driver.step(&printed(&format!("{}.000000\n", v)));
        match shown {
            Action::Run(c) => {
                assert_eq!(c.program, "notify-send");
                assert_eq!(c.args[8], format!("Brightness: {}%", v));
            }
            other => panic!("unexpected action {:?}", other),
        }
        assert_eq!(
            driver.step(&succeeded()),
            Action::Exit(Outcome {
                code: 0,
                stdout: Some(format!("Current brightness: {}%", v)),
                stderr: None,
            })
        );
    }
}

#[test]
fn failed_set_ends_the_run() {
    let (mut driver, _) = open(Args { set: Some(50), ..Args::default() });
    assert_eq!(
        driver.step(&failed()),
        Action::Exit(Outcome {
            code: 1,
            stdout: None,
            stderr: Some("Failed to set brightness to 50.".to_string()),
        })
    );
    assert_eq!(driver.phase(), Phase::Done(1));
}

#[test]
fn failed_adjustment_ends_the_run() {
    let (mut driver, _) = open(Args { increase: Some(5), ..Args::default() });
    assert_eq!(driver.step(&printed("40\n")), write("-inc", "5"));
    assert_eq!(
        driver.step(&failed()),
        Action::Exit(Outcome {
            code: 1,
            stdout: None,
            stderr: Some("Failed to adjust the brightness.".to_string()),
        })
    );
}

#[test]
fn failed_notification_fails_the_run_after_the_change() {
    let (mut driver, _) = open(Args { set: Some(50), ..Args::default() });
    assert_eq!(driver.step(&succeeded()), query());
    assert_eq!(
        driver.step(&printed("50.000000\n")),
        notify("display-brightness-medium-symbolic", "Brightness: 50%")
    );
    assert_eq!(driver.step(&failed()), silent_failure());
}

#[test]
fn increase_from_dark_sets_the_delta() {
    let (mut driver, _) = open(Args { increase: Some(5), ..Args::default() });
    assert_eq!(driver.step(&printed("0.000000\n")), write("-set", "5"));
    let (mut driver, _) = open(Args { increase: Some(5), ..Args::default() });
    assert_eq!(driver.step(&printed("1.4\n")), write("-set", "5"));
    let (mut driver, _) = open(Args { increase: Some(5), ..Args::default() });
    assert_eq!(driver.step(&printed("1.5\n")), write("-inc", "5"));
}

#[test]
fn relative_change_without_a_reading() {
    let (mut driver, _) = open(Args { increase: Some(5), ..Args::default() });
    assert_eq!(driver.step(&failed()), write("-inc", "5"));
    let (mut driver, _) = open(Args { decrease: Some(10), ..Args::default() });
    assert_eq!(driver.step(&failed()), write("-set", "10"));
    let (mut driver, _) = open(Args { decrease: Some(10), ..Args::default() });
    assert_eq!(driver.step(&printed("garbage")), write("-set", "10"));
}

#[test]
fn a_finished_run_keeps_its_exit_code() {
    let (mut driver, _) = open(Args::default());
    driver.step(&printed("10"));
    driver.step(&succeeded());
    assert_eq!(driver.phase(), Phase::Done(0));
    assert_eq!(
        driver.step(&printed("99")),
        Action::Exit(Outcome { code: 0, stdout: None, stderr: None })
    );
    assert_eq!(driver.phase(), Phase::Done(0));
    let (mut driver, _) = open(Args::default());
    driver.step(&failed());
    assert_eq!(driver.step(&succeeded()), silent_failure());
    assert_eq!(driver.phase(), Phase::Done(1));
}

#[test]
fn every_run_ends_within_four_replies() {
    let modes = [
        Args::default(),
        Args { get: true, ..Args::default() },
        Args { set: Some(30), ..Args::default() },
        Args { increase: Some(5), ..Args::default() },
        Args { decrease: Some(5), ..Args::default() },
    ];
    let replies = [printed("30.0\n"), succeeded(), failed()];
    for args in modes.iter() {
        for reply in replies.iter() {
            let (mut driver, mut action) = open(*args);
            let mut count = 0;
            while !matches!(action, Action::Exit(_)) {
                action = driver.step(reply);
                count += 1;
                assert!(count <= 4);
            }
            assert!(matches!(driver.phase(), Phase::Done(_)));
        }
    }
}

#[test]
fn the_driver_keeps_its_request() {
    let args = Args { set: Some(30), timeout: 5, ..Args::default() };
    let request = Request::from_args(&args).unwrap();
    let (mut driver, _) = Driver::start(request);
    assert_eq!(driver.request(), request);
    driver.step(&succeeded());
    assert_eq!(driver.request(), request);
}

#[test]
fn conflicting_flags_open_no_run() {
    let begun = Driver::begin(&Args { set: Some(50), get: true, ..Args::default() });
    assert_eq!(
        begun.err(),
        Some(Outcome {
            code: 1,
            stdout: None,
            stderr: Some(ValidationError::ConflictingModes.message().to_string()),
        })
    );
    let begun = Driver::begin(&Args { increase: Some(5), decrease: Some(5), ..Args::default() });
    assert_eq!(begun.err().map(|outcome| outcome.code), Some(1));
}

#[test]
fn flags_out_of_range_open_no_run() {
    let refused = [
        (Args { set: Some(0), ..Args::default() }, ValidationError::SetOutOfRange),
        (Args { set: Some(101), ..Args::default() }, ValidationError::SetOutOfRange),
        (Args { timeout: 120_001, ..Args::default() }, ValidationError::TimeoutOutOfRange),
        (Args { fade_time: 60_001, ..Args::default() }, ValidationError::FadeTimeOutOfRange),
        (Args { steps: 0, ..Args::default() }, ValidationError::StepsOutOfRange),
        (Args { steps: 201, ..Args::default() }, ValidationError::StepsOutOfRange),
    ];
    for (args, error) in refused.iter() {
        assert_eq!(
            Driver::begin(args).err(),
            Some(Outcome { code: 1, stdout: None, stderr: Some(error.message().to_string()) })
        );
    }
}

#[test]
fn acceptable_flags_open_the_run() {
    let (driver, first) = Driver::begin(&Args { set: Some(1), ..Args::default() }).unwrap();
    assert_eq!(first, write("-set", "1"));
    assert_eq!(driver.phase(), Phase::AwaitWrite);
    assert_eq!(driver.request().mode(), Mode::SetTo(1));
    let (driver, first) = Driver::begin(&Args { set: Some(100), ..Args::default() }).unwrap();
    assert_eq!(first, write("-set", "100"));
    assert_eq!(driver.request().mode(), Mode::SetTo(100));
    let (driver, first) = Driver::begin(&Args::default()).unwrap();
    assert_eq!(first, query());
    assert_eq!(driver.phase(), Phase::AwaitReading);
}

#[test]
fn timeout_and_fade_are_passed_through() {
    let args =
        Args { decrease: Some(3), timeout: 750, fade_time: 0, steps: 200, ..Args::default() };
    let (mut driver, _) = Driver::begin(&args).unwrap();
    assert_eq!(
        driver.step(&printed("20.4\n")),
        Action::Run(command("xbacklight", &["-set", "17", "-time", "0", "-steps", "200"]))
    );
    assert_eq!(driver.step(&succeeded()), query());
    match driver.step(&printed("17.000000\n")) {
        Action::Run(c) => {
            assert_eq!(c.args[6], "--expire-time");
            assert_eq!(c.args[7], "750");
        }
        other => panic!("unexpected action {:?}", other),
    }
}
