use ttmpv_engine::handle::{HandleSetup, OptionReply, SetupAction, SetupEvent, SetupStage};
use ttmpv_engine::{AudioConfig, AudioExtractor, MpvError, MpvHandle};

/// What a simulated mpv did during a setup: the options it was asked to set,
/// in order, and whether it was asked to initialize.
struct Trace {
    options: Vec<(String, String)>,
    initialized: bool,
    to_destroy: Option<usize>,
}

/// Runs a setup against a simulated mpv: the context is created at `raw`,
/// `reply` answers each option, and initialization returns `init_status`.
fn drive(
    mut setup: HandleSetup,
    raw: usize,
    reply: &dyn Fn(&str, &str) -> OptionReply,
    init_status: i32,
) -> (Trace, Result<MpvHandle, MpvError>) {
    let mut trace = Trace { options: Vec::new(), initialized: false, to_destroy: None };
    let mut action = setup.first_action();
    loop {
        action = match action {
            SetupAction::Create => setup.advance(SetupEvent::Created { raw }),
            SetupAction::SetOption { name, value } => {
                let answer = reply(&name, &value);
                trace.options.push((name, value));
                setup.advance(SetupEvent::OptionApplied(answer))
            }
            SetupAction::Initialize => {
                trace.initialized = true;
                setup.advance(SetupEvent::Initialized { status: init_status })
            }
            SetupAction::Finish(result) => {
                trace.to_destroy = setup.context_to_destroy();
                return (trace, result);
            }
        };
    }
}

fn accept_all(_name: &str, _value: &str) -> OptionReply {
    OptionReply::Status { code: 0, text: None }
}

fn pairs(list: &[(&str, &str)]) -> Vec<(String, String)> {
    list.iter().map(|(n, v)| (n.to_string(), v.to_string())).collect()
}

const HEADLESS: [(&str, &str); 5] = [
    ("force-window", "no"),
    ("osc", "no"),
    ("osd-bar", "no"),
    ("load-scripts", "no"),
    ("config", "no"),
];

#[test]
fn test_headless_audio_extractor_setup() {
    let config = AudioConfig::whisper();
    assert_eq!(config.sample_rate, 16000);
    assert_eq!(config.channels, 1);

    let setup = AudioExtractor::create_headless_extractor(&config);
    let (_, result) = drive(setup, 0x5000, &accept_all, 0);
    let handle = result.expect("Failed to initialize headless audio extractor");
    assert!(handle.as_raw() != 0);
}

#[test]
fn test_mpv_handle_lifecycle() {
    let (trace, result) = drive(MpvHandle::new(), 0x7f00, &accept_all, 0);
    let handle = result.expect("Failed to initialize mpv instance");
    assert!(handle.as_raw() != 0);
    assert_eq!(handle.as_raw(), 0x7f00);
    assert_eq!(trace.to_destroy, None);
    assert_eq!(trace.options, pairs(&HEADLESS));
    assert!(trace.initialized);
}

#[test]
fn mono_extractor_sets_every_option_in_order() {
    let setup = AudioExtractor::create_headless_extractor(&AudioConfig::whisper());
    let (trace, result) = drive(setup, 1, &accept_all, 0);
    assert!(result.is_ok());
    let mut expected = pairs(&HEADLESS);
    expected.extend(pairs(&[
        ("untimed", "yes"),
        ("speed", "100.0"),
        ("video", "no"),
        ("sub", "no"),
        ("af", "lavfi=[aresample=16000,pan=mono|c0=0.5*c0+0.5*c1]"),
    ]));
    assert_eq!(trace.options, expected);
}

#[test]
fn stereo_extractor_resamples_without_mixing() {
    let setup = AudioExtractor::create_headless_extractor(&AudioConfig::hi_fi());
    let (trace, result) = drive(setup, 1, &accept_all, 0);
    assert!(result.is_ok());
    assert_eq!(trace.options.len(), 10);
    assert_eq!(
        trace.options.last().unwrap(),
        &("af".to_string(), "lavfi=[aresample=48000]".to_string())
    );
}

#[test]
fn filter_carries_the_sample_rate() {
    let config = AudioConfig { sample_rate: 44100, channels: 1 };
    let setup = AudioExtractor::create_headless_extractor(&config);
    let (trace, _) = drive(setup, 1, &accept_all, 0);
    assert_eq!(
        trace.options.last().unwrap(),
        &("af".to_string(), "lavfi=[aresample=44100,pan=mono|c0=0.5*c0+0.5*c1]".to_string())
    );
}

#[test]
fn null_context_fails_allocation() {
    let (trace, result) = drive(MpvHandle::new(), 0, &accept_all, 0);
    assert_eq!(result.err(), Some(MpvError::AllocationFailed));
    assert_eq!(trace.to_destroy, None);
    assert!(trace.options.is_empty());
    assert!(!trace.initialized);
}

#[test]
fn failing_required_option_stops_the_setup() {
    let reply = |name: &str, _: &str| {
        if name == "osd-bar" {
            OptionReply::Status { code: -5, text: Some("option not found".to_string()) }
        } else {
            OptionReply::Status { code: 0, text: None }
        }
    };
    let (trace, result) = drive(MpvHandle::new(), 9, &reply, 0);
    assert_eq!(
        result.err(),
        Some(MpvError::Internal { code: -5, message: "option not found".to_string() })
    );
    assert_eq!(trace.options, pairs(&HEADLESS[..3]));
    assert!(!trace.initialized);
    assert_eq!(trace.to_destroy, Some(9));
}

#[test]
fn failing_option_without_text_is_unknown_error() {
    let reply = |_: &str, _: &str| OptionReply::Status { code: -1, text: None };
    let (_, result) = drive(MpvHandle::new(), 9, &reply, 0);
    assert_eq!(
        result.err(),
        Some(MpvError::Internal { code: -1, message: "Unknown error".to_string() })
    );
}

#[test]
fn invalid_argument_is_invalid_c_string() {
    let reply = |_: &str, _: &str| OptionReply::InvalidArgument("nul byte".to_string());
    let (trace, result) = drive(MpvHandle::new(), 9, &reply, 0);
    assert_eq!(result.err(), Some(MpvError::InvalidCString("nul byte".to_string())));
    assert_eq!(trace.options.len(), 1);
}

#[test]
fn failed_initialization_names_the_status() {
    let (trace, result) = drive(MpvHandle::new(), 3, &accept_all, -12);
    assert!(trace.initialized);
    assert_eq!(trace.to_destroy, Some(3));
    assert_eq!(
        result.err(),
        Some(MpvError::InitializationFailed("mpv_initialize failed with status -12".to_string()))
    );
}

#[test]
fn failing_filter_is_ignored() {
    let reply = |name: &str, _: &str| {
        if name == "af" {
            OptionReply::Status { code: -7, text: None }
        } else {
            OptionReply::Status { code: 0, text: None }
        }
    };
    let setup = AudioExtractor::create_headless_extractor(&AudioConfig::whisper());
    let (trace, result) = drive(setup, 42, &reply, 0);
    assert_eq!(result.expect("filter failure is ignored").as_raw(), 42);
    assert_eq!(trace.options.len(), 10);
}

#[test]
fn failing_extractor_option_is_reported() {
    let reply = |name: &str, _: &str| {
        if name == "speed" {
            OptionReply::Status { code: -3, text: Some("bad speed".to_string()) }
        } else {
            OptionReply::Status { code: 0, text: None }
        }
    };
    let setup = AudioExtractor::create_headless_extractor(&AudioConfig::whisper());
    let (trace, result) = drive(setup, 42, &reply, 0);
    assert_eq!(
        result.err(),
        Some(MpvError::Internal { code: -3, message: "bad speed".to_string() })
    );
    assert!(trace.initialized);
    assert_eq!(trace.options.last().unwrap().0, "speed");
}

#[test]
fn setup_accepts_only_the_awaited_answer() {
    let mut setup = MpvHandle::new();
    assert_eq!(setup.stage(), SetupStage::Creating);
    assert!(setup.accepts(&SetupEvent::Created { raw: 1 }));
    assert!(!setup.accepts(&SetupEvent::Initialized { status: 0 }));
    let action = setup.advance(SetupEvent::Created { raw: 1 });
    assert!(matches!(action, SetupAction::SetOption { .. }));
    assert_eq!(setup.stage(), SetupStage::Running);
    assert!(setup.accepts(&SetupEvent::OptionApplied(OptionReply::Status { code: 0, text: None })));
    assert!(!setup.accepts(&SetupEvent::Created { raw: 1 }));
}
