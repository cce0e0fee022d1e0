use packet_snooper::report_generator::ReportFormat;
use packet_snooper::snooper::{ControlBlock, Workers};
use packet_snooper::{PacketSnooper, State};

fn devices() -> Vec<String> {
    vec!["lo".to_string(), "eth0".to_string()]
}

fn no_workers() -> Workers {
    Workers { capture: false, consumer: false, timer: false }
}

fn all_workers() -> Workers {
    Workers { capture: true, consumer: true, timer: true }
}

pub fn complete_setup() -> PacketSnooper {
    PacketSnooper::new("eth0")
        .with_details("eth0", &devices(), 75, "hello.txt", "report", "TCP")
        .unwrap()
}

#[test]
pub fn packet_snooper_new_test() {
    let ps = PacketSnooper::new("eth0");

    assert_eq!(ps.state, State::ConfigDevice);

    assert_ne!(ps.config_options.current_interface.as_str(), "");
    assert_eq!(ps.config_options.time_interval, 60);
    assert_eq!(ps.config_options.file_path, "output.txt".to_string());

    assert_eq!(ps.control.terminate, false);
    assert_eq!(ps.control.pause, false);

    assert_eq!(ps.workers, no_workers());
}

#[test]
pub fn packet_snooper_with_details_test() {
    let interface_name = "eth0";
    let time_interval = 75;
    let file_path = "hello.txt";
    let report_format = "report";
    let packet_filter = "TCP";

    let ps = PacketSnooper::new("lo")
        .with_details(interface_name, &devices(), time_interval, file_path, report_format, packet_filter)
        .unwrap();

    assert_eq!(ps.state, State::Ready);

    assert_eq!(ps.config_options.current_interface, interface_name);
    assert_eq!(ps.config_options.time_interval, time_interval);
    assert_eq!(ps.config_options.file_path, file_path.to_string());

    assert_eq!(ps.control.terminate, false);
    assert_eq!(ps.control.pause, false);

    assert_eq!(ps.workers, no_workers());
}

#[test]
pub fn packet_snooper_set_device_normal_test() {
    let mut ps = PacketSnooper::new("lo");

    assert_eq!(ps.state, State::ConfigDevice);

    ps.set_device("eth0", &devices()).unwrap();

    assert_eq!(ps.state, State::ConfigTimeInterval);
    assert_eq!(ps.config_options.current_interface, "eth0");
}

#[test]
pub fn packet_snooper_set_device_interface_not_found_test() {
    let interface_name = "wrong_interface_name";
    let mut ps = PacketSnooper::new("eth0");

    assert_eq!(ps.state, State::ConfigDevice);

    let res = ps.set_device(interface_name, &devices());

    assert!(res.is_err());
    let got = res.unwrap_err();
    assert_eq!(got.message, "unable to find device with the specified interface name ");

    assert_eq!(ps.state, State::ConfigDevice);
    assert_ne!(ps.config_options.current_interface, interface_name);
}

const ALL_STATES: [State; 8] = [
    State::ConfigDevice,
    State::ConfigTimeInterval,
    State::ConfigFile,
    State::ReportFormat,
    State::PacketFilter,
    State::Ready,
    State::Working,
    State::Stopped,
];

#[test]
pub fn packet_snooper_set_device_in_invalid_state_test() {
    let error_str = "Invalid call on set_device when in an illegal state.";
    let mut ps = PacketSnooper::new("eth0");

    for state in ALL_STATES.into_iter().filter(|s| *s != State::ConfigDevice) {
        ps.state = state;
        let res = ps.set_device("eth0", &devices());
        assert!(res.is_err());
        assert_eq!(res.unwrap_err().message, error_str);
        assert_eq!(ps.state, state);
    }

    ps.state = State::ConfigDevice;
    assert!(ps.set_device("eth0", &devices()).is_ok());
}

#[test]
pub fn packet_snooper_set_time_interval_normal_test() {
    let time_interval = 75;
    let mut ps = PacketSnooper::new("eth0");

    ps.state = State::ConfigTimeInterval;
    assert!(ps.set_time_interval(time_interval).is_ok());

    assert_eq!(ps.state, State::ConfigFile);
    assert_eq!(ps.config_options.time_interval, time_interval);
}

#[test]
pub fn packet_snooper_set_time_interval_in_invalid_state_test() {
    let error_str = "Invalid call on set_time_interval when in an illegal state.";
    let mut ps = PacketSnooper::new("eth0");

    for state in ALL_STATES.into_iter().filter(|s| *s != State::ConfigTimeInterval) {
        ps.state = state;
        let res = ps.set_time_interval(75);
        assert!(res.is_err());
        assert_eq!(res.unwrap_err().message, error_str);
    }

    ps.state = State::ConfigTimeInterval;
    assert!(ps.set_time_interval(75).is_ok());
}

#[test]
fn zero_time_interval_is_refused() {
    let mut ps = PacketSnooper::new("eth0");
    ps.state = State::ConfigTimeInterval;
    let res = ps.set_time_interval(0);
    assert_eq!(res.unwrap_err().message, "Invalid time interval given as a parameter.");
    assert_eq!(ps.state, State::ConfigTimeInterval);
    assert_eq!(ps.config_options.time_interval, 60);
}

#[test]
pub fn packet_snooper_set_file_path_normal_test() {
    let file_path = "hello.txt";
    let mut ps = PacketSnooper::new("eth0");

    ps.state = State::ConfigFile;
    assert!(ps.set_file_path(file_path).is_ok());

    assert_eq!(ps.state, State::ReportFormat);
    assert_eq!(ps.config_options.file_path, file_path.to_string());
}

#[test]
pub fn packet_snooper_set_file_path_in_invalid_state_test() {
    let error_str = "Invalid call on set_file_path when in an illegal state.";
    let mut ps = PacketSnooper::new("eth0");

    for state in ALL_STATES.into_iter().filter(|s| *s != State::ConfigFile) {
        ps.state = state;
        let res = ps.set_file_path("hello.txt");
        assert!(res.is_err());
        assert_eq!(res.unwrap_err().message, error_str);
    }

    ps.state = State::ConfigFile;
    assert!(ps.set_file_path("hello.txt").is_ok());
}

#[test]
fn invalid_file_path_is_refused() {
    let mut ps = PacketSnooper::new("eth0");
    ps.state = State::ConfigFile;
    assert_eq!(ps.set_file_path("").unwrap_err().message, "Invalid file path given as a parameter.");
    assert_eq!(ps.set_file_path("a\0b").unwrap_err().message, "Invalid file path given as a parameter.");
    assert_eq!(ps.state, State::ConfigFile);
    assert_eq!(ps.config_options.file_path, "output.txt");
}

#[test]
pub fn packet_snooper_set_report_format_normal_test() {
    let mut ps = PacketSnooper::new("eth0");

    ps.state = State::ReportFormat;
    assert!(ps.set_report_format("report").is_ok());

    assert_eq!(ps.state, State::PacketFilter);
    assert_eq!(ps.config_options.report_format, ReportFormat::Report);

    ps.state = State::ReportFormat;
    assert!(ps.set_report_format("raw").is_ok());
    assert_eq!(ps.config_options.report_format, ReportFormat::Raw);
    ps.state = State::ReportFormat;
    assert!(ps.set_report_format("verbose").is_ok());
    assert_eq!(ps.config_options.report_format, ReportFormat::Verbose);
    ps.state = State::ReportFormat;
    assert_eq!(ps.set_report_format("Report").unwrap_err().message, "Invalid format name given as a parameter");
    assert_eq!(ps.state, State::ReportFormat);
}

#[test]
pub fn packet_snooper_set_report_format_in_invalid_state_test() {
    let error_str = "Invalid call on set_report_format when in an illegal state.";
    let mut ps = PacketSnooper::new("eth0");

    for state in ALL_STATES.into_iter().filter(|s| *s != State::ReportFormat) {
        ps.state = state;
        let res = ps.set_report_format("report");
        assert!(res.is_err());
        assert_eq!(res.unwrap_err().message, error_str);
    }

    ps.state = State::ReportFormat;
    assert!(ps.set_report_format("report").is_ok());
}

#[test]
pub fn packet_snooper_set_packet_filter_normal_test() {
    let mut ps = PacketSnooper::new("eth0");

    ps.state = State::PacketFilter;
    assert!(ps.set_packet_filter("TCP").is_ok());

    assert_eq!(ps.state, State::Ready);
    assert_eq!(ps.config_options.packet_filter, "TCP".to_string());
}

#[test]
pub fn packet_snooper_set_packet_filter_invalid_format_test() {
    let packet_filter = "中國的 ~=[]()%+{}@;";
    let error_str = "Invalid format given as a parameter.";
    let mut ps = PacketSnooper::new("eth0");

    ps.state = State::PacketFilter;
    let res = ps.set_packet_filter(packet_filter);
    assert!(res.is_err());
    assert_eq!(res.unwrap_err().message, error_str);
    assert_eq!(ps.state, State::PacketFilter);
}

#[test]
pub fn packet_snooper_set_packet_filter_in_invalid_state_test() {
    let error_str = "Invalid call on set_packet_filter when in an illegal state.";
    let mut ps = PacketSnooper::new("eth0");

    for state in ALL_STATES.into_iter().filter(|s| *s != State::PacketFilter) {
        ps.state = state;
        let res = ps.set_packet_filter("TCP");
        assert!(res.is_err());
        assert_eq!(res.unwrap_err().message, error_str);
    }

    ps.state = State::PacketFilter;
    assert!(ps.set_packet_filter("TCP").is_ok());
}

#[test]
pub fn packet_snooper_start_normal_test() {
    let mut ps = complete_setup();

    assert_eq!(ps.state, State::Ready);
    ps.start(true).unwrap();

    assert_eq!(ps.state, State::Working);
    assert_eq!(ps.workers, all_workers());
    assert_eq!(ps.control, ControlBlock { pause: false, terminate: false });
}

#[test]
fn start_without_capture_changes_nothing() {
    let mut ps = complete_setup();
    let res = ps.start(false);
    assert_eq!(res.unwrap_err().message, "unable to open a capture on the selected interface");
    assert_eq!(ps.state, State::Ready);
    assert_eq!(ps.workers, no_workers());
}

#[test]
pub fn packet_snooper_start_in_invalid_state_test() {
    let error_str = "Invalid call on start when in an illegal state.";
    let mut ps = PacketSnooper::new("eth0");

    let invalid_states = [State::ConfigDevice, State::ConfigTimeInterval, State::ConfigFile, State::Working, State::Stopped];

    for state in invalid_states {
        ps.state = state;
        let res = ps.start(true);
        assert!(res.is_err());
        assert_eq!(res.unwrap_err().message, error_str);
    }

    ps.state = State::Ready;
    assert!(ps.start(true).is_ok());
}

#[test]
pub fn packet_snooper_stop_normal_test() {
    let mut ps = complete_setup();

    ps.start(true).unwrap();
    ps.stop().unwrap();

    assert_eq!(ps.state, State::Stopped);
    assert_eq!(ps.workers, all_workers());
    assert_eq!(ps.control.terminate, false);
    assert_eq!(ps.control.pause, true);
}

#[test]
pub fn packet_snooper_stop_in_invalid_state_test() {
    let error_str = "Invalid call on stop when in an illegal state.";
    let mut ps = PacketSnooper::new("eth0");

    let invalid_states = [State::ConfigDevice, State::ConfigTimeInterval, State::ConfigFile, State::Ready, State::Stopped];

    for state in invalid_states {
        ps.state = state;
        let res = ps.stop();
        assert!(res.is_err());
        assert_eq!(res.unwrap_err().message, error_str);
    }

    ps.state = State::Working;
    assert!(ps.stop().is_ok());
}

#[test]
pub fn packet_snooper_resume_normal_test() {
    let mut ps = complete_setup();

    ps.start(true).unwrap();
    ps.stop().unwrap();
    ps.resume().unwrap();

    assert_eq!(ps.state, State::Working);
    assert_eq!(ps.workers, all_workers());
    assert_eq!(ps.control.terminate, false);
    assert_eq!(ps.control.pause, false);
}

#[test]
pub fn packet_snooper_resume_in_invalid_state_test() {
    let error_str = "Invalid call on resume when in an illegal state.";
    let mut ps = PacketSnooper::new("eth0");

    let invalid_states = [State::ConfigDevice, State::ConfigTimeInterval, State::ConfigFile, State::Ready, State::Working];

    for state in invalid_states {
        ps.state = state;
        let res = ps.resume();
        assert!(res.is_err());
        assert_eq!(res.unwrap_err().message, error_str);
    }

    ps.state = State::Stopped;
    assert!(ps.resume().is_ok());
}

#[test]
pub fn packet_snooper_end_normal_test() {
    let mut ps = complete_setup();

    ps.start(true).unwrap();
    ps.end().unwrap();

    assert_eq!(ps.state, State::Ready);
    assert_eq!(ps.workers, no_workers());
    assert_eq!(ps.control.terminate, true);
    assert_eq!(ps.control.pause, false);

    ps.start(true).unwrap();
    ps.stop().unwrap();
    ps.end().unwrap();

    assert_eq!(ps.state, State::Ready);
    assert_eq!(ps.workers, no_workers());
    assert_eq!(ps.control.terminate, true);
    assert_eq!(ps.control.pause, false);
    assert_eq!(ps.config_options.file_path, "hello.txt");
}

#[test]
pub fn packet_snooper_end_in_invalid_state_test() {
    let error_str = "Invalid call on end when in an illegal state.";
    let mut ps = PacketSnooper::new("eth0");

    let invalid_states = [State::ConfigDevice, State::ConfigTimeInterval, State::ConfigFile, State::Ready];

    for state in invalid_states {
        ps.state = state;
        let res = ps.end();
        assert!(res.is_err());
        assert_eq!(res.unwrap_err().message, error_str);
    }

    for state in [State::Working, State::Stopped] {
        ps.state = state;
        let res = ps.end();
        assert!(res.is_ok());
        assert_eq!(ps.state, State::Ready);
    }
}

#[test]
pub fn packet_snooper_rapid_end_test() {
    let mut ps = complete_setup();

    let mut i = 5;
    while i > 0 {
        ps.start(true).unwrap();
        ps.end().unwrap();
        i -= 1;
    }
    assert_eq!(ps.state, State::Ready);
}

#[test]
pub fn packet_snooper_abort_normal_test() {
    let mut ps = complete_setup();
    ps.start(true).unwrap();
    ps.abort().unwrap();

    assert_eq!(ps.state, State::ConfigDevice);
    assert_eq!(ps.workers, no_workers());
    assert_eq!(ps.control.terminate, true);
    assert_eq!(ps.control.pause, false);

    let mut ps = complete_setup();
    ps.start(true).unwrap();
    ps.stop().unwrap();
    ps.abort().unwrap();

    assert_eq!(ps.state, State::ConfigDevice);
    assert_eq!(ps.workers, no_workers());
    assert_eq!(ps.control.terminate, true);
    assert_eq!(ps.control.pause, false);
}

#[test]
pub fn packet_snooper_abort_in_config_state_test() {
    let mut ps = PacketSnooper::new("eth0");

    assert_eq!(ps.state, State::ConfigDevice);
    assert_eq!(ps.workers, no_workers());
    assert_eq!(ps.control.terminate, false);
    assert_eq!(ps.control.pause, false);

    ps.abort().unwrap();

    assert_eq!(ps.state, State::ConfigDevice);
    assert_eq!(ps.workers, no_workers());
    assert_eq!(ps.control.terminate, true);
    assert_eq!(ps.control.pause, false);
}

#[test]
pub fn packet_snooper_abort_in_invalid_state_test() {
    let mut ps = PacketSnooper::new("eth0");

    for state in ALL_STATES {
        ps.state = state;
        ps.abort().unwrap();
        assert_eq!(ps.state, State::ConfigDevice);
    }
}

#[test]
pub fn packet_snooper_rapid_abort_test() {
    let mut i = 5;
    while i > 0 {
        let mut ps = complete_setup();
        ps.start(true).unwrap();
        ps.abort().unwrap();
        assert_eq!(ps.state, State::ConfigDevice);
        i -= 1;
    }
}

#[test]
fn abort_drops_configuration() {
    let mut ps = PacketSnooper::new("lo")
        .with_details("eth0", &devices(), 5, "x.txt", "raw", "UDP")
        .unwrap();
    ps.abort().unwrap();
    assert_eq!(ps.state, State::ConfigDevice);
    assert_eq!(ps.config_options.current_interface, "eth0");
    assert_eq!(ps.config_options.time_interval, 60);
    assert_eq!(ps.config_options.file_path, "output.txt");
    assert_eq!(ps.config_options.report_format, ReportFormat::Report);
    assert_eq!(ps.config_options.packet_filter, "");
}

#[test]
fn rejected_operations_change_nothing() {
    let ops: [fn(&mut PacketSnooper) -> bool; 9] = [
        |p| p.set_device("eth0", &devices()).is_ok(),
        |p| p.set_time_interval(5).is_ok(),
        |p| p.set_file_path("f.txt").is_ok(),
        |p| p.set_report_format("raw").is_ok(),
        |p| p.set_packet_filter("TCP").is_ok(),
        |p| p.start(true).is_ok(),
        |p| p.stop().is_ok(),
        |p| p.resume().is_ok(),
        |p| p.end().is_ok(),
    ];
    let allowed: [&[State]; 9] = [
        &[State::ConfigDevice],
        &[State::ConfigTimeInterval],
        &[State::ConfigFile],
        &[State::ReportFormat],
        &[State::PacketFilter],
        &[State::Ready],
        &[State::Working],
        &[State::Stopped],
        &[State::Working, State::Stopped],
    ];
    for (op, ok_states) in ops.iter().zip(allowed.iter()) {
        for state in ALL_STATES {
            let mut ps = PacketSnooper::new("eth0");
            ps.state = state;
            let before = (ps.config_options.clone(), ps.control, ps.workers);
            let ok = op(&mut ps);
            assert_eq!(ok, ok_states.contains(&state));
            if !ok {
                assert_eq!(ps.state, state);
                assert_eq!(ps.config_options.current_interface, before.0.current_interface);
                assert_eq!(ps.config_options.time_interval, before.0.time_interval);
                assert_eq!(ps.config_options.file_path, before.0.file_path);
                assert_eq!(ps.config_options.report_format, before.0.report_format);
                assert_eq!(ps.config_options.packet_filter, before.0.packet_filter);
                assert_eq!(ps.control, before.1);
                assert_eq!(ps.workers, before.2);
            }
        }
    }
}

#[test]
fn describe_summarises_the_snooper() {
    let ps = PacketSnooper::new("eth0");
    assert_eq!(
        ps.describe("192.168.1.2"),
        "Packet-Snooper: [interface: eth0 / 192.168.1.2\nInternal State: ConfigDevice\nTime interval before report generation : 60s\nFile path Target for report generation: \"output.txt\""
    );
}
