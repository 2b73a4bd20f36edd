//! Tests of the sensor blocks' parsing and decision logic, and of the text
//! helpers they share.
use rstatus::base::{Base, Value};
use rstatus::battery;
use rstatus::battery::{status2rstatus, Status};
use rstatus::cpuload;
use rstatus::cpuload::CpuStat;
use rstatus::custom;
use rstatus::filesystem;
use rstatus::memory;
use rstatus::memory::meminfo_fields;
use rstatus::network;
use rstatus::network::{active_interface, strength_percent};
use rstatus::pipewire_dev::{PipewireCache, Volume};
use rstatus::pulse_dev::PulseCache;
use rstatus::sound_service::SoundService;
use rstatus::temperature;
use rstatus::time;
use rstatus::time::default_format;
use rstatus::utility::{contains_sub, gcd, parse_u32, parse_u64, read_color, split_tokens, trim};
use rstatus::volume;
use rstatus::volume::{AlsaDevice, PipewireDevice, PulseDevice, Service};
use rstatus::wifi;
use rstatus::wifi::parse_wifi_str;

#[test]
fn gcd_examples() {
    assert_eq!(gcd(6, 10), 2);
    assert_eq!(gcd(10, 6), 2);
    assert_eq!(gcd(0, 7), 7);
    assert_eq!(gcd(9, 9), 9);
}

#[test]
fn trim_strips_ascii_whitespace() {
    assert_eq!(trim("  42500\n"), "42500");
    assert_eq!(trim("\t\r\n "), "");
    assert_eq!(trim("x"), "x");
}

#[test]
fn split_tokens_takes_maximal_runs() {
    let toks = split_tokens(" a  bc\td \n");
    assert_eq!(toks, vec!["a", "bc", "d"]);
    assert_eq!(split_tokens(""), Vec::<String>::new());
}

#[test]
fn parse_numbers() {
    assert_eq!(parse_u32("42"), Some(42));
    assert_eq!(parse_u32("+42"), Some(42));
    assert_eq!(parse_u32(""), None);
    assert_eq!(parse_u32("4x"), None);
    assert_eq!(parse_u32("4294967295"), Some(u32::MAX));
    assert_eq!(parse_u32("4294967296"), None);
    assert_eq!(parse_u64("18446744073709551615"), Some(u64::MAX));
    assert_eq!(parse_u64("18446744073709551616"), None);
}

#[test]
fn read_color_examples() {
    assert_eq!(read_color("#ff0000", 0), 0xFF0000);
    assert_eq!(read_color("00ff00", 0), 0x00FF00);
    assert_eq!(read_color("#ABC", 0), 0xABC);
    assert_eq!(read_color("", 9), 9);
    assert_eq!(read_color("#", 9), 9);
    assert_eq!(read_color("zz", 7), 7);
    assert_eq!(read_color("-1", 0), 0xFFFFFFFF);
    assert_eq!(read_color("+10", 0), 0x10);
    assert_eq!(read_color("123456789", 0), 0x23456789);
    assert_eq!(read_color("8000000000000000", 5), 5);
}

#[test]
fn contains_sub_examples() {
    assert!(contains_sub("hello world", "lo w"));
    assert!(contains_sub("abc", ""));
    assert!(!contains_sub("abc", "abcd"));
    assert!(!contains_sub("abc", "x"));
}

#[test]
fn battery_status_mapping() {
    assert_eq!(status2rstatus("Charging"), "online");
    assert_eq!(status2rstatus("Discharging"), "offline");
    assert_eq!(status2rstatus("Full"), "full");
    assert_eq!(status2rstatus("Unknown"), "full");
}

fn battery_block() -> battery::Block {
    battery::Block {
        base: Base::new(),
        sensor: String::from("/sys/class/power_supply/BAT0"),
        statuses: vec![(
            String::from("offline"),
            Status { prefix: String::from("BAT "), suffix: String::from("!") },
        )],
        warning_level: 20,
        warning_action: Some(String::from("notify")),
    }
}

#[test]
fn battery_discharging_low_warns() {
    let mut b = battery_block();
    let warn = b.update("Discharging\n", Some("15\n"));
    assert!(warn);
    assert!(matches!(b.base.value, Value::Int(15)));
    assert_eq!(b.base.iprefix, "BAT ");
    assert_eq!(b.base.isuffix, "!");
}

#[test]
fn battery_charging_does_not_warn() {
    let mut b = battery_block();
    let warn = b.update("Charging\n", Some("15\n"));
    assert!(!warn);
    assert!(matches!(b.base.value, Value::Int(15)));
    assert_eq!(b.base.iprefix, "");
}

#[test]
fn battery_error_status_is_invalid() {
    let mut b = battery_block();
    let warn = b.update("error", Some("15"));
    assert!(!warn);
    assert!(matches!(b.base.value, Value::Invalid));
}

#[test]
fn battery_unreadable_capacity_is_invalid() {
    let mut b = battery_block();
    let warn = b.update("Discharging", None);
    assert!(!warn);
    assert!(matches!(b.base.value, Value::Invalid));
}

#[test]
fn cpu_stat_busy_share() {
    let s = CpuStat { idle: 40, total: 100 };
    assert_eq!(s.sub(), 60);
}

#[test]
fn cpuload_needs_two_readings() {
    let mut b = cpuload::Block { base: Base::new(), prev: None };
    b.update(Some("cpu 10 0 0 100 0 0 extra"));
    assert!(matches!(b.base.value, Value::Invalid));
    b.update(Some("cpu 30 0 0 170 0 0 extra"));
    assert!(matches!(b.base.value, Value::Int(22)));
}

#[test]
fn cpuload_short_report_is_invalid() {
    let mut b = cpuload::Block { base: Base::new(), prev: None };
    b.update(Some("cpu 1 2"));
    assert!(matches!(b.base.value, Value::Invalid));
    assert!(b.prev.is_none());
}

#[test]
fn custom_single_number_line() {
    let mut b = custom::Block { base: Base::new(), command: String::from("c") };
    b.update("42");
    assert!(matches!(b.base.value, Value::Int(42)));
}

#[test]
fn custom_single_text_line() {
    let mut b = custom::Block { base: Base::new(), command: String::from("c") };
    b.update("hello");
    match &b.base.value {
        Value::Str(s) => assert_eq!(s, "hello"),
        _ => panic!("expected text value"),
    }
}

#[test]
fn custom_empty_output_is_invalid() {
    let mut b = custom::Block { base: Base::new(), command: String::from("c") };
    b.update("");
    assert!(matches!(b.base.value, Value::Invalid));
}

#[test]
fn custom_second_line_recolors() {
    let mut b = custom::Block { base: Base::new(), command: String::from("c") };
    b.update("txt\n#00ff00\n");
    match &b.base.value {
        Value::Str(s) => assert_eq!(s, "txt"),
        _ => panic!("expected text value"),
    }
    assert_eq!(b.base.color, 0x00FF00);
}

#[test]
fn temperature_scales_to_degrees() {
    let mut b = temperature::Block { base: Base::new(), sensor: String::from("s") };
    b.update(Some("42500\n"));
    assert!(matches!(b.base.value, Value::Int(42)));
    b.update(None);
    assert!(matches!(b.base.value, Value::Invalid));
    b.update(Some("garbage"));
    assert!(matches!(b.base.value, Value::Invalid));
}

#[test]
fn time_takes_formatted_text() {
    let mut b = time::Block { base: Base::new(), format: default_format() };
    assert_eq!(b.format, "%d.%m.%Y %H:%M");
    b.update(String::from("01.01.2026 12:00"));
    match &b.base.value {
        Value::Str(s) => assert_eq!(s, "01.01.2026 12:00"),
        _ => panic!("expected text value"),
    }
}

#[test]
fn filesystem_used_share() {
    let mut b = filesystem::Block { base: Base::new(), path: String::from("/") };
    b.update(Some((100, 25)));
    assert!(matches!(b.base.value, Value::Int(75)));
    b.update(Some((0, 0)));
    assert!(matches!(b.base.value, Value::Invalid));
    b.update(None);
    assert!(matches!(b.base.value, Value::Invalid));
}

#[test]
fn meminfo_fields_take_second_and_eighth() {
    let text = "MemTotal: 100 kB\nMemFree: 20 kB\nMemAvailable: 30 kB\n";
    assert_eq!(meminfo_fields(text), Some((100, 30)));
    assert_eq!(meminfo_fields("MemTotal: 100 kB"), None);
}

#[test]
fn memory_usage_value() {
    let mut b = memory::Block { base: Base::new() };
    b.update(Some(70));
    assert!(matches!(b.base.value, Value::Int(70)));
    b.update(None);
    assert!(matches!(b.base.value, Value::Invalid));
}

#[test]
fn wifi_parses_quality_line() {
    let text = "Inter-| sta-|   Quality\n face | tus | link level noise\n wlan0: 0000   60.  -53.  -256\n";
    assert_eq!(parse_wifi_str("wlan0", text), Ok(85));
    assert_eq!(parse_wifi_str("eth0", text), Err(()));
}

#[test]
fn wifi_update_collapses_failures() {
    let mut b = wifi::Block { base: Base::new(), interface: String::from("wlan0") };
    b.update(None);
    assert!(matches!(b.base.value, Value::Invalid));
    b.update(Some(" wlan0: 0000   70.  -53.  -256"));
    assert!(matches!(b.base.value, Value::Int(100)));
}

#[test]
fn strength_table_bounds() {
    assert_eq!(strength_percent(255), 100);
    assert_eq!(strength_percent(200), 71);
    assert_eq!(strength_percent(156), 1);
}

#[test]
fn route_table_picks_lowest_metric_default() {
    let text = "Iface\tDestination\tGateway\tFlags\tRefCnt\tUse\tMetric\n\
                wlan0\t00000000\t0\t0\t0\t100\t0\n\
                eth0\t00000000\t0\t0\t0\t50\t0\n\
                eth1\t0101A8C0\t0\t0\t0\t1\t0\n";
    assert_eq!(active_interface(text), Some(String::from("eth0")));
    assert_eq!(active_interface("Iface\n"), None);
}

#[test]
fn network_update_states() {
    let mut b = network::Block {
        base: Base::new(),
        wifi: String::from("wifi "),
        ethernet: String::from("eth"),
    };
    b.update(false, None);
    assert!(matches!(b.base.value, Value::Invalid));
    b.update(true, Some(88));
    assert!(matches!(b.base.value, Value::Int(88)));
    assert_eq!(b.base.iprefix, "wifi ");
    assert_eq!(b.base.isuffix, "%");
    b.update(true, None);
    match &b.base.value {
        Value::Str(s) => assert_eq!(s, "eth"),
        _ => panic!("expected wired fallback"),
    }
    assert_eq!(b.base.iprefix, "");
}

fn volume_block() -> volume::Block {
    volume::Block {
        base: Base::new(),
        mixer: String::from("Master"),
        card: String::from("default"),
        jack_icons: Vec::new(),
        jack_only: Vec::new(),
        alsa_jack_switch_outputs: false,
        alsa_jack_mute_on_unplug: false,
        alsa_jack_unmute_on_plug: false,
        jack_plugged: false,
        master_exists: false,
        service: None,
    }
}

#[test]
fn volume_without_backend_stays_invalid() {
    let mut b = volume_block();
    b.update();
    assert!(b.service.is_none());
    assert!(matches!(b.base.value, Value::Invalid));
}

#[test]
fn volume_stub_service_reports_nothing() {
    let mut b = volume_block();
    b.service = Some(Service::Alsa(AlsaDevice {}));
    b.handle_events();
    assert!(matches!(b.base.value, Value::Invalid));
    assert!(!b.jack_plugged);
}

#[test]
fn stub_devices_never_connect() {
    assert!(AlsaDevice::new("default").is_none());
    assert!(PulseDevice::new().is_none());
    assert!(PipewireDevice::new().is_none());
    let d = AlsaDevice {};
    assert_eq!(d.id(), "unimplemented");
    assert_eq!(d.sink_name(), "");
    assert!(d.volume("Master").is_none());
    assert!(d.jack_plugged().is_none());
    assert!(!d.mixer_exists("Master"));
}

#[test]
fn backend_caches_start_empty() {
    let pw = PipewireCache::new();
    assert_eq!(pw.sink_name, "");
    assert!(pw.volume.is_none());
    assert!(pw.jack_plugged.is_none());
    let pulse = PulseCache::new();
    assert_eq!(pulse.sink_name, "");
    assert!(pulse.volume.is_none());
}

#[test]
fn pipewire_cache_tracks_reports() {
    let mut c = PipewireCache::new();
    c.update_vol(Volume { mute: false, volume: 55 });
    assert_eq!(c.volume, Some(55));
    c.update_vol(Volume { mute: true, volume: 55 });
    assert_eq!(c.volume, None);
    c.update_name(String::from("Speakers"));
    assert_eq!(c.sink_name, "Speakers");
    let fresh = Volume::new();
    assert!(fresh.mute);
    assert_eq!(fresh.volume, 0);
}

#[test]
fn wifi_malformed_lines_are_errors() {
    assert_eq!(parse_wifi_str("wlan0", "wlan0:"), Err(()));
    assert_eq!(parse_wifi_str("wlan0", "wlan0: 00 ."), Err(()));
    assert_eq!(parse_wifi_str("wlan0", "wlan0: 00 x7."), Err(()));
    assert_eq!(parse_wifi_str("wlan0", ""), Err(()));
}

#[test]
fn cpuload_backward_counters_are_invalid() {
    let mut b = cpuload::Block {
        base: Base::new(),
        prev: Some(CpuStat { idle: 100, total: 200 }),
    };
    b.update(Some("cpu 10 0 0 100 0 0"));
    assert!(matches!(b.base.value, Value::Invalid));
    assert_eq!(b.prev.as_ref().map(|p| p.total), Some(110));
}

#[test]
fn cpuload_absent_report_changes_nothing() {
    let mut b = cpuload::Block { base: Base::new(), prev: None };
    b.base.value = Value::Int(5);
    b.update(None);
    assert!(matches!(b.base.value, Value::Int(5)));
}

#[test]
fn route_heading_and_non_default_lines_are_skipped() {
    let text = "eth1\t0101A8C0\t0\t0\t0\t1\t0\n";
    assert_eq!(active_interface(text), None);
    assert_eq!(active_interface(""), None);
}
