use audir::api::ChannelMask;
use audir::api::FormFactor;
use audir::api::Format;
use audir::api::FrameDesc;
use audir::api::StreamFlags;
use audir::handle::Handle;
use audir::registry::EndpointReport;
use audir::registry::Registry;

fn report(key: &str, input: bool, output: bool) -> EndpointReport {
    EndpointReport {
        key: key.to_string(),
        device_name: format!("endpoint {key}"),
        streams: StreamFlags { input, output },
        form_factor: FormFactor::Unknown,
        active: true,
        sample_rates: vec![44100, 48000],
        channel_counts: vec![1, 2],
        formats: vec![Format::F32, Format::I16],
        default_format: FrameDesc {
            format: Format::F32,
            sample_rate: 48000,
            channels: ChannelMask { front_left: true, front_right: true, front_center: false },
        },
        buffer_size: 512,
        default_input: input,
        default_output: output,
    }
}

#[test]
fn merge_unions_direction_flags_per_key() {
    // the same endpoint reported once per direction scan ends up as one
    // slot carrying both capabilities
    let mut reg = Registry::new();
    assert!(reg.merge_report(&report("default", false, true)));
    assert!(reg.merge_report(&report("default", true, false)));
    assert_eq!(reg.entries.len(), 1);
    assert_eq!(reg.entries[0].streams, StreamFlags { input: true, output: true });

    assert!(reg.merge_report(&report("second", true, false)));
    assert_eq!(reg.entries.len(), 2);
}

#[test]
fn invalid_reports_are_rejected() {
    let mut reg = Registry::new();
    let mut no_rates = report("a", false, true);
    no_rates.sample_rates = Vec::new();
    assert!(!reg.merge_report(&no_rates));

    let mut silly_counts = report("b", false, true);
    silly_counts.channel_counts = vec![9];
    assert!(!reg.merge_report(&silly_counts));

    let mut zero_buffer = report("c", false, true);
    zero_buffer.buffer_size = 0;
    assert!(!reg.merge_report(&zero_buffer));

    assert_eq!(reg.entries.len(), 0);
}

#[test]
fn default_format_must_be_advertised() {
    let mut reg = Registry::new();
    let mut odd_default = report("a", false, true);
    odd_default.default_format.sample_rate = 96000; // not in sample_rates
    assert!(!reg.merge_report(&odd_default));
}

#[test]
fn handles_resolve_until_invalidated() {
    let mut reg = Registry::new();
    assert!(reg.merge_report(&report("default", false, true)));
    let h = reg.handle_of(0);
    assert_eq!(reg.resolve(h), Some(0));

    reg.invalidate(0);
    // the old handle is stale now
    assert_eq!(reg.resolve(h), None);
    assert!(!reg.entries[0].active);
    // the slot's new generation yields a fresh, resolvable handle
    let fresh = reg.handle_of(0);
    assert_eq!(reg.resolve(fresh), Some(0));
    assert_ne!(h, fresh);
}

#[test]
fn handle_packing_matches_slot() {
    let mut reg = Registry::new();
    assert!(reg.merge_report(&report("a", false, true)));
    assert!(reg.merge_report(&report("b", true, false)));
    let h1 = Handle::from_raw(reg.handle_of(1));
    assert_eq!(h1.index, 1);
    assert_eq!(h1.generation, 0);
}

#[test]
fn preferred_endpoints_per_direction() {
    let mut reg = Registry::new();
    assert!(reg.merge_report(&report("out", false, true)));
    assert!(reg.merge_report(&report("in", true, false)));
    assert_eq!(reg.find_default(false), Some(0));
    assert_eq!(reg.find_default(true), Some(1));

    reg.invalidate(1);
    assert_eq!(reg.find_default(true), None);
}

#[test]
fn active_handles_skip_dead_slots() {
    let mut reg = Registry::new();
    assert!(reg.merge_report(&report("a", false, true)));
    assert!(reg.merge_report(&report("b", false, true)));
    reg.invalidate(0);
    let live = reg.active_handles();
    assert_eq!(live.len(), 1);
    assert_eq!(reg.resolve(live[0]), Some(1));
}
