use audio_relay::endpoint::{collect_named, Directory, Endpoint, Role, SampleRepr, StreamFormat};

fn fmt(channels: u16, rate: u32) -> StreamFormat {
    StreamFormat { channel_count: channels, sample_rate: rate, representation: SampleRepr::F32 }
}

fn endpoint(role: Role, name: &str, channels: u16, rate: u32) -> Endpoint {
    Endpoint { role, name: String::from(name), default_format: fmt(channels, rate) }
}

#[test]
fn names_follow_enumeration_order() {
    let dir = Directory {
        endpoints: vec![
            endpoint(Role::Capture, "Mic", 2, 48000),
            endpoint(Role::Render, "Speakers", 2, 48000),
            endpoint(Role::Capture, "Line In", 2, 44100),
            endpoint(Role::Render, "Headphones", 2, 44100),
        ],
    };
    let (capture, render) = dir.list_endpoints();
    assert_eq!(capture, vec![String::from("Mic"), String::from("Line In")]);
    assert_eq!(render, vec![String::from("Speakers"), String::from("Headphones")]);
}

#[test]
fn empty_directory_lists_nothing() {
    let dir = Directory { endpoints: Vec::new() };
    let (capture, render) = dir.list_endpoints();
    assert!(capture.is_empty());
    assert!(render.is_empty());
}

#[test]
fn host_duplicates_pass_through() {
    let dir = Directory {
        endpoints: vec![
            endpoint(Role::Capture, "Mic", 2, 48000),
            endpoint(Role::Capture, "Mic", 1, 44100),
            endpoint(Role::Render, "Mic", 2, 48000),
        ],
    };
    let (capture, render) = dir.list_endpoints();
    assert_eq!(capture, vec![String::from("Mic"), String::from("Mic")]);
    assert_eq!(render, vec![String::from("Mic")]);
}

#[test]
fn roles_do_not_mix() {
    let dir = Directory {
        endpoints: vec![
            endpoint(Role::Render, "Speakers", 2, 48000),
            endpoint(Role::Capture, "Mic", 2, 48000),
        ],
    };
    let (capture, render) = dir.list_endpoints();
    assert_eq!(capture, vec![String::from("Mic")]);
    assert_eq!(render, vec![String::from("Speakers")]);
}

#[test]
fn failed_name_lookups_are_skipped_silently() {
    let lookups = vec![
        Some(String::from("Mic")),
        None,
        Some(String::from("Line In")),
        None,
    ];
    let names = collect_named(&lookups);
    assert_eq!(names, vec![String::from("Mic"), String::from("Line In")]);
}

#[test]
fn all_lookups_failed_yields_empty() {
    let lookups: Vec<Option<String>> = vec![None, None];
    assert!(collect_named(&lookups).is_empty());
}
