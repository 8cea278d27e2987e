use whatsapp_unofficial::audio::{
    pactl_arguments, pactl_listing, parse_pactl_output, AudioDevice, AudioSource, PactlOutput,
};
use whatsapp_unofficial::text::is_white_space_char;

fn pairs(devices: &[AudioDevice]) -> Vec<(String, String)> {
    devices.iter().map(|d| (d.id.clone(), d.name.clone())).collect()
}

/// The listing as the standard library's `lines` and `split_whitespace` read it.
fn reference(output: &str) -> Vec<(String, String)> {
    output
        .lines()
        .filter_map(|line| {
            let parts: Vec<&str> = line.split_whitespace().collect();
            if parts.len() < 2 {
                None
            } else {
                Some((parts[0].to_string(), parts[1].to_string()))
            }
        })
        .collect()
}

#[test]
fn parses_sources_listing() {
    let out = "52\talsa_output.pci-0000_00_1f.3.analog-stereo.monitor\tPipeWire\ts32le 2ch 48000Hz\tSUSPENDED\n\
               53\talsa_input.pci-0000_00_1f.3.analog-stereo\tPipeWire\ts32le 2ch 48000Hz\tRUNNING\n";
    let devices = parse_pactl_output(out);
    assert_eq!(
        pairs(&devices),
        vec![
            ("52".to_string(), "alsa_output.pci-0000_00_1f.3.analog-stereo.monitor".to_string()),
            ("53".to_string(), "alsa_input.pci-0000_00_1f.3.analog-stereo".to_string()),
        ]
    );
}

#[test]
fn skips_lines_with_fewer_than_two_fields() {
    let devices = parse_pactl_output("\n7\n   \n8 speaker\nlonely\n");
    assert_eq!(pairs(&devices), vec![("8".to_string(), "speaker".to_string())]);
}

#[test]
fn empty_listing_has_no_devices() {
    assert!(parse_pactl_output("").is_empty());
    assert!(parse_pactl_output("\n\n\r\n").is_empty());
}

#[test]
fn handles_crlf_and_leading_space() {
    let devices = parse_pactl_output("  1   mic  extra\r\n2\tsink\r");
    assert_eq!(
        pairs(&devices),
        vec![("1".to_string(), "mic".to_string()), ("2".to_string(), "sink".to_string())]
    );
}

#[test]
fn splits_on_unicode_white_space() {
    let devices = parse_pactl_output("9\u{3000}caf\u{e9}\u{a0}rest");
    assert_eq!(pairs(&devices), vec![("9".to_string(), "caf\u{e9}".to_string())]);
}

#[test]
fn agrees_with_std_lines_and_split_whitespace() {
    let samples = [
        "a b\nc d",
        "a b\r\nc d\r\n",
        "a\rb c\n",
        "x y\r",
        "\r\n\r\n p q \r\n",
        "1 2 3\n\n4\n5 6",
        "\u{85}a\u{2028}b\u{1680}c",
        "a\u{200b}b c",
        "one\u{b}two\u{c}three",
        "only\n",
        "\n\n",
        "tab\there\nspace there\n\u{3000}\u{3000}w z",
    ];
    for s in samples {
        assert_eq!(pairs(&parse_pactl_output(s)), reference(s), "listing {:?}", s);
    }
}

#[test]
fn white_space_matches_std() {
    for code in 0u32..=0x10FFFF {
        if let Some(c) = char::from_u32(code) {
            assert_eq!(is_white_space_char(c), c.is_whitespace(), "char {:#x}", code);
        }
    }
}

#[test]
fn joined_listings_give_joined_devices() {
    let first = "1 mic x\n\n2";
    let second = "3 speaker\r\n4 headset y";
    let joined = format!("{}\n{}", first, second);
    let mut expected = pairs(&parse_pactl_output(first));
    expected.extend(pairs(&parse_pactl_output(second)));
    assert_eq!(pairs(&parse_pactl_output(&joined)), expected);
}

#[test]
fn device_fields_are_words() {
    for d in parse_pactl_output(" 1 a\u{2000}b\n2\u{9}c d \n") {
        assert!(!d.id.is_empty() && !d.name.is_empty());
        assert!(!d.id.chars().any(char::is_whitespace));
        assert!(!d.name.chars().any(char::is_whitespace));
    }
}

#[test]
fn pactl_arguments_for_inputs_and_outputs() {
    assert_eq!(pactl_arguments(AudioSource::Inputs), vec!["list", "sources", "short"]);
    assert_eq!(pactl_arguments(AudioSource::Outputs), vec!["list", "sinks", "short"]);
}

#[test]
fn listing_reports_spawn_failure() {
    let r = pactl_listing(Err("No such file or directory (os error 2)".to_string()));
    assert_eq!(r.err().unwrap(), "Failed to run pactl: No such file or directory (os error 2)");
}

#[test]
fn listing_reports_exit_failure() {
    let out = PactlOutput {
        success: false,
        status: "exit status: 1".to_string(),
        stdout: Vec::new(),
        stderr: b"Connection failure: Connection refused\n".to_vec(),
    };
    assert_eq!(
        pactl_listing(Ok(out)).err().unwrap(),
        "pactl exited with status exit status: 1: Connection failure: Connection refused\n"
    );
}

#[test]
fn listing_parses_successful_output() {
    let out = PactlOutput {
        success: true,
        status: "exit status: 0".to_string(),
        stdout: b"5\tbuilt-in\tmodule\n6\tusb\tmodule\n".to_vec(),
        stderr: Vec::new(),
    };
    let devices = pactl_listing(Ok(out)).ok().unwrap();
    assert_eq!(
        pairs(&devices),
        vec![("5".to_string(), "built-in".to_string()), ("6".to_string(), "usb".to_string())]
    );
}

#[test]
fn listing_replaces_invalid_utf8() {
    let out = PactlOutput {
        success: true,
        status: "exit status: 0".to_string(),
        stdout: vec![b'7', b' ', b'a', 0xff, b'b', b'\n'],
        stderr: Vec::new(),
    };
    let devices = pactl_listing(Ok(out)).ok().unwrap();
    assert_eq!(pairs(&devices), vec![("7".to_string(), "a\u{fffd}b".to_string())]);
}
