use netmic::pactl::{
    contains_text, find_module_in_listing, listing_has_source, module_id_from_output,
    null_sink_args, parse_virtual_mic_state, remap_source_args, split_words,
    strip_quotes_str, virtual_mic_state_text,
};
use netmic::pactl::{MicAction, MicCreation, MicEvent, MicRemoval};
use netmic::server::VirtualMicConfig;

fn config() -> VirtualMicConfig {
    VirtualMicConfig {
        state_path: "/tmp/netmic_virtual_mic.env".to_string(),
        sink_name: "netmic_sink".to_string(),
        source_name: "netmic_source".to_string(),
        sink_desc: "NetMic_Virtual_Sink".to_string(),
        source_desc: "NetMic_Virtual_Mic".to_string(),
    }
}

#[test]
fn words_split_on_any_white_space() {
    assert_eq!(split_words(""), Vec::<String>::new());
    assert_eq!(split_words("  \t "), Vec::<String>::new());
    assert_eq!(split_words(" 12\tmodule-null-sink  a=b \r"), vec!["12", "module-null-sink", "a=b"]);
}

#[test]
fn text_search() {
    assert!(contains_text("sink_name=netmic_sink x", "sink_name=netmic_sink"));
    assert!(contains_text("abc", ""));
    assert!(!contains_text("ab", "abc"));
    assert!(!contains_text("sink_name=other", "sink_name=netmic_sink"));
}

#[test]
fn module_listing_lookup() {
    let listing = "3\tmodule-null-sink\tsink_name=other\n\
                   17\tmodule-null-sink\tsink_name=netmic_sink sink_properties=device.description=X\n\
                   18\tmodule-remap-source\tmaster=netmic_sink.monitor source_name=netmic_source\n";
    assert_eq!(
        find_module_in_listing(listing, "module-null-sink", "sink_name=netmic_sink"),
        Some("17".to_string())
    );
    assert_eq!(
        find_module_in_listing(listing, "module-remap-source", "source_name=netmic_source"),
        Some("18".to_string())
    );
    assert_eq!(find_module_in_listing(listing, "module-null-sink", "sink_name=none"), None);
    // A line with fewer than two words ends the search.
    let broken = "3\tmodule-null-sink\tsink_name=a\n\n4\tmodule-null-sink\tsink_name=b\n";
    assert_eq!(find_module_in_listing(broken, "module-null-sink", "sink_name=b"), None);
    assert_eq!(find_module_in_listing("", "module-null-sink", "x"), None);
}

#[test]
fn source_listing_lookup() {
    let listing = "0\talsa_input.pci\tmodule-alsa-card.c\ts16le 2ch 44100Hz\tSUSPENDED\r\n\
                   5\tnetmic_source\tmodule-remap-source.c\ts16le 1ch 48000Hz\tRUNNING\r\n";
    assert!(listing_has_source(listing, "netmic_source"));
    assert!(!listing_has_source(listing, "netmic"));
    assert!(!listing_has_source("", "netmic_source"));
    assert!(!listing_has_source("netmic_source\n", "netmic_source"));
}

#[test]
fn state_file_round_trip() {
    let text = virtual_mic_state_text(&config(), "17", "18");
    assert_eq!(
        text,
        "SINK_MODULE_ID=\"17\"\nSOURCE_MODULE_ID=\"18\"\nSINK_NAME=\"netmic_sink\"\nSOURCE_NAME=\"netmic_source\"\n"
    );
    assert_eq!(parse_virtual_mic_state(&text), ("17".to_string(), "18".to_string()));
}

#[test]
fn state_file_reading() {
    assert_eq!(parse_virtual_mic_state(""), (String::new(), String::new()));
    assert_eq!(
        parse_virtual_mic_state("SOURCE_MODULE_ID=9\r\nSINK_MODULE_ID=\"\"1\"\"\nSINK_MODULE_ID=2"),
        ("2".to_string(), "9".to_string())
    );
    assert_eq!(strip_quotes_str("\"\"a\"b\""), "a\"b");
    assert_eq!(strip_quotes_str("\"\""), "");
}

#[test]
fn module_arguments() {
    assert_eq!(
        null_sink_args(&config()),
        vec!["sink_name=netmic_sink", "sink_properties=device.description=NetMic_Virtual_Sink"]
    );
    assert_eq!(
        remap_source_args(&config()),
        vec![
            "master=netmic_sink.monitor",
            "source_name=netmic_source",
            "source_properties=device.description=NetMic_Virtual_Mic"
        ]
    );
}

#[test]
fn module_id_output() {
    assert_eq!(module_id_from_output(" 42\n"), Ok("42".to_string()));
    assert_eq!(
        module_id_from_output(" \n"),
        Err("pactl load-module returned empty module id".to_string())
    );
}

fn step_create(state: MicCreation, event: MicEvent) -> (MicCreation, MicAction) {
    assert!(state.expects(&event));
    state.next(&config(), event)
}

fn step_remove(state: MicRemoval, event: MicEvent) -> (MicRemoval, MicAction) {
    assert!(state.expects(&event));
    state.next(&config(), event)
}

#[test]
fn creation_when_source_exists_does_nothing() {
    let (s, a) = step_create(MicCreation::Probing, MicEvent::Probed(Ok(true)));
    assert!(matches!(a, MicAction::Finish));
    assert!(matches!(s, MicCreation::Done(Ok(false))));
}

#[test]
fn creation_loads_checks_and_records() {
    let (s, a) = step_create(MicCreation::Probing, MicEvent::Probed(Ok(false)));
    assert!(matches!(a, MicAction::LoadSink));
    let (s, a) = step_create(s, MicEvent::Loaded(Ok("17".to_string())));
    assert!(matches!(a, MicAction::LoadSource));
    let (s, a) = step_create(s, MicEvent::Loaded(Ok("18".to_string())));
    assert!(matches!(a, MicAction::ProbeSource));
    let (s, a) = step_create(s, MicEvent::Probed(Ok(true)));
    match a {
        MicAction::WriteState(text) => assert_eq!(
            text,
            "SINK_MODULE_ID=\"17\"\nSOURCE_MODULE_ID=\"18\"\nSINK_NAME=\"netmic_sink\"\nSOURCE_NAME=\"netmic_source\"\n"
        ),
        other => panic!("unexpected {other:?}"),
    }
    let (s, a) = step_create(s, MicEvent::Written(Ok(())));
    assert!(matches!(a, MicAction::Finish));
    assert!(matches!(s, MicCreation::Done(Ok(true))));
}

#[test]
fn creation_rolls_back_when_source_missing() {
    let s = MicCreation::Checking { sink_id: "17".to_string(), source_id: "18".to_string() };
    let (s, a) = step_create(s, MicEvent::Probed(Ok(false)));
    assert!(matches!(a, MicAction::Unload(ref id) if id == "18"));
    let (s, a) = step_create(s, MicEvent::Unloaded(Err("ignored".to_string())));
    assert!(matches!(a, MicAction::Unload(ref id) if id == "17"));
    let (s, a) = step_create(s, MicEvent::Unloaded(Ok(())));
    assert!(matches!(a, MicAction::Finish));
    match s {
        MicCreation::Done(Err(e)) => {
            assert_eq!(e, "created virtual mic but source not found: netmic_source")
        }
        other => panic!("unexpected {other:?}"),
    }
}

#[test]
fn creation_unloads_sink_when_source_fails_to_load() {
    let s = MicCreation::LoadingSource { sink_id: "17".to_string() };
    let (s, a) = step_create(s, MicEvent::Loaded(Err("pactl load-module failed: x".to_string())));
    assert!(matches!(a, MicAction::Unload(ref id) if id == "17"));
    let (s, _) = step_create(s, MicEvent::Unloaded(Ok(())));
    assert!(matches!(s, MicCreation::Done(Err(ref e)) if e == "pactl load-module failed: x"));
    let (s, _) = step_create(MicCreation::LoadingSink, MicEvent::Loaded(Err("no".to_string())));
    assert!(matches!(s, MicCreation::Done(Err(ref e)) if e == "no"));
    assert!(!MicCreation::LoadingSink.expects(&MicEvent::Probed(Ok(true))));
}

#[test]
fn removal_uses_state_file_ids() {
    let text = "SINK_MODULE_ID=\"17\"\nSOURCE_MODULE_ID=\"18\"\n".to_string();
    let (s, a) = step_remove(MicRemoval::Reading, MicEvent::StateRead(text));
    assert!(matches!(a, MicAction::Unload(ref id) if id == "18"));
    let (s, a) = step_remove(s, MicEvent::Unloaded(Ok(())));
    assert!(matches!(a, MicAction::Unload(ref id) if id == "17"));
    let (s, a) = step_remove(s, MicEvent::Unloaded(Ok(())));
    assert!(matches!(a, MicAction::RemoveState));
    let (s, a) = step_remove(s, MicEvent::StateRemoved);
    assert!(matches!(a, MicAction::ProbeSource));
    let (s, a) = step_remove(s, MicEvent::Probed(Ok(false)));
    assert!(matches!(a, MicAction::Finish));
    assert!(matches!(s, MicRemoval::Done(Ok(()))));
}

#[test]
fn removal_looks_up_missing_ids_and_reports_leftovers() {
    let (s, a) = step_remove(MicRemoval::Reading, MicEvent::StateRead(String::new()));
    assert!(matches!(a, MicAction::FindSink));
    let (s, a) = step_remove(s, MicEvent::Found(None));
    assert!(matches!(a, MicAction::FindSource));
    let (s, a) = step_remove(s, MicEvent::Found(Some("21".to_string())));
    assert!(matches!(a, MicAction::Unload(ref id) if id == "21"));
    let (s, a) = step_remove(s, MicEvent::Unloaded(Ok(())));
    assert!(matches!(a, MicAction::RemoveState));
    let (s, _) = step_remove(s, MicEvent::StateRemoved);
    let (s, _) = step_remove(s, MicEvent::Probed(Ok(true)));
    assert!(matches!(s, MicRemoval::Done(Err(ref e))
        if e == "virtual mic still exists after remove: netmic_source"));
    let s = MicRemoval::UnloadingSink;
    let (s, _) = step_remove(s, MicEvent::Unloaded(Err("denied".to_string())));
    assert!(matches!(s, MicRemoval::Done(Err(ref e)) if e == "denied"));
}
