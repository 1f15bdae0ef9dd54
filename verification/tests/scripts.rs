use cherryrgb::protocol::{
    encode_report, fetch_device_state, is_mid_transaction, reset_custom_colors,
    set_custom_colors, set_led_animation, Action, Event, Transfer,
};
use cherryrgb::{Brightness, CustomKeyLeds, LightingMode, OwnRGB8, Payload, Speed};

fn keymap(data_len: u8, data_offset: u16) -> Payload {
    Payload::GetKeymap { data_len, data_offset, padding: 0, keymap: vec![] }
}

fn key_indexes(data_len: u8, data_offset: u16) -> Payload {
    Payload::GetKeyIndexes { data_len, data_offset, padding: 0, key_data: vec![] }
}

fn custom_mode() -> Vec<Payload> {
    vec![
        Payload::TransactionStart,
        Payload::SetAnimation {
            unknown: [0x09, 0x00, 0x00, 0x55, 0x00],
            mode: LightingMode::Custom,
            brightness: Brightness::Full,
            speed: Speed::Slow,
            pad: 0,
            rainbow: 0,
            color: OwnRGB8::new(0, 0, 0),
        },
        Payload::SetAnimation {
            unknown: [0x01, 0x18, 0x00, 0x55, 0x01],
            mode: LightingMode::Wave,
            brightness: Brightness::Off,
            speed: Speed::VeryFast,
            pad: 0,
            rainbow: 0,
            color: OwnRGB8::new(0, 0, 0),
        },
        Payload::TransactionEnd,
    ]
}

#[test]
fn fetch_device_state_replays_the_capture() {
    assert_eq!(
        fetch_device_state(),
        vec![
            Payload::TransactionStart,
            Payload::Unknown3 { unk: 0x22 },
            keymap(0x38, 0x00),
            keymap(0x38, 0x38),
            keymap(0x38, 0x70),
            keymap(0x38, 0xA8),
            keymap(0x38, 0xE0),
            keymap(0x38, 0x118),
            keymap(0x2A, 0x150),
            key_indexes(0x38, 0x00),
            key_indexes(0x38, 0x38),
            key_indexes(0x0E, 0x70),
            Payload::TransactionEnd,
        ]
    );
}

#[test]
fn animation_script_has_main_and_companion_payload() {
    let script = set_led_animation(
        LightingMode::Rain,
        Brightness::Full,
        Speed::Slow,
        OwnRGB8::new(0, 0xFF, 0),
        true,
    );
    assert_eq!(
        script,
        vec![
            Payload::TransactionStart,
            Payload::SetAnimation {
                unknown: [0x09, 0x00, 0x00, 0x55, 0x00],
                mode: LightingMode::Rain,
                brightness: Brightness::Full,
                speed: Speed::Slow,
                pad: 0,
                rainbow: 1,
                color: OwnRGB8::new(0, 0xFF, 0),
            },
            Payload::SetAnimation {
                unknown: [0x01, 0x18, 0x00, 0x55, 0x01],
                mode: LightingMode::Wave,
                brightness: Brightness::Off,
                speed: Speed::VeryFast,
                pad: 0,
                rainbow: 0,
                color: OwnRGB8::new(0, 0, 0),
            },
            Payload::TransactionEnd,
        ]
    );
    assert_eq!(
        set_led_animation(
            LightingMode::Custom,
            Brightness::Full,
            Speed::Slow,
            OwnRGB8::new(0, 0, 0),
            false
        ),
        custom_mode()
    );
}

#[test]
fn custom_colors_script_has_two_transactions() {
    let mut table = CustomKeyLeds::new();
    table.set_led(42, OwnRGB8::new(0, 0xFF, 0)).expect("in bounds");
    let chunks = table.clone().get_payloads().expect("chunking does not fail");
    let script = set_custom_colors(table);
    assert_eq!(script.len(), 13);
    assert_eq!(script[..4], custom_mode()[..]);
    assert_eq!(script[4], Payload::TransactionStart);
    assert_eq!(script[5..12], chunks[..]);
    assert_eq!(script[12], Payload::TransactionEnd);
    let mut last_offset = None;
    for payload in &script[5..12] {
        match payload {
            Payload::SetCustomLED { data_offset, .. } => {
                assert!(last_offset < Some(*data_offset));
                last_offset = Some(*data_offset);
            }
            other => panic!("not a chunk: {:?}", other),
        }
    }
}

#[test]
fn reset_script_ends_with_two_queries() {
    let script = reset_custom_colors();
    assert_eq!(script.len(), 15);
    assert_eq!(script[..13], set_custom_colors(CustomKeyLeds::new())[..]);
    assert_eq!(script[13], Payload::Unknown5 { unk: 0x01 });
    assert_eq!(script[14], Payload::Unknown5 { unk: 0x19 });
}

#[test]
fn transaction_state_follows_the_markers() {
    let script = reset_custom_colors();
    let open: Vec<bool> = (0..=script.len()).map(|sent| is_mid_transaction(&script, sent)).collect();
    assert_eq!(
        open,
        vec![
            false, true, true, true, false, true, true, true, true, true, true, true, true, false,
            false, false
        ]
    );
    assert!(!is_mid_transaction(&script, 16));
    let script = fetch_device_state();
    assert!(!is_mid_transaction(&script, 0));
    assert!(is_mid_transaction(&script, 1));
    assert!(is_mid_transaction(&script, 12));
    assert!(!is_mid_transaction(&script, 13));
}

#[test]
fn transfer_sends_the_script_in_order() {
    let script = fetch_device_state();
    let (mut transfer, mut action) = Transfer::begin(script.clone());
    for payload in &script {
        assert_eq!(action, Action::Send(encode_report(payload)));
        action = transfer.step(Event::Delivered);
    }
    assert_eq!(action, Action::Done);
    assert_eq!(transfer.step(Event::Delivered), Action::Done);
    assert_eq!(transfer.step(Event::Failed), Action::Abort { sent: 13, mid_transaction: false });
}

#[test]
fn transfer_of_nothing_is_done_at_once() {
    let (mut transfer, action) = Transfer::begin(vec![]);
    assert_eq!(action, Action::Done);
    assert_eq!(transfer.step(Event::Delivered), Action::Done);
}

#[test]
fn transfer_is_given_up_on_the_first_failure() {
    let (mut transfer, _) = Transfer::begin(custom_mode());
    assert_eq!(transfer.step(Event::Failed), Action::Abort { sent: 0, mid_transaction: false });
    let (mut transfer, _) = Transfer::begin(custom_mode());
    transfer.step(Event::Delivered);
    transfer.step(Event::Delivered);
    assert_eq!(transfer.step(Event::Failed), Action::Abort { sent: 2, mid_transaction: true });
    // A failure changes nothing: the next payload is still the third.
    assert_eq!(
        transfer.step(Event::Delivered),
        Action::Send(encode_report(&Payload::TransactionEnd))
    );
    assert_eq!(transfer.step(Event::Delivered), Action::Done);
    assert_eq!(transfer.step(Event::Failed), Action::Abort { sent: 4, mid_transaction: false });
}
