use mac_window::keyboard::{
    capslock_from_flags, inserts_held_text, is_ime_input_source_active, printable, InputSource,
    KeyDownEvent, KeyInput, KeyRequest, KeyStep, KeyboardState, Keystroke, Modifiers, PendingKey,
};

fn no_modifiers() -> Modifiers {
    Modifiers::from_flags(0)
}

fn command() -> Modifiers {
    Modifiers {
        platform: true,
        ..no_modifiers()
    }
}

fn key(key: &str, key_char: Option<&str>, modifiers: Modifiers) -> KeyDownEvent {
    KeyDownEvent {
        keystroke: Keystroke {
            modifiers,
            key: key.to_string(),
            key_char: key_char.map(|text| text.to_string()),
        },
        is_held: false,
        prefer_character_input: false,
    }
}

fn request(step: KeyStep) -> (KeyRequest, PendingKey) {
    match step {
        KeyStep::Request(request, pending) => (request, pending),
        KeyStep::Return(handled) => panic!("returned {handled}"),
    }
}

fn answer(step: KeyStep) -> bool {
    match step {
        KeyStep::Return(handled) => handled,
        KeyStep::Request(request, _) => panic!("requested {request:?}"),
    }
}

struct Replies {
    marked_text: Option<bool>,
    ime_input_source: Option<bool>,
    ime_preference: Option<bool>,
    input_context: bool,
    propagate: bool,
    held_text: Option<bool>,
}

const NOBODY: Replies = Replies {
    marked_text: None,
    ime_input_source: Some(false),
    ime_preference: None,
    input_context: false,
    propagate: true,
    held_text: None,
};

/// Handles an event to its end. Gives the answer and the requests on the way.
fn run(
    keyboard: &mut KeyboardState,
    callback: &mut Option<u64>,
    event: KeyDownEvent,
    key_equivalent: bool,
    replies: &Replies,
) -> (bool, Vec<KeyRequest>) {
    let mut requests = Vec::new();
    let mut step =
        keyboard.handle_key_event(callback, Some(KeyInput::KeyDown(event)), key_equivalent);
    loop {
        match step {
            KeyStep::Return(handled) => return (handled, requests),
            KeyStep::Request(request, pending) => {
                requests.push(request);
                let reply = match request {
                    KeyRequest::MarkedText => replies.marked_text,
                    KeyRequest::ImeInputSource => replies.ime_input_source,
                    KeyRequest::ImePreference => replies.ime_preference,
                    KeyRequest::InputContext => Some(replies.input_context),
                    KeyRequest::Callback(_) => Some(replies.propagate),
                    KeyRequest::HeldText => replies.held_text,
                };
                step = keyboard.resume_key_event(callback, pending, reply);
            }
        }
    }
}

#[test]
fn key_down_after_its_key_equivalent_is_ignored_once() {
    let mut keyboard = KeyboardState::new();
    let mut callback = Some(7);
    let event = || key("s", None, command());
    let (handled, requests) = run(&mut keyboard, &mut callback, event(), true, &NOBODY);
    assert!(!handled);
    assert_eq!(requests, [KeyRequest::MarkedText, KeyRequest::Callback(7)]);
    let (handled, requests) = run(&mut keyboard, &mut callback, event(), false, &NOBODY);
    assert!(!handled);
    assert!(requests.is_empty());
    let (_, requests) = run(&mut keyboard, &mut callback, event(), false, &NOBODY);
    assert_eq!(
        requests,
        [
            KeyRequest::MarkedText,
            KeyRequest::Callback(7),
            KeyRequest::InputContext
        ]
    );
    assert_eq!(callback, Some(7));
}

#[test]
fn handled_key_equivalent_is_ignored_whatever_was_replied() {
    let taken = Replies {
        marked_text: Some(true),
        input_context: true,
        propagate: false,
        ..NOBODY
    };
    for replies in [&NOBODY, &taken] {
        let mut keyboard = KeyboardState::new();
        let mut callback = Some(7);
        let event = || key("s", None, command());
        let (handled, _) = run(&mut keyboard, &mut callback, event(), true, replies);
        assert_eq!(handled, replies.input_context);
        let (handled, requests) = run(&mut keyboard, &mut callback, event(), false, replies);
        assert!(!handled);
        assert!(requests.is_empty());
        assert_eq!(callback, Some(7));
    }
}

#[test]
fn another_key_after_a_key_equivalent_is_not_ignored() {
    let mut keyboard = KeyboardState::new();
    let mut callback = None;
    run(&mut keyboard, &mut callback, key("s", None, command()), true, &NOBODY);
    let (_, requests) =
        run(&mut keyboard, &mut callback, key("t", None, command()), false, &NOBODY);
    assert_eq!(requests, [KeyRequest::MarkedText, KeyRequest::InputContext]);
}

#[test]
fn shortcut_goes_to_the_bindings_first() {
    let mut keyboard = KeyboardState::new();
    let mut callback = Some(1);
    let replies = Replies {
        propagate: false,
        ..NOBODY
    };
    let event = key("s", Some("s"), command());
    let (handled, requests) = run(&mut keyboard, &mut callback, event, true, &replies);
    assert!(handled);
    assert_eq!(requests, [KeyRequest::MarkedText, KeyRequest::Callback(1)]);
}

#[test]
fn printable_key_goes_to_the_bindings_unless_an_input_method_composes() {
    let mut keyboard = KeyboardState::new();
    let mut callback = Some(1);
    let event = || key("j", Some("j"), no_modifiers());
    let (_, requests) = run(&mut keyboard, &mut callback, event(), false, &NOBODY);
    assert_eq!(
        requests,
        [
            KeyRequest::MarkedText,
            KeyRequest::ImeInputSource,
            KeyRequest::Callback(1),
            KeyRequest::InputContext
        ]
    );
    let composing = Replies {
        ime_input_source: Some(true),
        ime_preference: Some(true),
        input_context: true,
        ..NOBODY
    };
    let (handled, requests) = run(&mut keyboard, &mut callback, event(), false, &composing);
    assert!(handled);
    assert_eq!(
        requests,
        [
            KeyRequest::MarkedText,
            KeyRequest::ImeInputSource,
            KeyRequest::ImePreference,
            KeyRequest::InputContext
        ]
    );
    let unwilling = Replies {
        ime_input_source: Some(true),
        ime_preference: None,
        ..NOBODY
    };
    let (_, requests) = run(&mut keyboard, &mut callback, event(), false, &unwilling);
    assert_eq!(requests[3], KeyRequest::Callback(1));
}

#[test]
fn arrow_key_goes_to_the_input_context_first() {
    let mut keyboard = KeyboardState::new();
    let mut callback = Some(1);
    let event = key("up", None, no_modifiers());
    let (handled, requests) = run(&mut keyboard, &mut callback, event, false, &NOBODY);
    assert!(!handled);
    assert_eq!(
        requests,
        [
            KeyRequest::MarkedText,
            KeyRequest::InputContext,
            KeyRequest::Callback(1)
        ]
    );
}

#[test]
fn marked_text_sends_every_key_to_the_input_context_first() {
    let mut keyboard = KeyboardState::new();
    let mut callback = Some(1);
    let replies = Replies {
        marked_text: Some(true),
        input_context: true,
        ..NOBODY
    };
    let event = key("s", Some("s"), command());
    let (handled, requests) = run(&mut keyboard, &mut callback, event, true, &replies);
    assert!(handled);
    assert_eq!(requests, [KeyRequest::MarkedText, KeyRequest::InputContext]);
}

#[test]
fn command_of_the_input_context_replaces_the_second_delivery() {
    let mut keyboard = KeyboardState::new();
    let mut callback = Some(1);
    let event = key("up", None, no_modifiers());
    let step = keyboard.handle_key_event(&mut callback, Some(KeyInput::KeyDown(event)), false);
    let (_, pending) = request(step);
    let step = keyboard.resume_key_event(&mut callback, pending, None);
    let (asked, pending) = request(step);
    assert_eq!(asked, KeyRequest::InputContext);

    let (id, command) = keyboard
        .do_command_by_selector(&mut callback)
        .expect("a keystroke and a callback");
    assert_eq!(id, 1);
    assert_eq!(callback, None);
    assert_eq!(command.keystroke.key, "up");
    assert!(!command.is_held && !command.prefer_character_input);
    assert!(keyboard.do_command_by_selector(&mut callback).is_none());
    keyboard.finish_do_command(&mut callback, id, true);
    assert_eq!(callback, Some(1));

    let step = keyboard.resume_key_event(&mut callback, pending, Some(true));
    assert!(!answer(step));
    assert_eq!(keyboard.do_command_handled, None);
    assert!(keyboard.keystroke_for_do_command.is_none());
}

#[test]
fn held_key_inserts_its_text_when_no_binding_takes_it() {
    let mut keyboard = KeyboardState::new();
    let mut callback = Some(1);
    let replies = Replies {
        held_text: Some(inserts_held_text(false)),
        ..NOBODY
    };
    let event = KeyDownEvent {
        is_held: true,
        ..key("e", Some("e"), no_modifiers())
    };
    let (handled, requests) = run(&mut keyboard, &mut callback, event, false, &replies);
    assert!(handled);
    assert_eq!(requests.last(), Some(&KeyRequest::HeldText));
    assert!(!inserts_held_text(true));
}

#[test]
fn held_key_goes_on_to_the_input_context_when_accents_are_offered() {
    let mut keyboard = KeyboardState::new();
    let mut callback = None;
    let replies = Replies {
        held_text: Some(false),
        input_context: true,
        ..NOBODY
    };
    let event = KeyDownEvent {
        is_held: true,
        ..key("e", Some("e"), no_modifiers())
    };
    let (handled, requests) = run(&mut keyboard, &mut callback, event, false, &replies);
    assert!(handled);
    assert_eq!(
        requests[2..],
        [KeyRequest::HeldText, KeyRequest::InputContext]
    );
}

#[test]
fn key_equivalent_reaches_the_input_context_only_with_the_function_key_alone() {
    let mut keyboard = KeyboardState::new();
    let mut callback = None;
    let (_, requests) =
        run(&mut keyboard, &mut callback, key("`", Some("`"), command()), true, &NOBODY);
    assert_eq!(requests, [KeyRequest::MarkedText]);
    let function = Modifiers {
        function: true,
        ..no_modifiers()
    };
    let (_, requests) =
        run(&mut keyboard, &mut callback, key("f5", None, function), true, &NOBODY);
    assert_eq!(requests, [KeyRequest::MarkedText, KeyRequest::InputContext]);
}

#[test]
fn key_up_goes_to_the_callback_alone() {
    let mut keyboard = KeyboardState::new();
    let mut callback = Some(3);
    let step = keyboard.handle_key_event(&mut callback, Some(KeyInput::KeyUp), false);
    let (asked, pending) = request(step);
    assert_eq!(asked, KeyRequest::Callback(3));
    assert_eq!(callback, None);
    assert!(answer(keyboard.resume_key_event(&mut callback, pending, Some(false))));
    assert_eq!(callback, Some(3));
    let mut none = None;
    assert!(!answer(keyboard.handle_key_event(&mut none, Some(KeyInput::KeyUp), false)));
    assert!(!answer(keyboard.handle_key_event(&mut none, Some(KeyInput::Other), false)));
    assert!(!answer(keyboard.handle_key_event(&mut none, None, false)));
}

#[test]
fn modifier_flags_are_read() {
    let shift = 1 << 17;
    let control = 1 << 18;
    let option = 1 << 19;
    let command = 1 << 20;
    let function = 1 << 23;
    assert_eq!(
        Modifiers::from_flags(shift | command),
        Modifiers {
            control: false,
            alt: false,
            shift: true,
            platform: true,
            function: false
        }
    );
    assert_eq!(
        Modifiers::from_flags(control | option | function),
        Modifiers {
            control: true,
            alt: true,
            shift: false,
            platform: false,
            function: true
        }
    );
    assert!(capslock_from_flags(1 << 16));
    assert!(!capslock_from_flags(shift));
}

#[test]
fn printable_text_holds_no_control_character() {
    for c in (0..0x3000).filter_map(char::from_u32) {
        assert_eq!(printable(&c.to_string()), !c.is_control(), "{c:?}");
    }
    assert!(printable(""));
    assert!(printable("じ"));
    assert!(!printable("a\u{1b}"));
}

#[test]
fn composing_input_source_is_a_mode_without_ascii() {
    let source = |is_input_mode, is_ascii_capable| {
        is_ime_input_source_active(Some(InputSource {
            is_input_mode,
            is_ascii_capable,
        }))
    };
    assert!(source(Some(true), Some(false)));
    assert!(source(Some(true), None));
    assert!(!source(Some(true), Some(true)));
    assert!(!source(Some(false), Some(false)));
    assert!(!source(None, None));
    assert!(!is_ime_input_source_active(None));
}
