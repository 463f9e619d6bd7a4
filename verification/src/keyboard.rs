//! Key events: which of the key bindings and the input method gets a key, and in which order.
//!
//! Handling one key alternates decisions with work of the host (asking the input handler, letting
//! AppKit's input context have the event, running the event callback). A decision is a
//! [`KeyStep`]: the final answer, or a request together with what to hand back with its reply.

use vstd::prelude::*;

verus! {

/// The modifier keys that are held.
#[derive(Clone, Copy, Debug, PartialEq, Eq, Structural)]
pub struct Modifiers {
    pub control: bool,
    pub alt: bool,
    pub shift: bool,
    pub platform: bool,
    pub function: bool,
}

pub const FLAG_CAPS_LOCK: u64 = 0x1_0000;

pub const FLAG_SHIFT: u64 = 0x2_0000;

pub const FLAG_CONTROL: u64 = 0x4_0000;

pub const FLAG_OPTION: u64 = 0x8_0000;

pub const FLAG_COMMAND: u64 = 0x10_0000;

pub const FLAG_FUNCTION: u64 = 0x80_0000;

/// The modifier keys that AppKit's modifier flags stand for.
pub open spec fn modifiers_of(flags: u64) -> Modifiers {
    Modifiers {
        control: flags & FLAG_CONTROL == FLAG_CONTROL,
        alt: flags & FLAG_OPTION == FLAG_OPTION,
        shift: flags & FLAG_SHIFT == FLAG_SHIFT,
        platform: flags & FLAG_COMMAND == FLAG_COMMAND,
        function: flags & FLAG_FUNCTION == FLAG_FUNCTION,
    }
}

impl Modifiers {
    /// Reads the modifier keys from AppKit's modifier flags.
    pub fn from_flags(flags: u64) -> (result: Modifiers)
        ensures
            result == modifiers_of(flags),
            result.control == (flags & FLAG_CONTROL == FLAG_CONTROL),
            result.alt == (flags & FLAG_OPTION == FLAG_OPTION),
            result.shift == (flags & FLAG_SHIFT == FLAG_SHIFT),
            result.platform == (flags & FLAG_COMMAND == FLAG_COMMAND),
            result.function == (flags & FLAG_FUNCTION == FLAG_FUNCTION),
    {
        Modifiers {
            control: flags & FLAG_CONTROL == FLAG_CONTROL,
            alt: flags & FLAG_OPTION == FLAG_OPTION,
            shift: flags & FLAG_SHIFT == FLAG_SHIFT,
            platform: flags & FLAG_COMMAND == FLAG_COMMAND,
            function: flags & FLAG_FUNCTION == FLAG_FUNCTION,
        }
    }

    /// Whether one of the keys is held that make a key a shortcut for the input method: it would
    /// insert control characters, swallow the key, or shadow a menu shortcut.
    pub open spec fn is_shortcut(self) -> bool {
        self.control || self.function || self.platform
    }

    /// Whether the function key, and no other, is held.
    pub open spec fn is_function_only(self) -> bool {
        self == (Modifiers {
            control: false,
            alt: false,
            shift: false,
            platform: false,
            function: true,
        })
    }
}

/// Whether caps lock is on, from AppKit's modifier flags.
pub fn capslock_from_flags(flags: u64) -> (result: bool)
    ensures
        result == (flags & FLAG_CAPS_LOCK == FLAG_CAPS_LOCK),
{
    flags & FLAG_CAPS_LOCK == FLAG_CAPS_LOCK
}

/// A key with its modifiers, and the text that it would type.
#[derive(Debug)]
pub struct Keystroke {
    pub modifiers: Modifiers,
    pub key: String,
    pub key_char: Option<String>,
}

/// The value of a [`Keystroke`].
pub struct KeystrokeView {
    pub modifiers: Modifiers,
    pub key: Seq<char>,
    pub key_char: Option<Seq<char>>,
}

/// The text of an optional string.
pub open spec fn text_of(text: Option<String>) -> Option<Seq<char>> {
    match text {
        Some(text) => Some(text@),
        None => None,
    }
}

impl View for Keystroke {
    type V = KeystrokeView;

    open spec fn view(&self) -> KeystrokeView {
        KeystrokeView {
            modifiers: self.modifiers,
            key: self.key@,
            key_char: text_of(self.key_char),
        }
    }
}

impl Clone for Keystroke {
    fn clone(&self) -> (result: Self)
        ensures
            result == *self,
    {
        Keystroke {
            modifiers: self.modifiers,
            key: self.key.clone(),
            key_char: match &self.key_char {
                Some(text) => Some(text.clone()),
                None => None,
            },
        }
    }
}

/// A key that was pressed.
#[derive(Debug)]
pub struct KeyDownEvent {
    pub keystroke: Keystroke,
    pub is_held: bool,
    pub prefer_character_input: bool,
}

/// The value of a [`KeyDownEvent`].
pub struct KeyDownView {
    pub keystroke: KeystrokeView,
    pub is_held: bool,
    pub prefer_character_input: bool,
}

impl View for KeyDownEvent {
    type V = KeyDownView;

    open spec fn view(&self) -> KeyDownView {
        KeyDownView {
            keystroke: self.keystroke@,
            is_held: self.is_held,
            prefer_character_input: self.prefer_character_input,
        }
    }
}

impl Clone for KeyDownEvent {
    fn clone(&self) -> (result: Self)
        ensures
            result == *self,
    {
        KeyDownEvent {
            keystroke: self.keystroke.clone(),
            is_held: self.is_held,
            prefer_character_input: self.prefer_character_input,
        }
    }
}

impl KeyDownEvent {
    /// Whether two events are the same.
    pub fn same(&self, other: &KeyDownEvent) -> (result: bool)
        ensures
            result == (self@ == other@),
    {
        let same_char: bool = match (&self.keystroke.key_char, &other.keystroke.key_char) {
            (Some(left), Some(right)) => *left == *right,
            (None, None) => true,
            _ => false,
        };
        same_char && self.keystroke.modifiers == other.keystroke.modifiers && self.keystroke.key
            == other.keystroke.key && self.is_held == other.is_held && self.prefer_character_input
            == other.prefer_character_input
    }
}

/// Whether `c` is a control character.
pub open spec fn is_control(c: char) -> bool {
    c as u32 <= 0x1f || 0x7f <= c as u32 <= 0x9f
}

/// Whether `text` is printable: it holds no control character.
pub open spec fn is_printable(text: Seq<char>) -> bool {
    forall|i: int| 0 <= i < text.len() ==> !is_control(#[trigger] text[i])
}

/// Decides [`is_printable`].
pub fn printable(text: &str) -> (result: bool)
    ensures
        result == is_printable(text@),
{
    let length: usize = text.unicode_len();
    let mut i: usize = 0;
    while i < length
        invariant
            i <= length == text@.len(),
            forall|j: int| 0 <= j < i ==> !is_control(#[trigger] text@[j]),
        decreases length - i,
    {
        let code: u32 = text.get_char(i) as u32;
        if code <= 0x1f || (0x7f <= code && code <= 0x9f) {
            assert(is_control(text@[i as int]));
            return false;
        }
        i = i + 1;
    }
    true
}

/// What the host makes of a native key event.
#[derive(Debug)]
pub enum KeyInput {
    KeyDown(KeyDownEvent),
    KeyUp,
    /// Any other event.
    Other,
}

/// Work for the host.
#[derive(Clone, Copy, Debug, PartialEq, Eq, Structural)]
pub enum KeyRequest {
    /// Ask the input handler whether there is marked text.
    MarkedText,
    /// Find out whether a composing input source is active.
    ImeInputSource,
    /// Ask the input handler whether printable keys go to the input method first.
    ImePreference,
    /// Let AppKit's input context handle the native event, and report whether it did.
    InputContext,
    /// Run this event callback on the event, and report whether it lets the event propagate.
    Callback(u64),
    /// Have the input handler insert the text of the held key as far as [`inserts_held_text`]
    /// says, and report whether it was inserted.
    HeldText,
}

/// Where a key-down event waits for a reply.
#[derive(Clone, Copy, Debug, PartialEq, Eq, Structural)]
pub enum KeyStage {
    MarkedText,
    ImeInputSource,
    ImePreference,
    /// The input context has the event before the key bindings.
    InputContextFirst,
    /// The key bindings have the event after the input context.
    CallbackAfterInputContext(u64),
    /// The key bindings have the event before the input context.
    CallbackFirst(u64),
    HeldText,
    /// The input context has the event after the key bindings.
    InputContextLast,
}

/// An event that waits for a reply.
#[derive(Debug)]
pub enum PendingKey {
    Down { event: KeyDownEvent, key_equivalent: bool, stage: KeyStage },
    Up { callback: u64 },
}

/// The value of a [`PendingKey`].
pub enum PendingKeyView {
    Down { event: KeyDownView, key_equivalent: bool, stage: KeyStage },
    Up { callback: u64 },
}

impl View for PendingKey {
    type V = PendingKeyView;

    open spec fn view(&self) -> PendingKeyView {
        match *self {
            PendingKey::Down { event, key_equivalent, stage } => PendingKeyView::Down {
                event: event@,
                key_equivalent,
                stage,
            },
            PendingKey::Up { callback } => PendingKeyView::Up { callback },
        }
    }
}

/// The next step of handling a key event.
#[derive(Debug)]
pub enum KeyStep {
    /// The event is done with; whether it was handled.
    Return(bool),
    /// Do this, and resume with the pending event and the reply.
    Request(KeyRequest, PendingKey),
}

/// The value of a [`KeyStep`].
pub enum KeyStepView {
    Return(bool),
    Request(KeyRequest, PendingKeyView),
}

impl View for KeyStep {
    type V = KeyStepView;

    open spec fn view(&self) -> KeyStepView {
        match *self {
            KeyStep::Return(handled) => KeyStepView::Return(handled),
            KeyStep::Request(request, pending) => KeyStepView::Request(request, pending@),
        }
    }
}

/// What a window remembers between key events.
#[derive(Debug)]
pub struct KeyboardState {
    /// The key-down event that was last processed as a key equivalent.
    pub last_key_equivalent: Option<KeyDownEvent>,
    /// The keystroke that the input context is handling, for [`KeyboardState::do_command_by_selector`].
    pub keystroke_for_do_command: Option<Keystroke>,
    /// Whether the command that the input context asked for was handled.
    pub do_command_handled: Option<bool>,
}

/// The value of a [`KeyboardState`].
pub struct KeyboardView {
    pub last_key_equivalent: Option<KeyDownView>,
    pub keystroke_for_do_command: Option<KeystrokeView>,
    pub do_command_handled: Option<bool>,
}

impl View for KeyboardState {
    type V = KeyboardView;

    open spec fn view(&self) -> KeyboardView {
        KeyboardView {
            last_key_equivalent: match self.last_key_equivalent {
                Some(event) => Some(event@),
                None => None,
            },
            keystroke_for_do_command: match self.keystroke_for_do_command {
                Some(keystroke) => Some(keystroke@),
                None => None,
            },
            do_command_handled: self.do_command_handled,
        }
    }
}

/// The state of the keyboard, the event callback's slot and the next step.
pub struct KeyOutcome {
    pub keyboard: KeyboardView,
    pub callback: Option<u64>,
    pub step: KeyStepView,
}

/// Whether a key that types text may belong to a composing input method.
pub open spec fn may_compose(keystroke: KeystrokeView) -> bool {
    &&& keystroke.key_char is Some
    &&& is_printable(keystroke.key_char->0)
    &&& !keystroke.modifiers.is_shortcut()
}

/// Whether the key types nothing and is no shortcut: the menu of an input method may need it.
pub open spec fn is_menu_key(keystroke: KeystrokeView) -> bool {
    keystroke.key_char is None && !keystroke.modifiers.is_shortcut()
}

/// The event goes to the input context before the key bindings.
pub open spec fn input_context_first(
    keyboard: KeyboardView,
    callback: Option<u64>,
    event: KeyDownView,
    key_equivalent: bool,
) -> KeyOutcome {
    KeyOutcome {
        keyboard: KeyboardView {
            keystroke_for_do_command: Some(event.keystroke),
            do_command_handled: None,
            ..keyboard
        },
        callback,
        step: KeyStepView::Request(
            KeyRequest::InputContext,
            PendingKeyView::Down { event, key_equivalent, stage: KeyStage::InputContextFirst },
        ),
    }
}

/// The key bindings did not want the event, nor was it inserted as the text of a held key. Key
/// equivalents go to the input context only if the function key alone is held.
pub open spec fn input_context_last(
    keyboard: KeyboardView,
    callback: Option<u64>,
    event: KeyDownView,
    key_equivalent: bool,
) -> KeyOutcome {
    KeyOutcome {
        keyboard,
        callback,
        step: if key_equivalent && !event.keystroke.modifiers.is_function_only() {
            KeyStepView::Return(false)
        } else {
            KeyStepView::Request(
                KeyRequest::InputContext,
                PendingKeyView::Down { event, key_equivalent, stage: KeyStage::InputContextLast },
            )
        },
    }
}

/// The key bindings, which had the event first, did not want it.
pub open spec fn after_callback_first(
    keyboard: KeyboardView,
    callback: Option<u64>,
    event: KeyDownView,
    key_equivalent: bool,
) -> KeyOutcome {
    if event.is_held && event.keystroke.key_char is Some {
        KeyOutcome {
            keyboard,
            callback,
            step: KeyStepView::Request(
                KeyRequest::HeldText,
                PendingKeyView::Down { event, key_equivalent, stage: KeyStage::HeldText },
            ),
        }
    } else {
        input_context_last(keyboard, callback, event, key_equivalent)
    }
}

/// The event goes to the key bindings before the input context.
pub open spec fn callback_first(
    keyboard: KeyboardView,
    callback: Option<u64>,
    event: KeyDownView,
    key_equivalent: bool,
) -> KeyOutcome {
    match callback {
        Some(id) => KeyOutcome {
            keyboard,
            callback: None,
            step: KeyStepView::Request(
                KeyRequest::Callback(id),
                PendingKeyView::Down {
                    event,
                    key_equivalent,
                    stage: KeyStage::CallbackFirst(id),
                },
            ),
        },
        None => after_callback_first(keyboard, None, event, key_equivalent),
    }
}

/// The input context, which had the event first, is done.
pub open spec fn after_input_context_first(
    keyboard: KeyboardView,
    callback: Option<u64>,
    event: KeyDownView,
    key_equivalent: bool,
    handled: bool,
) -> KeyOutcome {
    let after = KeyboardView {
        keystroke_for_do_command: None,
        do_command_handled: None,
        ..keyboard
    };
    match keyboard.do_command_handled {
        Some(command_handled) => KeyOutcome {
            keyboard: after,
            callback,
            step: KeyStepView::Return(command_handled),
        },
        None => if handled {
            KeyOutcome { keyboard: after, callback, step: KeyStepView::Return(true) }
        } else {
            match callback {
                Some(id) => KeyOutcome {
                    keyboard: after,
                    callback: None,
                    step: KeyStepView::Request(
                        KeyRequest::Callback(id),
                        PendingKeyView::Down {
                            event,
                            key_equivalent,
                            stage: KeyStage::CallbackAfterInputContext(id),
                        },
                    ),
                },
                None => KeyOutcome {
                    keyboard: after,
                    callback: None,
                    step: KeyStepView::Return(false),
                },
            }
        },
    }
}

/// The first step of handling a key event.
///
/// AppKit dispatches some keys as a key equivalent first and then, if that was not handled, as a
/// key-down event: the latter is ignored if it repeats the former.
pub open spec fn begin_key(
    keyboard: KeyboardView,
    callback: Option<u64>,
    event: Option<KeyInput>,
    key_equivalent: bool,
) -> KeyOutcome {
    match event {
        Some(KeyInput::KeyDown(event)) => {
            let after = KeyboardView {
                last_key_equivalent: if key_equivalent {
                    Some(event@)
                } else {
                    None
                },
                ..keyboard
            };
            if !key_equivalent && keyboard.last_key_equivalent == Some(event@) {
                KeyOutcome { keyboard: after, callback, step: KeyStepView::Return(false) }
            } else {
                KeyOutcome {
                    keyboard: after,
                    callback,
                    step: KeyStepView::Request(
                        KeyRequest::MarkedText,
                        PendingKeyView::Down {
                            event: event@,
                            key_equivalent,
                            stage: KeyStage::MarkedText,
                        },
                    ),
                }
            }
        },
        Some(KeyInput::KeyUp) => match callback {
            Some(id) => KeyOutcome {
                keyboard,
                callback: None,
                step: KeyStepView::Request(
                    KeyRequest::Callback(id),
                    PendingKeyView::Up { callback: id },
                ),
            },
            None => KeyOutcome { keyboard, callback, step: KeyStepView::Return(false) },
        },
        _ => KeyOutcome { keyboard, callback, step: KeyStepView::Return(false) },
    }
}

/// The step that follows a reply. No reply means that nobody could be asked.
pub open spec fn resume_key(
    keyboard: KeyboardView,
    callback: Option<u64>,
    pending: PendingKeyView,
    reply: Option<bool>,
) -> KeyOutcome {
    let yes = reply == Some(true);
    match pending {
        PendingKeyView::Up { callback: id } => KeyOutcome {
            keyboard,
            callback: Some(id),
            step: KeyStepView::Return(reply == Some(false)),
        },
        PendingKeyView::Down { event, key_equivalent, stage } => match stage {
            KeyStage::MarkedText => if yes || is_menu_key(event.keystroke) {
                input_context_first(keyboard, callback, event, key_equivalent)
            } else if may_compose(event.keystroke) {
                KeyOutcome {
                    keyboard,
                    callback,
                    step: KeyStepView::Request(
                        KeyRequest::ImeInputSource,
                        PendingKeyView::Down {
                            event,
                            key_equivalent,
                            stage: KeyStage::ImeInputSource,
                        },
                    ),
                }
            } else {
                callback_first(keyboard, callback, event, key_equivalent)
            },
            KeyStage::ImeInputSource => if yes {
                KeyOutcome {
                    keyboard,
                    callback,
                    step: KeyStepView::Request(
                        KeyRequest::ImePreference,
                        PendingKeyView::Down {
                            event,
                            key_equivalent,
                            stage: KeyStage::ImePreference,
                        },
                    ),
                }
            } else {
                callback_first(keyboard, callback, event, key_equivalent)
            },
            KeyStage::ImePreference => if yes {
                input_context_first(keyboard, callback, event, key_equivalent)
            } else {
                callback_first(keyboard, callback, event, key_equivalent)
            },
            KeyStage::InputContextFirst => after_input_context_first(
                keyboard,
                callback,
                event,
                key_equivalent,
                yes,
            ),
            KeyStage::CallbackAfterInputContext(id) => KeyOutcome {
                keyboard,
                callback: Some(id),
                step: KeyStepView::Return(reply == Some(false)),
            },
            KeyStage::CallbackFirst(id) => if reply == Some(false) {
                KeyOutcome { keyboard, callback: Some(id), step: KeyStepView::Return(true) }
            } else {
                after_callback_first(keyboard, Some(id), event, key_equivalent)
            },
            KeyStage::HeldText => if yes {
                KeyOutcome { keyboard, callback, step: KeyStepView::Return(true) }
            } else {
                input_context_last(keyboard, callback, event, key_equivalent)
            },
            KeyStage::InputContextLast => KeyOutcome {
                keyboard,
                callback,
                step: KeyStepView::Return(yes),
            },
        },
    }
}

/// The event that a command of the input context is turned into.
pub open spec fn command_event(keystroke: KeystrokeView) -> KeyDownView {
    KeyDownView { keystroke, is_held: false, prefer_character_input: false }
}

/// What a command of the input context comes to: the keyboard and the callback's slot after it, and
/// the event to run that callback on. There is one if a keystroke waits for a command and a
/// callback is registered.
pub open spec fn commanded(keyboard: KeyboardView, callback: Option<u64>) -> (
    KeyboardView,
    Option<u64>,
    Option<(u64, KeyDownView)>,
) {
    let after = KeyboardView { keystroke_for_do_command: None, ..keyboard };
    match (keyboard.keystroke_for_do_command, callback) {
        (Some(keystroke), Some(id)) => (after, None, Some((id, command_event(keystroke)))),
        _ => (after, callback, None),
    }
}

/// The keyboard and the callback's slot after that callback has run.
pub open spec fn command_done(keyboard: KeyboardView, id: u64, propagate: bool) -> (
    KeyboardView,
    Option<u64>,
) {
    (KeyboardView { do_command_handled: Some(!propagate), ..keyboard }, Some(id))
}

/// Whether the text of a held key is inserted: not if the system offers accents instead.
pub fn inserts_held_text(press_and_hold_enabled: bool) -> (result: bool)
    ensures
        result == !press_and_hold_enabled,
{
    !press_and_hold_enabled
}

/// A property of the current keyboard input source, as far as the system tells it.
#[derive(Clone, Copy, Debug, PartialEq, Eq, Structural)]
pub struct InputSource {
    /// Whether the source is an input mode rather than a keyboard layout.
    pub is_input_mode: Option<bool>,
    pub is_ascii_capable: Option<bool>,
}

/// Whether an input source composes text.
pub open spec fn composes(source: Option<InputSource>) -> bool {
    match source {
        Some(source) => source.is_input_mode == Some(true) && source.is_ascii_capable != Some(true),
        None => false,
    }
}

/// Whether the current keyboard input source composes text that is not ASCII: it is an input mode
/// (a plain layout, even a non-ASCII one, maps keys directly) and not capable of ASCII.
pub fn is_ime_input_source_active(source: Option<InputSource>) -> (result: bool)
    ensures
        result == composes(source),
        result == (source matches Some(source) && source.is_input_mode == Some(true)
            && source.is_ascii_capable != Some(true)),
{
    match source {
        Some(source) => {
            let is_input_mode: bool = match source.is_input_mode {
                Some(value) => value,
                None => false,
            };
            let is_ascii_capable: bool = match source.is_ascii_capable {
                Some(value) => value,
                None => false,
            };
            is_input_mode && !is_ascii_capable
        },
        None => false,
    }
}

impl KeyboardState {
    /// Nothing to remember.
    pub fn new() -> (result: KeyboardState)
        ensures
            result@ == (KeyboardView {
                last_key_equivalent: None,
                keystroke_for_do_command: None,
                do_command_handled: None,
            }),
    {
        KeyboardState {
            last_key_equivalent: None,
            keystroke_for_do_command: None,
            do_command_handled: None,
        }
    }

    /// Begins to handle a native key event, which the host has turned into `event` if it could.
    pub fn handle_key_event(
        &mut self,
        callback: &mut Option<u64>,
        event: Option<KeyInput>,
        key_equivalent: bool,
    ) -> (step: KeyStep)
        ensures
            ({
                let outcome = begin_key(old(self)@, *old(callback), event, key_equivalent);
                &&& final(self)@ == outcome.keyboard
                &&& *final(callback) == outcome.callback
                &&& step@ == outcome.step
            }),
    {
        match event {
            Some(KeyInput::KeyDown(event)) => {
                if key_equivalent {
                    self.last_key_equivalent = Some(event.clone());
                } else {
                    let repeated: bool = match self.last_key_equivalent.take() {
                        Some(last) => last.same(&event),
                        None => false,
                    };
                    if repeated {
                        return KeyStep::Return(false);
                    }
                }
                KeyStep::Request(
                    KeyRequest::MarkedText,
                    PendingKey::Down { event, key_equivalent, stage: KeyStage::MarkedText },
                )
            },
            Some(KeyInput::KeyUp) => match callback.take() {
                Some(id) => KeyStep::Request(
                    KeyRequest::Callback(id),
                    PendingKey::Up { callback: id },
                ),
                None => KeyStep::Return(false),
            },
            _ => KeyStep::Return(false),
        }
    }

    fn input_context_first(&mut self, event: KeyDownEvent, key_equivalent: bool) -> (step: KeyStep)
        ensures
            forall|callback: Option<u64>|
                {
                    let outcome = #[trigger] input_context_first(
                        old(self)@,
                        callback,
                        event@,
                        key_equivalent,
                    );
                    &&& final(self)@ == outcome.keyboard
                    &&& callback == outcome.callback
                    &&& step@ == outcome.step
                },
    {
        self.keystroke_for_do_command = Some(event.keystroke.clone());
        self.do_command_handled = None;
        KeyStep::Request(
            KeyRequest::InputContext,
            PendingKey::Down { event, key_equivalent, stage: KeyStage::InputContextFirst },
        )
    }

    fn input_context_last(event: KeyDownEvent, key_equivalent: bool) -> (step: KeyStep)
        ensures
            forall|keyboard: KeyboardView, callback: Option<u64>|
                step@ == (#[trigger] input_context_last(
                    keyboard,
                    callback,
                    event@,
                    key_equivalent,
                )).step,
    {
        let modifiers: Modifiers = event.keystroke.modifiers;
        let function_only: bool = modifiers.function && !modifiers.control && !modifiers.alt
            && !modifiers.shift && !modifiers.platform;
        if key_equivalent && !function_only {
            KeyStep::Return(false)
        } else {
            KeyStep::Request(
                KeyRequest::InputContext,
                PendingKey::Down { event, key_equivalent, stage: KeyStage::InputContextLast },
            )
        }
    }

    fn after_callback_first(event: KeyDownEvent, key_equivalent: bool) -> (step: KeyStep)
        ensures
            forall|keyboard: KeyboardView, callback: Option<u64>|
                step@ == (#[trigger] after_callback_first(
                    keyboard,
                    callback,
                    event@,
                    key_equivalent,
                )).step,
    {
        if event.is_held && event.keystroke.key_char.is_some() {
            KeyStep::Request(
                KeyRequest::HeldText,
                PendingKey::Down { event, key_equivalent, stage: KeyStage::HeldText },
            )
        } else {
            Self::input_context_last(event, key_equivalent)
        }
    }

    fn callback_first(
        callback: &mut Option<u64>,
        event: KeyDownEvent,
        key_equivalent: bool,
    ) -> (step: KeyStep)
        ensures
            forall|keyboard: KeyboardView|
                {
                    let outcome = #[trigger] callback_first(
                        keyboard,
                        *old(callback),
                        event@,
                        key_equivalent,
                    );
                    &&& *final(callback) == outcome.callback
                    &&& step@ == outcome.step
                    &&& keyboard == outcome.keyboard
                },
    {
        match callback.take() {
            Some(id) => KeyStep::Request(
                KeyRequest::Callback(id),
                PendingKey::Down { event, key_equivalent, stage: KeyStage::CallbackFirst(id) },
            ),
            None => Self::after_callback_first(event, key_equivalent),
        }
    }

    fn after_input_context_first(
        &mut self,
        callback: &mut Option<u64>,
        event: KeyDownEvent,
        key_equivalent: bool,
        handled: bool,
    ) -> (step: KeyStep)
        ensures
            ({
                let outcome = after_input_context_first(
                    old(self)@,
                    *old(callback),
                    event@,
                    key_equivalent,
                    handled,
                );
                &&& final(self)@ == outcome.keyboard
                &&& *final(callback) == outcome.callback
                &&& step@ == outcome.step
            }),
    {
        self.keystroke_for_do_command = None;
        match self.do_command_handled.take() {
            Some(command_handled) => KeyStep::Return(command_handled),
            None => if handled {
                KeyStep::Return(true)
            } else {
                match callback.take() {
                    Some(id) => KeyStep::Request(
                        KeyRequest::Callback(id),
                        PendingKey::Down {
                            event,
                            key_equivalent,
                            stage: KeyStage::CallbackAfterInputContext(id),
                        },
                    ),
                    None => KeyStep::Return(false),
                }
            },
        }
    }

    /// Answers the command that the input context asks for while it handles a keystroke. Which
    /// command it is does not matter, since the user may have bound the key to something else:
    /// the event callback, if there is one, is to be run on the keystroke.
    pub fn do_command_by_selector(
        &mut self,
        callback: &mut Option<u64>,
    ) -> (result: Option<(u64, KeyDownEvent)>)
        ensures
            commanded(old(self)@, *old(callback)) == (
                final(self)@,
                *final(callback),
                match result {
                    Some(delivery) => Some((delivery.0, delivery.1@)),
                    None => None,
                },
            ),
            final(self)@ == (KeyboardView { keystroke_for_do_command: None, ..old(self)@ }),
            match (old(self)@.keystroke_for_do_command, *old(callback)) {
                (Some(keystroke), Some(id)) => {
                    &&& result matches Some(delivery) && delivery.0 == id && delivery.1@
                        == command_event(keystroke)
                    &&& *final(callback) is None
                },
                _ => result is None && *final(callback) == *old(callback),
            },
    {
        match self.keystroke_for_do_command.take() {
            Some(keystroke) => match callback.take() {
                Some(id) => Some(
                    (
                        id,
                        KeyDownEvent { keystroke, is_held: false, prefer_character_input: false },
                    ),
                ),
                None => None,
            },
            None => None,
        }
    }

    /// Records the answer of the event callback that [`KeyboardState::do_command_by_selector`]
    /// asked to be run.
    pub fn finish_do_command(&mut self, callback: &mut Option<u64>, id: u64, propagate: bool)
        ensures
            (final(self)@, *final(callback)) == command_done(old(self)@, id, propagate),
            final(self)@ == (KeyboardView { do_command_handled: Some(!propagate), ..old(self)@ }),
            *final(callback) == Some(id),
    {
        self.do_command_handled = Some(!propagate);
        *callback = Some(id);
    }

    /// Goes on with a key event when the host has done what was requested.
    pub fn resume_key_event(
        &mut self,
        callback: &mut Option<u64>,
        pending: PendingKey,
        reply: Option<bool>,
    ) -> (step: KeyStep)
        ensures
            ({
                let outcome = resume_key(old(self)@, *old(callback), pending@, reply);
                &&& final(self)@ == outcome.keyboard
                &&& *final(callback) == outcome.callback
                &&& step@ == outcome.step
            }),
    {
        let (yes, no): (bool, bool) = match reply {
            Some(answer) => (answer, !answer),
            None => (false, false),
        };
        match pending {
            PendingKey::Up { callback: id } => {
                *callback = Some(id);
                KeyStep::Return(no)
            },
            PendingKey::Down { event, key_equivalent, stage } => match stage {
                KeyStage::MarkedText => {
                    let modifiers: Modifiers = event.keystroke.modifiers;
                    let shortcut: bool = modifiers.control || modifiers.function
                        || modifiers.platform;
                    let (types_text, composable): (bool, bool) = match &event.keystroke.key_char {
                        Some(text) => (true, printable(text.as_str()) && !shortcut),
                        None => (false, false),
                    };
                    if yes || (!types_text && !shortcut) {
                        self.input_context_first(event, key_equivalent)
                    } else if composable {
                        KeyStep::Request(
                            KeyRequest::ImeInputSource,
                            PendingKey::Down {
                                event,
                                key_equivalent,
                                stage: KeyStage::ImeInputSource,
                            },
                        )
                    } else {
                        Self::callback_first(callback, event, key_equivalent)
                    }
                },
                KeyStage::ImeInputSource => if yes {
                    KeyStep::Request(
                        KeyRequest::ImePreference,
                        PendingKey::Down { event, key_equivalent, stage: KeyStage::ImePreference },
                    )
                } else {
                    Self::callback_first(callback, event, key_equivalent)
                },
                KeyStage::ImePreference => if yes {
                    self.input_context_first(event, key_equivalent)
                } else {
                    Self::callback_first(callback, event, key_equivalent)
                },
                KeyStage::InputContextFirst => self.after_input_context_first(
                    callback,
                    event,
                    key_equivalent,
                    yes,
                ),
                KeyStage::CallbackAfterInputContext(id) => {
                    *callback = Some(id);
                    KeyStep::Return(no)
                },
                KeyStage::CallbackFirst(id) => {
                    *callback = Some(id);
                    if no {
                        KeyStep::Return(true)
                    } else {
                        Self::after_callback_first(event, key_equivalent)
                    }
                },
                KeyStage::HeldText => if yes {
                    KeyStep::Return(true)
                } else {
                    Self::input_context_last(event, key_equivalent)
                },
                KeyStage::InputContextLast => KeyStep::Return(yes),
            },
        }
    }
}

/// What the host reports while one key-down event is handled.
pub struct KeyReplies {
    pub marked_text: Option<bool>,
    pub ime_input_source: Option<bool>,
    pub ime_preference: Option<bool>,
    pub input_context: Option<bool>,
    /// What became of the command that the input context asked for, if it asked for one.
    pub command: Option<bool>,
    pub propagate: bool,
    pub held_text: Option<bool>,
}

impl KeyReplies {
    pub open spec fn reply(self, request: KeyRequest) -> Option<bool> {
        match request {
            KeyRequest::MarkedText => self.marked_text,
            KeyRequest::ImeInputSource => self.ime_input_source,
            KeyRequest::ImePreference => self.ime_preference,
            KeyRequest::InputContext => self.input_context,
            KeyRequest::Callback(_) => Some(self.propagate),
            KeyRequest::HeldText => self.held_text,
        }
    }

    /// The keyboard state when the reply to `request` arrives: an input context that asked for a
    /// command took the keystroke and left the command's fate.
    pub open spec fn keyboard_at_reply(
        self,
        keyboard: KeyboardView,
        request: KeyRequest,
    ) -> KeyboardView {
        if request == KeyRequest::InputContext && keyboard.keystroke_for_do_command is Some
            && self.command is Some {
            KeyboardView {
                keystroke_for_do_command: None,
                do_command_handled: self.command,
                ..keyboard
            }
        } else {
            keyboard
        }
    }
}

/// How handling one event went.
pub struct KeyRun {
    /// The answer, if handling has come to an end.
    pub handled: Option<bool>,
    /// How often the event callback had the event.
    pub callbacks: nat,
    /// How often the input context had the event.
    pub input_contexts: nat,
    pub keyboard: KeyboardView,
    pub callback: Option<u64>,
}

/// Follows at most `fuel` requests from `outcome` on.
pub open spec fn run_key(outcome: KeyOutcome, replies: KeyReplies, fuel: nat) -> KeyRun
    decreases fuel,
{
    match outcome.step {
        KeyStepView::Return(handled) => KeyRun {
            handled: Some(handled),
            callbacks: 0,
            input_contexts: 0,
            keyboard: outcome.keyboard,
            callback: outcome.callback,
        },
        KeyStepView::Request(request, pending) => if fuel == 0 {
            KeyRun {
                handled: None,
                callbacks: 0,
                input_contexts: 0,
                keyboard: outcome.keyboard,
                callback: outcome.callback,
            }
        } else {
            let run = run_key(
                resume_key(
                    replies.keyboard_at_reply(outcome.keyboard, request),
                    outcome.callback,
                    pending,
                    replies.reply(request),
                ),
                replies,
                (fuel - 1) as nat,
            );
            KeyRun {
                callbacks: run.callbacks + if request is Callback {
                    1nat
                } else {
                    0nat
                },
                input_contexts: run.input_contexts + if request is InputContext {
                    1nat
                } else {
                    0nat
                },
                ..run
            }
        },
    }
}

/// Whether the input context has a key before the key bindings.
pub open spec fn input_method_first(keystroke: KeystrokeView, replies: KeyReplies) -> bool {
    ||| replies.marked_text == Some(true)
    ||| may_compose(keystroke) && replies.ime_input_source == Some(true) && replies.ime_preference
        == Some(true)
    ||| is_menu_key(keystroke)
}

/// The answer to a key-down event that is not ignored.
pub open spec fn key_down_handled(
    event: KeyDownView,
    key_equivalent: bool,
    has_callback: bool,
    replies: KeyReplies,
) -> bool {
    let bound = has_callback && !replies.propagate;
    if input_method_first(event.keystroke, replies) {
        match replies.command {
            Some(handled) => handled,
            None => replies.input_context == Some(true) || bound,
        }
    } else {
        ||| bound
        ||| event.is_held && event.keystroke.key_char is Some && replies.held_text == Some(true)
        ||| (key_equivalent ==> event.keystroke.modifiers.is_function_only())
            && replies.input_context == Some(true)
    }
}

/// A key-down event that just was processed as a key equivalent is ignored: nothing is requested,
/// it counts as not handled, and the next one is not ignored on its account.
pub proof fn repeated_key_equivalent_is_ignored(
    keyboard: KeyboardView,
    callback: Option<u64>,
    event: KeyDownEvent,
)
    ensures
        ({
            let first = begin_key(keyboard, callback, Some(KeyInput::KeyDown(event)), true);
            let second = begin_key(
                first.keyboard,
                callback,
                Some(KeyInput::KeyDown(event)),
                false,
            );
            let third = begin_key(
                second.keyboard,
                callback,
                Some(KeyInput::KeyDown(event)),
                false,
            );
            &&& first.step is Request
            &&& second.step == KeyStepView::Return(false)
            &&& second.callback == callback
            &&& third.step is Request
        }),
{
}

/// A key equivalent that was handled to its end, whatever the replies were, is ignored when it
/// arrives again as a key-down event; the one after that is not ignored on its account.
#[verifier::spinoff_prover]
#[verifier::rlimit(60)]
pub proof fn handled_key_equivalent_is_ignored(
    keyboard: KeyboardView,
    callback: Option<u64>,
    event: KeyDownEvent,
    replies: KeyReplies,
)
    requires
        keyboard.keystroke_for_do_command is None,
    ensures
        ({
            let input = Some(KeyInput::KeyDown(event));
            let run = run_key(begin_key(keyboard, callback, input, true), replies, 6);
            let second = begin_key(run.keyboard, run.callback, input, false);
            let third = begin_key(second.keyboard, second.callback, input, false);
            &&& run.handled is Some
            &&& run.callback == callback
            &&& run.keyboard.last_key_equivalent == Some(event@)
            &&& second.step == KeyStepView::Return(false)
            &&& second.callback == callback
            &&& third.step is Request
        }),
{
    reveal_with_fuel(run_key, 7);
}

/// Handling a key-down event comes to an end after at most six requests, with the answer
/// [`key_down_handled`]. The event callback stays registered, and no keystroke is left over for
/// a later command.
#[verifier::spinoff_prover]
#[verifier::rlimit(60)]
pub proof fn key_down_runs_to_its_answer(
    keyboard: KeyboardView,
    callback: Option<u64>,
    event: KeyDownEvent,
    key_equivalent: bool,
    replies: KeyReplies,
)
    requires
        keyboard.keystroke_for_do_command is None,
        key_equivalent || keyboard.last_key_equivalent != Some(event@),
    ensures
        ({
            let run = run_key(
                begin_key(keyboard, callback, Some(KeyInput::KeyDown(event)), key_equivalent),
                replies,
                6,
            );
            &&& run.handled == Some(
                key_down_handled(event@, key_equivalent, callback is Some, replies),
            )
            &&& run.callback == callback
            &&& run.keyboard.keystroke_for_do_command is None
        }),
{
    reveal_with_fuel(run_key, 7);
}

/// No key reaches the key bindings twice: once the input context has turned a key into a command,
/// which goes to the event callback, the callback does not get the key again.
#[verifier::spinoff_prover]
#[verifier::rlimit(60)]
pub proof fn key_reaches_the_bindings_at_most_once(
    keyboard: KeyboardView,
    callback: Option<u64>,
    event: KeyDownEvent,
    key_equivalent: bool,
    replies: KeyReplies,
)
    requires
        keyboard.keystroke_for_do_command is None,
    ensures
        ({
            let run = run_key(
                begin_key(keyboard, callback, Some(KeyInput::KeyDown(event)), key_equivalent),
                replies,
                6,
            );
            &&& run.callbacks <= 1
            &&& run.input_contexts <= 1
            &&& replies.command is Some && input_method_first(event@.keystroke, replies)
                ==> run.callbacks == 0
        }),
{
    reveal_with_fuel(run_key, 7);
}

/// Unless text is being composed, a key with control, function or command held goes to the key
/// bindings before the input context, and the input context does not see it if a binding takes it.
pub proof fn shortcuts_reach_the_bindings_first(
    keyboard: KeyboardView,
    callback: Option<u64>,
    event: KeyDownEvent,
    key_equivalent: bool,
    replies: KeyReplies,
)
    requires
        keyboard.keystroke_for_do_command is None,
        key_equivalent || keyboard.last_key_equivalent != Some(event@),
        event@.keystroke.modifiers.is_shortcut(),
        replies.marked_text != Some(true),
    ensures
        !input_method_first(event@.keystroke, replies),
        callback is Some && !replies.propagate ==> ({
            let run = run_key(
                begin_key(keyboard, callback, Some(KeyInput::KeyDown(event)), key_equivalent),
                replies,
                6,
            );
            run.handled == Some(true) && run.callbacks == 1 && run.input_contexts == 0
        }),
{
    reveal_with_fuel(run_key, 7);
}

/// Unless the input method has it first, a key equivalent with other modifiers than the function
/// key never reaches the input context, so that system shortcuts keep working.
pub proof fn key_equivalents_stay_with_the_system(
    keyboard: KeyboardView,
    callback: Option<u64>,
    event: KeyDownEvent,
    replies: KeyReplies,
)
    requires
        keyboard.keystroke_for_do_command is None,
        !event@.keystroke.modifiers.is_function_only(),
        !input_method_first(event@.keystroke, replies),
    ensures
        run_key(
            begin_key(keyboard, callback, Some(KeyInput::KeyDown(event)), true),
            replies,
            6,
        ).input_contexts == 0,
{
    reveal_with_fuel(run_key, 7);
}

/// What is asked of the host while an event is handled, in order, as far as `fuel` requests reach.
pub open spec fn key_requests(outcome: KeyOutcome, replies: KeyReplies, fuel: nat) -> Seq<
    KeyRequest,
>
    decreases fuel,
{
    match outcome.step {
        KeyStepView::Return(_) => Seq::empty(),
        KeyStepView::Request(request, pending) => if fuel == 0 {
            Seq::empty()
        } else {
            seq![request] + key_requests(
                resume_key(
                    replies.keyboard_at_reply(outcome.keyboard, request),
                    outcome.callback,
                    pending,
                    replies.reply(request),
                ),
                replies,
                (fuel - 1) as nat,
            )
        },
    }
}

/// While text is being composed, every key goes to the input context before the key bindings,
/// whatever modifiers are held. The bindings get it only if the input context neither takes it
/// nor turns it into a command; the key is handled if one of the two took it, and a command
/// decides alone.
#[verifier::spinoff_prover]
#[verifier::rlimit(60)]
pub proof fn composition_has_every_key_first(
    keyboard: KeyboardView,
    callback: Option<u64>,
    event: KeyDownEvent,
    key_equivalent: bool,
    replies: KeyReplies,
)
    requires
        keyboard.keystroke_for_do_command is None,
        key_equivalent || keyboard.last_key_equivalent != Some(event@),
        replies.marked_text == Some(true),
    ensures
        ({
            let first = begin_key(keyboard, callback, Some(KeyInput::KeyDown(event)), key_equivalent);
            let requests = key_requests(first, replies, 6);
            let handled = run_key(first, replies, 6).handled;
            &&& requests.take(2) == seq![KeyRequest::MarkedText, KeyRequest::InputContext]
            &&& replies.command is Some ==> requests.len() == 2 && handled == replies.command
            &&& replies.command is None && replies.input_context == Some(true) ==> requests.len()
                == 2 && handled == Some(true)
            &&& replies.command is None && replies.input_context != Some(true) ==> match callback {
                Some(id) => requests == seq![
                    KeyRequest::MarkedText,
                    KeyRequest::InputContext,
                    KeyRequest::Callback(id),
                ] && handled == Some(!replies.propagate),
                None => requests.len() == 2 && handled == Some(false),
            }
        }),
{
    reveal_with_fuel(run_key, 7);
    reveal_with_fuel(key_requests, 7);
}

/// Without composed text, a key that types nothing, such as an arrow key, goes to the input
/// context before the key bindings, unless control, function or command is held; shift and alt
/// make no difference.
#[verifier::spinoff_prover]
#[verifier::rlimit(60)]
pub proof fn keys_without_text_reach_the_input_context_first(
    keyboard: KeyboardView,
    callback: Option<u64>,
    event: KeyDownEvent,
    key_equivalent: bool,
    replies: KeyReplies,
)
    requires
        keyboard.keystroke_for_do_command is None,
        key_equivalent || keyboard.last_key_equivalent != Some(event@),
        replies.marked_text != Some(true),
        event.keystroke.key_char is None,
        !event.keystroke.modifiers.control,
        !event.keystroke.modifiers.function,
        !event.keystroke.modifiers.platform,
    ensures
        ({
            let first = begin_key(keyboard, callback, Some(KeyInput::KeyDown(event)), key_equivalent);
            let requests = key_requests(first, replies, 6);
            let handled = run_key(first, replies, 6).handled;
            &&& requests.take(2) == seq![KeyRequest::MarkedText, KeyRequest::InputContext]
            &&& match replies.command {
                Some(command) => requests.len() == 2 && handled == Some(command),
                None => if replies.input_context == Some(true) {
                    requests.len() == 2 && handled == Some(true)
                } else {
                    match callback {
                        Some(id) => requests.skip(2) == seq![KeyRequest::Callback(id)] && handled
                            == Some(!replies.propagate),
                        None => requests.len() == 2 && handled == Some(false),
                    }
                },
            }
        }),
{
    reveal_with_fuel(run_key, 7);
    reveal_with_fuel(key_requests, 7);
    let first = begin_key(keyboard, callback, Some(KeyInput::KeyDown(event)), key_equivalent);
    assert(key_requests(first, replies, 6).take(2) =~= seq![
        KeyRequest::MarkedText,
        KeyRequest::InputContext,
    ]);
}

/// Without composed text, a key that types text free of control characters, with none of control,
/// function and command held, goes to the input context before the key bindings exactly if the
/// input source composes and the input handler prefers it so; the second is asked about only
/// after a yes to the first. Shift and alt make no difference.
#[verifier::spinoff_prover]
#[verifier::rlimit(60)]
pub proof fn composing_input_methods_have_typed_text_first(
    keyboard: KeyboardView,
    callback: Option<u64>,
    event: KeyDownEvent,
    key_equivalent: bool,
    replies: KeyReplies,
)
    requires
        keyboard.keystroke_for_do_command is None,
        key_equivalent || keyboard.last_key_equivalent != Some(event@),
        replies.marked_text != Some(true),
        event.keystroke.key_char is Some,
        forall|i: int|
            0 <= i < event.keystroke.key_char->0@.len() ==> {
                let code = (#[trigger] event.keystroke.key_char->0@[i]) as u32;
                0x20 <= code < 0x7f || 0xa0 <= code
            },
        !event.keystroke.modifiers.control,
        !event.keystroke.modifiers.function,
        !event.keystroke.modifiers.platform,
    ensures
        ({
            let first = begin_key(keyboard, callback, Some(KeyInput::KeyDown(event)), key_equivalent);
            let requests = key_requests(first, replies, 6);
            let handled = run_key(first, replies, 6).handled;
            &&& requests.take(2) == seq![KeyRequest::MarkedText, KeyRequest::ImeInputSource]
            &&& replies.ime_input_source != Some(true) && callback is Some ==> requests[2]
                == KeyRequest::Callback(callback->0)
            &&& replies.ime_input_source != Some(true) ==> !requests.contains(
                KeyRequest::ImePreference,
            )
            &&& replies.ime_input_source == Some(true) ==> requests[2] == KeyRequest::ImePreference
            &&& replies.ime_input_source == Some(true) && replies.ime_preference != Some(true)
                && callback is Some ==> requests[3] == KeyRequest::Callback(callback->0)
            &&& replies.ime_input_source == Some(true) && replies.ime_preference == Some(true) ==> {
                &&& requests[3] == KeyRequest::InputContext
                &&& match replies.command {
                    Some(command) => requests.len() == 4 && handled == Some(command),
                    None => if replies.input_context == Some(true) {
                        requests.len() == 4 && handled == Some(true)
                    } else {
                        match callback {
                            Some(id) => requests.skip(4) == seq![KeyRequest::Callback(id)]
                                && handled == Some(!replies.propagate),
                            None => requests.len() == 4 && handled == Some(false),
                        }
                    },
                }
            }
        }),
{
    reveal_with_fuel(run_key, 7);
    reveal_with_fuel(key_requests, 7);
    let first = begin_key(keyboard, callback, Some(KeyInput::KeyDown(event)), key_equivalent);
    let requests = key_requests(first, replies, 6);
    assert(is_printable(event@.keystroke.key_char->0));
    assert(requests.take(2) =~= seq![KeyRequest::MarkedText, KeyRequest::ImeInputSource]);
    if replies.ime_input_source == Some(true) && replies.ime_preference == Some(true) {
        if replies.command is None && replies.input_context != Some(true) && callback is Some {
            assert(requests.skip(4) =~= seq![KeyRequest::Callback(callback->0)]);
        }
    }
}

/// Without composed text, a key goes to the key bindings at once, and nobody asks about the input
/// source, if control, function or command is held or if it types a control character.
#[verifier::spinoff_prover]
#[verifier::rlimit(60)]
pub proof fn shortcuts_and_control_characters_skip_the_input_method(
    keyboard: KeyboardView,
    callback: Option<u64>,
    event: KeyDownEvent,
    key_equivalent: bool,
    replies: KeyReplies,
    at: int,
)
    requires
        keyboard.keystroke_for_do_command is None,
        key_equivalent || keyboard.last_key_equivalent != Some(event@),
        replies.marked_text != Some(true),
        ({
            let modifiers = event.keystroke.modifiers;
            ||| modifiers.control || modifiers.function || modifiers.platform
            ||| event.keystroke.key_char matches Some(text) && 0 <= at < text@.len() && {
                let code = text@[at] as u32;
                code < 0x20 || 0x7f <= code < 0xa0
            }
        }),
    ensures
        ({
            let first = begin_key(keyboard, callback, Some(KeyInput::KeyDown(event)), key_equivalent);
            let requests = key_requests(first, replies, 6);
            &&& requests[0] == KeyRequest::MarkedText
            &&& !requests.contains(KeyRequest::ImeInputSource)
            &&& !requests.contains(KeyRequest::ImePreference)
            &&& callback matches Some(id) ==> requests.len() >= 2 && requests[1]
                == KeyRequest::Callback(id)
        }),
{
    reveal_with_fuel(key_requests, 7);
    if let Some(text) = event.keystroke.key_char {
        if 0 <= at < text@.len() {
            assert(event@.keystroke.key_char->0[at] == text@[at]);
        }
    }
}

/// A key that the key bindings have first is theirs if they take it, and nobody else gets it.
#[verifier::spinoff_prover]
#[verifier::rlimit(60)]
pub proof fn bindings_keep_what_they_take(
    keyboard: KeyboardView,
    id: u64,
    event: KeyDownEvent,
    key_equivalent: bool,
    replies: KeyReplies,
)
    requires
        keyboard.keystroke_for_do_command is None,
        key_equivalent || keyboard.last_key_equivalent != Some(event@),
        replies.marked_text != Some(true),
        ({
            let modifiers = event.keystroke.modifiers;
            ||| modifiers.control || modifiers.function || modifiers.platform
            ||| event.keystroke.key_char is Some && (replies.ime_input_source != Some(true)
                || replies.ime_preference != Some(true))
        }),
        !replies.propagate,
    ensures
        ({
            let input = Some(KeyInput::KeyDown(event));
            let first = begin_key(keyboard, Some(id), input, key_equivalent);
            let requests = key_requests(first, replies, 6);
            &&& requests.len() >= 2 && requests.last() == KeyRequest::Callback(id)
            &&& !requests.contains(KeyRequest::InputContext)
            &&& !requests.contains(KeyRequest::HeldText)
            &&& run_key(first, replies, 6).handled == Some(true)
        }),
{
    reveal_with_fuel(run_key, 5);
    reveal_with_fuel(key_requests, 5);
}

/// If the key bindings have a key first and do not take it, or if there are none, the text of a
/// held key is inserted, which settles the matter if it works. What is left goes to the input
/// context, except a key equivalent without exactly the function key held, which is left to the
/// system.
#[verifier::spinoff_prover]
#[verifier::rlimit(60)]
pub proof fn keys_fall_through_the_bindings(
    keyboard: KeyboardView,
    callback: Option<u64>,
    event: KeyDownEvent,
    key_equivalent: bool,
    replies: KeyReplies,
)
    requires
        keyboard.keystroke_for_do_command is None,
        key_equivalent || keyboard.last_key_equivalent != Some(event@),
        replies.marked_text != Some(true),
        ({
            let modifiers = event.keystroke.modifiers;
            ||| modifiers.control || modifiers.function || modifiers.platform
            ||| event.keystroke.key_char is Some && (replies.ime_input_source != Some(true)
                || replies.ime_preference != Some(true))
        }),
        callback is None || replies.propagate,
    ensures
        ({
            let input = Some(KeyInput::KeyDown(event));
            let first = begin_key(keyboard, callback, input, key_equivalent);
            let requests = key_requests(first, replies, 6);
            let handled = run_key(first, replies, 6).handled;
            let modifiers = event.keystroke.modifiers;
            let for_the_system = key_equivalent && !(modifiers.function && !modifiers.control
                && !modifiers.alt && !modifiers.shift && !modifiers.platform);
            let end = requests.len() as int;
            if event.is_held && event.keystroke.key_char is Some {
                if replies.held_text == Some(true) {
                    requests[end - 1] == KeyRequest::HeldText && handled == Some(true)
                } else if for_the_system {
                    requests[end - 1] == KeyRequest::HeldText && handled == Some(false)
                } else {
                    &&& requests[end - 2] == KeyRequest::HeldText
                    &&& requests[end - 1] == KeyRequest::InputContext
                    &&& handled == Some(replies.input_context == Some(true))
                }
            } else {
                &&& !requests.contains(KeyRequest::HeldText)
                &&& if for_the_system {
                    requests[end - 1] != KeyRequest::InputContext && handled == Some(false)
                } else {
                    requests[end - 1] == KeyRequest::InputContext && handled == Some(
                        replies.input_context == Some(true),
                    )
                }
            }
        }),
{
    reveal_with_fuel(run_key, 7);
    reveal_with_fuel(key_requests, 7);
}

/// Shift, alt and which key it is make no difference to who is asked and what is answered, except
/// for key equivalents with the function key held.
#[verifier::spinoff_prover]
#[verifier::rlimit(60)]
pub proof fn shift_and_alt_make_no_difference(
    keyboard: KeyboardView,
    callback: Option<u64>,
    event: KeyDownEvent,
    other: KeyDownEvent,
    key_equivalent: bool,
    replies: KeyReplies,
)
    requires
        keyboard.keystroke_for_do_command is None,
        key_equivalent || keyboard.last_key_equivalent != Some(event@) && keyboard.last_key_equivalent
            != Some(other@),
        event.keystroke.modifiers.control == other.keystroke.modifiers.control,
        event.keystroke.modifiers.function == other.keystroke.modifiers.function,
        event.keystroke.modifiers.platform == other.keystroke.modifiers.platform,
        event.keystroke.key_char == other.keystroke.key_char,
        event.is_held == other.is_held,
        key_equivalent ==> !event.keystroke.modifiers.function,
    ensures
        ({
            let one = begin_key(keyboard, callback, Some(KeyInput::KeyDown(event)), key_equivalent);
            let two = begin_key(keyboard, callback, Some(KeyInput::KeyDown(other)), key_equivalent);
            &&& key_requests(one, replies, 6) == key_requests(two, replies, 6)
            &&& run_key(one, replies, 6).handled == run_key(two, replies, 6).handled
        }),
{
    reveal_with_fuel(run_key, 7);
    reveal_with_fuel(key_requests, 7);
}

/// Only the same event is ignored after a key equivalent: one that differs in its key, its text,
/// its modifiers or whether it is held is handled. No key equivalent is ever ignored.
pub proof fn only_the_same_event_is_ignored(
    keyboard: KeyboardView,
    callback: Option<u64>,
    event: KeyDownEvent,
    other: KeyDownEvent,
)
    ensures
        ({
            let first = begin_key(keyboard, callback, Some(KeyInput::KeyDown(event)), true);
            let second = begin_key(
                first.keyboard,
                callback,
                Some(KeyInput::KeyDown(other)),
                false,
            );
            let same = {
                &&& event.keystroke.key@ == other.keystroke.key@
                &&& match (event.keystroke.key_char, other.keystroke.key_char) {
                    (Some(text), Some(typed)) => text@ == typed@,
                    (None, None) => true,
                    _ => false,
                }
                &&& event.keystroke.modifiers == other.keystroke.modifiers
                &&& event.is_held == other.is_held
                &&& event.prefer_character_input == other.prefer_character_input
            };
            &&& first.step matches KeyStepView::Request(KeyRequest::MarkedText, _)
            &&& same ==> second.step == KeyStepView::Return(false)
            &&& !same ==> second.step matches KeyStepView::Request(KeyRequest::MarkedText, _)
        }),
{
}

/// A key-up event goes to the event callback and to nobody else: it is handled exactly if the
/// callback does not let it propagate, the callback stays registered, and the keyboard remembers
/// what it did before. Without a callback, and for what is no key event, nothing happens.
pub proof fn key_up_goes_to_the_bindings_alone(
    keyboard: KeyboardView,
    callback: Option<u64>,
    key_equivalent: bool,
    replies: KeyReplies,
)
    ensures
        ({
            let first = begin_key(keyboard, callback, Some(KeyInput::KeyUp), key_equivalent);
            let run = run_key(first, replies, 6);
            &&& match callback {
                Some(id) => key_requests(first, replies, 6) == seq![KeyRequest::Callback(id)]
                    && first.callback is None && run.handled == Some(!replies.propagate),
                None => key_requests(first, replies, 6).len() == 0 && run.handled == Some(false),
            }
            &&& run.callback == callback
            &&& run.keyboard == keyboard
        }),
        ({
            let other = begin_key(keyboard, callback, Some(KeyInput::Other), key_equivalent);
            let unknown = begin_key(keyboard, callback, None, key_equivalent);
            &&& other == unknown
            &&& other.step == KeyStepView::Return(false)
            &&& other.callback == callback && other.keyboard == keyboard
        }),
{
    reveal_with_fuel(run_key, 3);
    reveal_with_fuel(key_requests, 3);
}

/// Handling a key leaves the callback registered and remembers of the key only whether it came as
/// a key equivalent. While the input context has a key that it got first, the keystroke is there
/// for a command, with no command answered yet, and the callback is free to be run.
pub proof fn input_context_finds_the_keystroke(
    keyboard: KeyboardView,
    callback: Option<u64>,
    event: KeyDownEvent,
    key_equivalent: bool,
    reply: Option<bool>,
)
    requires
        key_equivalent || keyboard.last_key_equivalent != Some(event@),
        ({
            let modifiers = event.keystroke.modifiers;
            reply == Some(true) || event.keystroke.key_char is None && !modifiers.control
                && !modifiers.function && !modifiers.platform
        }),
    ensures
        ({
            let first = begin_key(keyboard, callback, Some(KeyInput::KeyDown(event)), key_equivalent);
            let second = resume_key(first.keyboard, first.callback, first.step->Request_1, reply);
            &&& first.step is Request
            &&& first.keyboard == (KeyboardView {
                last_key_equivalent: if key_equivalent {
                    Some(event@)
                } else {
                    None
                },
                ..keyboard
            })
            &&& first.callback == callback
            &&& second.step matches KeyStepView::Request(KeyRequest::InputContext, _)
            &&& second.keyboard.keystroke_for_do_command == Some(event@.keystroke)
            &&& second.keyboard.do_command_handled is None
            &&& second.keyboard.last_key_equivalent == first.keyboard.last_key_equivalent
            &&& second.callback == callback
        }),
{
}

/// A command that the input context asks for while it has a key goes to the event callback, as that
/// very keystroke pressed and not held, and only once. The answer to the key is then whether the
/// callback kept the event, whatever the input context says; the callback is registered again and
/// nothing of the command is left over.
pub proof fn commands_answer_the_key(
    keyboard: KeyboardView,
    id: u64,
    event: KeyDownEvent,
    key_equivalent: bool,
    propagate: bool,
    reply: Option<bool>,
)
    requires
        key_equivalent || keyboard.last_key_equivalent != Some(event@),
    ensures
        ({
            let input = Some(KeyInput::KeyDown(event));
            let first = begin_key(keyboard, Some(id), input, key_equivalent);
            let second = resume_key(
                first.keyboard,
                first.callback,
                first.step->Request_1,
                Some(true),
            );
            let (taken, slot, delivery) = commanded(second.keyboard, second.callback);
            let again = commanded(taken, slot);
            let (done, refilled) = command_done(taken, id, propagate);
            let last = resume_key(done, refilled, second.step->Request_1, reply);
            &&& second.step is Request && second.step->Request_0 == KeyRequest::InputContext
            &&& delivery == Some(
                (
                    id,
                    KeyDownView {
                        keystroke: event.keystroke@,
                        is_held: false,
                        prefer_character_input: false,
                    },
                ),
            )
            &&& slot is None && refilled == Some(id)
            &&& again.2 is None && again.1 == slot && again.0 == taken
            &&& last.step == KeyStepView::Return(!propagate)
            &&& last.callback == Some(id)
            &&& last.keyboard.do_command_handled is None
            &&& last.keyboard.keystroke_for_do_command is None
            &&& last.keyboard.last_key_equivalent == first.keyboard.last_key_equivalent
        }),
        commanded(keyboard, None).2 is None,
{
}

/// Only an input mode composes, and not one that can do ASCII; what the system does not tell counts
/// as no.
pub proof fn input_modes_without_ascii_compose(source: InputSource)
    ensures
        composes(Some(source)) <==> {
            &&& source.is_input_mode matches Some(mode) && mode
            &&& source.is_ascii_capable is None || !source.is_ascii_capable->0
        },
        !composes(None),
{
}

/// Each modifier key has its flag, whatever other flags are set.
pub proof fn modifier_flags_are_read_one_by_one(flags: u64)
    ensures
        modifiers_of(flags).shift == (flags & 0x2_0000 != 0),
        modifiers_of(flags).control == (flags & 0x4_0000 != 0),
        modifiers_of(flags).alt == (flags & 0x8_0000 != 0),
        modifiers_of(flags).platform == (flags & 0x10_0000 != 0),
        modifiers_of(flags).function == (flags & 0x80_0000 != 0),
{
    assert((flags & 0x2_0000 == 0x2_0000) == (flags & 0x2_0000 != 0) && (flags & 0x4_0000
        == 0x4_0000) == (flags & 0x4_0000 != 0) && (flags & 0x8_0000 == 0x8_0000) == (flags
        & 0x8_0000 != 0) && (flags & 0x10_0000 == 0x10_0000) == (flags & 0x10_0000 != 0) && (flags
        & 0x80_0000 == 0x80_0000) == (flags & 0x80_0000 != 0)) by (bit_vector);
}

/// A command takes the keystroke that waits for it, whether or not a callback is registered, so that
/// the next command finds none; the other things that the keyboard remembers stay.
pub proof fn commands_take_their_keystroke(
    keyboard: KeyboardView,
    callback: Option<u64>,
    other: Option<u64>,
)
    ensures
        ({
            let (after, slot, delivery) = commanded(keyboard, callback);
            &&& after.keystroke_for_do_command is None
            &&& after.last_key_equivalent == keyboard.last_key_equivalent
            &&& after.do_command_handled == keyboard.do_command_handled
            &&& (delivery is Some) == (keyboard.keystroke_for_do_command is Some && callback
                is Some)
            &&& slot == if delivery is Some {
                None
            } else {
                callback
            }
            &&& commanded(after, other).2 is None
        }),
{
}

/// What a keyboard stands for is what it remembers: the last key equivalent, the keystroke that
/// waits for a command, and the answer to that command.
pub proof fn keyboards_stand_for_what_they_remember(keyboard: KeyboardState)
    ensures
        (keyboard@.last_key_equivalent is Some) == (keyboard.last_key_equivalent is Some),
        keyboard.last_key_equivalent matches Some(event) ==> {
            let remembered = keyboard@.last_key_equivalent->0;
            &&& remembered.keystroke.key == event.keystroke.key@
            &&& remembered.keystroke.modifiers == event.keystroke.modifiers
            &&& (remembered.keystroke.key_char is Some) == (event.keystroke.key_char is Some)
            &&& event.keystroke.key_char matches Some(text) ==> remembered.keystroke.key_char
                == Some(text@)
            &&& remembered.is_held == event.is_held
            &&& remembered.prefer_character_input == event.prefer_character_input
        },
        (keyboard@.keystroke_for_do_command is Some) == (keyboard.keystroke_for_do_command
            is Some),
        keyboard.keystroke_for_do_command matches Some(keystroke) ==> {
            let waiting = keyboard@.keystroke_for_do_command->0;
            waiting.key == keystroke.key@ && waiting.modifiers == keystroke.modifiers
        },
        keyboard@.do_command_handled == keyboard.do_command_handled,
{
}

} // verus!
