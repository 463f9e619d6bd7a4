use mac_window::classes::{
    build_classes, class_name, class_protocols, has_window_state, selector_name, superclass_name,
    window_state_variable, Handler, NativeClass, Selector,
};
use mac_window::layers::{remove_layer_background, Layer, LayerEdit};
use mac_window::prompt::{
    alert_style, answer_prompt, initial_focus, prompt, AlertStyle, PromptButton, PromptLevel,
};

fn save_prompt() -> Vec<PromptButton> {
    vec![
        PromptButton::Confirm("Save".to_string()),
        PromptButton::Other("Don't Save".to_string()),
        PromptButton::Cancel("Cancel".to_string()),
    ]
}

#[test]
fn middle_button_gets_the_focus() {
    assert_eq!(initial_focus(&save_prompt()), Some(1));
    assert_eq!(initial_focus(&save_prompt()[..1]), None);
    assert_eq!(initial_focus(&[]), None);
    let other = |label: &str| PromptButton::Other(label.to_string());
    let cancel = || PromptButton::Cancel("Cancel".to_string());
    assert_eq!(initial_focus(&[other("a"), other("b"), other("c")]), Some(2));
    assert_eq!(initial_focus(&[other("a"), cancel()]), None);
    assert_eq!(initial_focus(&[cancel(), other("a")]), Some(1));
    assert_eq!(initial_focus(&[cancel(), cancel()]), None);
}

#[test]
fn prompt_becomes_an_alert() {
    let alert = prompt(PromptLevel::Critical, "Save?", Some("It is gone."), &save_prompt());
    assert_eq!(alert.style, AlertStyle::Critical);
    assert_eq!(alert.message, "Save?");
    assert_eq!(alert.detail.as_deref(), Some("It is gone."));
    assert_eq!(alert.initial_focus, Some(1));
    let buttons: Vec<(&str, usize, bool)> = alert
        .buttons
        .iter()
        .map(|button| (button.title.as_str(), button.tag, button.escape))
        .collect();
    assert_eq!(
        buttons,
        [("Save", 0, false), ("Don't Save", 1, false), ("Cancel", 2, true)]
    );
    assert!(prompt(PromptLevel::Info, "Hi", None, &[]).detail.is_none());
    assert_eq!(alert_style(PromptLevel::Info), AlertStyle::Informational);
    assert_eq!(alert_style(PromptLevel::Warning), AlertStyle::Warning);
}

#[test]
fn answer_is_passed_on_once() {
    let mut waiting = Some(9);
    assert_eq!(answer_prompt(&mut waiting, 2), Some((9, 2)));
    assert_eq!(answer_prompt(&mut waiting, 2), None);
    assert_eq!(answer_prompt(&mut waiting, -1), None);
}

fn layer(id: u64, class_name: &str, filters: Option<&[bool]>, sublayers: Option<Vec<Layer>>) -> Layer {
    Layer {
        id,
        class_name: class_name.to_string(),
        filters: filters.map(|filters| filters.to_vec()),
        sublayers,
    }
}

#[test]
fn backgrounds_are_taken_out_of_all_layers() {
    let hidden = layer(4, "CALayer", None, None);
    let tree = layer(
        1,
        "CABackdropLayer",
        Some(&[false, true, true]),
        Some(vec![
            layer(2, "CAChameleonLayer", Some(&[true]), Some(vec![hidden])),
            layer(3, "CALayer", Some(&[false]), Some(vec![])),
        ]),
    );
    assert_eq!(
        remove_layer_background(&tree),
        [
            LayerEdit::ClearBackground { layer: 1 },
            LayerEdit::RemoveFilter { layer: 1, index: 1 },
            LayerEdit::ClearBackground { layer: 2 },
            LayerEdit::Hide { layer: 2 },
            LayerEdit::ClearBackground { layer: 3 },
        ]
    );
}

#[test]
fn classes_answer_every_message_once() {
    for class in [
        NativeClass::Window,
        NativeClass::Panel,
        NativeClass::View,
        NativeClass::BlurredView,
    ] {
        let methods = build_classes(class);
        let mut names: Vec<&str> =
            methods.iter().map(|method| selector_name(method.selector)).collect();
        names.sort();
        names.dedup();
        assert_eq!(names.len(), methods.len());
    }
    assert_eq!(build_classes(NativeClass::Window).len(), 27);
    assert_eq!(build_classes(NativeClass::View).len(), 39);
}

#[test]
fn classes_are_described() {
    let handler = |class, selector: Selector| {
        build_classes(class)
            .iter()
            .find(|method| method.selector == selector)
            .map(|method| method.handler)
    };
    assert_eq!(handler(NativeClass::Window, Selector::Dealloc), Some(Handler::DeallocWindow));
    assert_eq!(handler(NativeClass::Panel, Selector::Dealloc), Some(Handler::DeallocPanel));
    assert_eq!(handler(NativeClass::View, Selector::Dealloc), Some(Handler::DeallocView));
    assert_eq!(handler(NativeClass::View, Selector::MouseDown), Some(Handler::HandleViewEvent));
    assert_eq!(handler(NativeClass::View, Selector::Close), None);
    assert_eq!(
        handler(NativeClass::Panel, Selector::WindowDidResignKey),
        Some(Handler::WindowDidChangeKeyStatus)
    );
    assert_eq!(
        selector_name(Selector::SetMarkedText),
        "setMarkedText:selectedRange:replacementRange:"
    );
    assert_eq!(class_name(NativeClass::Panel), "GPUIPanel");
    assert_eq!(superclass_name(NativeClass::BlurredView), "NSVisualEffectView");
    assert_eq!(class_protocols(NativeClass::View), ["CALayerDelegate", "NSTextInputClient"]);
    assert_eq!(class_protocols(NativeClass::Window), ["NSDraggingSource"]);
    assert!(class_protocols(NativeClass::BlurredView).is_empty());
    assert!(has_window_state(NativeClass::View));
    assert!(!has_window_state(NativeClass::BlurredView));
    assert_eq!(window_state_variable(), "windowState");
}
