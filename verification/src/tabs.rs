//! The windows of the application as AppKit lists them, and window tabs.

use vstd::prelude::*;
use vstd::utf8::{decode_utf8, valid_utf8};

use crate::strings::{objc_string, objc_text, same_text};

verus! {

/// When the user wants windows to open as tabs.
#[derive(Clone, Copy, Debug, PartialEq, Eq, Structural)]
pub enum UserTabbingPreference {
    Never,
    Always,
    InFullScreen,
}

/// What a native window is.
#[derive(Clone, Copy, Debug, PartialEq, Eq, Structural)]
pub enum NativeWindow {
    /// A window of this library, with its number and the application's handle.
    Window { id: u64, handle: u64 },
    /// A panel of this library, with its number and the application's handle.
    Panel { id: u64, handle: u64 },
    /// A window that AppKit or someone else made.
    Foreign,
}

/// A window of a tab group: what it is, and its title in UTF-8.
pub struct TabbedWindow {
    pub window: NativeWindow,
    pub title: Option<Vec<u8>>,
}

/// A tab, as the application sees it.
pub struct SystemWindowTab {
    pub title: String,
    pub handle: u64,
}

/// The preference that a setting stands for.
pub open spec fn preference_for(setting: Seq<char>) -> UserTabbingPreference {
    if setting == "manual"@ {
        UserTabbingPreference::Never
    } else if setting == "always"@ {
        UserTabbingPreference::Always
    } else {
        UserTabbingPreference::InFullScreen
    }
}

/// Reads a setting; see [`preference_for`].
pub fn tabbing_preference(setting: &str) -> (result: UserTabbingPreference)
    ensures
        result == preference_for(setting@),
{
    if same_text(setting, "manual") {
        UserTabbingPreference::Never
    } else if same_text(setting, "always") {
        UserTabbingPreference::Always
    } else {
        UserTabbingPreference::InFullScreen
    }
}

/// The preference of the user, from the global setting in UTF-8, if it is set.
pub fn user_tabbing_preference(setting: Option<&[u8]>) -> (result: UserTabbingPreference)
    ensures
        result == preference_for(objc_text(setting)),
{
    tabbing_preference(objc_string(setting).as_str())
}

/// Whether a window that can be a tab opens as one.
pub open spec fn opens_as_tab(
    preference: UserTabbingPreference,
    main_window_is_fullscreen: bool,
) -> bool {
    preference == UserTabbingPreference::Always || (preference
        == UserTabbingPreference::InFullScreen && main_window_is_fullscreen)
}

/// Decides [`opens_as_tab`].
pub fn should_add_as_tab(
    preference: UserTabbingPreference,
    main_window_is_fullscreen: bool,
) -> (result: bool)
    ensures
        result == opens_as_tab(preference, main_window_is_fullscreen),
{
    preference == UserTabbingPreference::Always || (preference
        == UserTabbingPreference::InFullScreen && main_window_is_fullscreen)
}

impl NativeWindow {
    /// Whether the window is one of this library's.
    pub open spec fn is_ours(self) -> bool {
        self is Window || self is Panel
    }

    /// Decides [`NativeWindow::is_ours`].
    pub fn is_gpui_window(self) -> (result: bool)
        ensures
            result == self.is_ours(),
    {
        match self {
            NativeWindow::Window { .. } => true,
            NativeWindow::Panel { .. } => true,
            NativeWindow::Foreign => false,
        }
    }

    /// The number of a window of this library.
    pub open spec fn number(self) -> Option<u64> {
        match self {
            NativeWindow::Window { id, .. } => Some(id),
            NativeWindow::Panel { id, .. } => Some(id),
            NativeWindow::Foreign => None,
        }
    }
}

/// The handle of the main window; panels do not count.
pub open spec fn active_handle(main_window: Option<NativeWindow>) -> Option<u64> {
    match main_window {
        Some(NativeWindow::Window { handle, .. }) => Some(handle),
        _ => None,
    }
}

/// The handles of the windows among the first windows of a list, in their order; panels do not
/// count.
pub open spec fn handles_of(windows: Seq<NativeWindow>) -> Seq<u64>
    decreases windows.len(),
{
    if windows.len() == 0 {
        Seq::empty()
    } else {
        match windows.last() {
            NativeWindow::Window { handle, .. } => handles_of(windows.drop_last()).push(handle),
            _ => handles_of(windows.drop_last()),
        }
    }
}

/// The tabs of the windows of a list, as pairs of title and handle; panels do not count.
pub open spec fn tabs_of(windows: Seq<TabbedWindow>) -> Seq<(Seq<char>, u64)>
    decreases windows.len(),
{
    if windows.len() == 0 {
        Seq::empty()
    } else {
        match windows.last().window {
            NativeWindow::Window { handle, .. } => tabs_of(windows.drop_last()).push(
                (title_of(windows.last().title), handle),
            ),
            _ => tabs_of(windows.drop_last()),
        }
    }
}

/// The text of a title.
pub open spec fn title_of(title: Option<Vec<u8>>) -> Seq<char> {
    match title {
        Some(title) => crate::strings::utf8_text(title@),
        None => Seq::empty(),
    }
}

/// The tabs of a tab group as pairs of title and handle.
pub open spec fn tab_views(tabs: Seq<SystemWindowTab>) -> Seq<(Seq<char>, u64)> {
    tabs.map_values(|tab: SystemWindowTab| (tab.title@, tab.handle))
}

/// The handle of the main window, if it is a window of this library.
pub fn active_window_handle(main_window: Option<NativeWindow>) -> (result: Option<u64>)
    ensures
        result == active_handle(main_window),
{
    match main_window {
        Some(NativeWindow::Window { handle, .. }) => Some(handle),
        _ => None,
    }
}

/// The handles of this library's windows, in the order of the list.
pub fn window_handles(windows: &[NativeWindow]) -> (handles: Vec<u64>)
    ensures
        handles@ == handles_of(windows@),
{
    let mut handles: Vec<u64> = Vec::new();
    let mut i: usize = 0;
    while i < windows.len()
        invariant
            i <= windows@.len(),
            handles@ == handles_of(windows@.take(i as int)),
        decreases windows@.len() - i,
    {
        assert(windows@.take(i + 1).drop_last() =~= windows@.take(i as int));
        if let NativeWindow::Window { handle, .. } = windows[i] {
            handles.push(handle);
        }
        i += 1;
    }
    assert(windows@.take(i as int) =~= windows@);
    handles
}

/// The tabs of a window; `None` if it is in no tab group.
pub fn tabbed_windows(windows: Option<&[TabbedWindow]>) -> (result: Option<Vec<SystemWindowTab>>)
    ensures
        match (windows, result) {
            (Some(windows), Some(tabs)) => tab_views(tabs@) == tabs_of(windows@),
            (None, None) => true,
            _ => false,
        },
{
    match windows {
        None => None,
        Some(windows) => {
            let mut tabs: Vec<SystemWindowTab> = Vec::new();
            let mut i: usize = 0;
            while i < windows.len()
                invariant
                    i <= windows@.len(),
                    tab_views(tabs@) =~= tabs_of(windows@.take(i as int)),
                decreases windows@.len() - i,
            {
                assert(windows@.take(i + 1).drop_last() =~= windows@.take(i as int));
                if let NativeWindow::Window { handle, .. } = windows[i].window {
                    let title: String = match &windows[i].title {
                        Some(title) => objc_string(Some(title.as_slice())),
                        None => String::new(),
                    };
                    tabs.push(SystemWindowTab { title, handle });
                }
                i += 1;
            }
            assert(windows@.take(i as int) =~= windows@);
            Some(tabs)
        },
    }
}

/// Whether AppKit may put windows into tabs on its own: windows with an identifier may be tabs of
/// each other.
pub fn allows_automatic_tabbing(identifier: &Option<String>) -> (result: bool)
    ensures
        result == (identifier is Some),
{
    identifier.is_some()
}

/// Whether the tab bar is seen: AppKit says so of a window in a tab group.
pub fn tab_bar_visible(tab_group: Option<bool>) -> (result: bool)
    ensures
        result == (tab_group == Some(true)),
{
    match tab_group {
        Some(visible) => visible,
        None => false,
    }
}

/// The number of the window whose cursor changes.
pub open spec fn cursor_owner(
    key_window: Option<NativeWindow>,
    main_window: Option<NativeWindow>,
) -> Option<u64> {
    match (key_window, main_window) {
        (Some(key), _) if key.is_ours() => key.number(),
        (_, Some(main)) => main.number(),
        _ => None,
    }
}

/// The window whose cursor changes: the key window, or else the main window, if it is one of this
/// library's.
pub fn cursor_window(
    key_window: Option<NativeWindow>,
    main_window: Option<NativeWindow>,
) -> (result: Option<u64>)
    ensures
        result == cursor_owner(key_window, main_window),
        result == match (key_window, main_window) {
            (Some(key), _) if key.is_ours() => key.number(),
            (_, Some(main)) => main.number(),
            _ => None,
        },
{
    match key_window {
        Some(NativeWindow::Window { id, .. }) => return Some(id),
        Some(NativeWindow::Panel { id, .. }) => return Some(id),
        _ => {},
    }
    match main_window {
        Some(NativeWindow::Window { id, .. }) => Some(id),
        Some(NativeWindow::Panel { id, .. }) => Some(id),
        _ => None,
    }
}

/// The listed handles are those of this library's windows, and no window is missing.
pub proof fn every_window_is_listed(windows: Seq<NativeWindow>, handle: u64)
    ensures
        handles_of(windows).contains(handle) <==> exists|i: int|
            0 <= i < windows.len() && (#[trigger] windows[i]) is Window && windows[i]->Window_handle
                == handle,
    decreases windows.len(),
{
    if windows.len() > 0 {
        let rest = windows.drop_last();
        every_window_is_listed(rest, handle);
        let handles = handles_of(windows);
        if handles.contains(handle) {
            if handles_of(rest).contains(handle) {
                let i = choose|i: int|
                    0 <= i < rest.len() && (#[trigger] rest[i]) is Window
                        && rest[i]->Window_handle == handle;
                assert(windows[i] == rest[i]);
            } else {
                let k = choose|k: int| 0 <= k < handles.len() && handles[k] == handle;
                if k < handles_of(rest).len() {
                    assert(handles_of(rest)[k] == handle);
                }
                assert(windows[windows.len() - 1] == windows.last());
            }
        }
        if exists|i: int|
            0 <= i < windows.len() && (#[trigger] windows[i]) is Window && windows[i]->Window_handle
                == handle {
            let i = choose|i: int|
                0 <= i < windows.len() && (#[trigger] windows[i]) is Window
                    && windows[i]->Window_handle == handle;
            if i < rest.len() {
                assert(rest[i] == windows[i]);
                let k = choose|k: int|
                    0 <= k < handles_of(rest).len() && handles_of(rest)[k] == handle;
                assert(handles[k] == handle);
            } else {
                assert(handles[handles.len() - 1] == handle);
            }
        }
    }
}

/// The listed handles keep the order of the windows, from front to back: what is in front of a
/// point of the list is listed first.
pub proof fn listing_keeps_the_order(front: Seq<NativeWindow>, back: Seq<NativeWindow>)
    ensures
        handles_of(front + back) == handles_of(front) + handles_of(back),
    decreases back.len(),
{
    if back.len() == 0 {
        assert(front + back =~= front);
        assert(handles_of(front) + handles_of(back) =~= handles_of(front));
    } else {
        listing_keeps_the_order(front, back.drop_last());
        assert((front + back).drop_last() =~= front + back.drop_last());
        assert(handles_of(front + back) =~= handles_of(front) + handles_of(back));
    }
}

/// The setting says never, or always; whatever else it says, or if it says nothing, tabs are wanted
/// in fullscreen.
pub proof fn tabbing_setting_is_understood(setting: Seq<char>)
    ensures
        preference_for(setting) == UserTabbingPreference::Never <==> setting == "manual"@,
        preference_for(setting) == UserTabbingPreference::Always <==> setting == "always"@,
{
    reveal_strlit("manual");
    reveal_strlit("always");
    assert("manual"@[0] == 'm' && "always"@[0] == 'a');
}

/// A window opens as a tab if the user always wants tabs, never if the user never does, and else
/// as the main window is in fullscreen.
pub proof fn tabs_are_opened_as_preferred(is_fullscreen: bool)
    ensures
        opens_as_tab(UserTabbingPreference::Always, is_fullscreen),
        !opens_as_tab(UserTabbingPreference::Never, is_fullscreen),
        opens_as_tab(UserTabbingPreference::InFullScreen, is_fullscreen) == is_fullscreen,
{
}

/// The active window is the main window, unless that is a panel or not one of this library's.
pub proof fn active_window_is_the_main_window(main_window: Option<NativeWindow>, handle: u64)
    ensures
        active_handle(main_window) == Some(handle) <==> (main_window matches Some(main) && main
            is Window && main->Window_handle == handle),
{
}

/// What the windows of a tab group are.
pub open spec fn natives_of(windows: Seq<TabbedWindow>) -> Seq<NativeWindow> {
    windows.map_values(|window: TabbedWindow| window.window)
}

/// The tabs of a group are its windows of this library, with their handles in order, and each with
/// its title.
pub proof fn tabs_are_the_windows_of_the_group(windows: Seq<TabbedWindow>, k: int)
    requires
        0 <= k < tabs_of(windows).len(),
    ensures
        tabs_of(windows).len() == handles_of(natives_of(windows)).len(),
        tabs_of(windows)[k].1 == handles_of(natives_of(windows))[k],
        exists|i: int|
            0 <= i < windows.len() && (#[trigger] windows[i]).window is Window
                && windows[i].window->Window_handle == tabs_of(windows)[k].1 && title_of(
                windows[i].title,
            ) == tabs_of(windows)[k].0,
    decreases windows.len(),
{
    there_are_as_many_tabs_as_windows(windows);
    let rest = windows.drop_last();
    let before = tabs_of(rest);
    there_are_as_many_tabs_as_windows(rest);
    assert(natives_of(rest) =~= natives_of(windows).drop_last());
    assert(natives_of(windows).last() == windows.last().window);
    if k < before.len() {
        tabs_are_the_windows_of_the_group(rest, k);
        assert(tabs_of(windows)[k] == before[k]);
        let i = choose|i: int|
            0 <= i < rest.len() && (#[trigger] rest[i]).window is Window
                && rest[i].window->Window_handle == before[k].1 && title_of(rest[i].title)
                == before[k].0;
        assert(windows[i] == rest[i]);
    } else {
        assert(windows[windows.len() - 1] == windows.last());
    }
}

/// There are as many tabs as windows of this library in the group.
pub proof fn there_are_as_many_tabs_as_windows(windows: Seq<TabbedWindow>)
    ensures
        tabs_of(windows).len() == handles_of(natives_of(windows)).len(),
    decreases windows.len(),
{
    if windows.len() > 0 {
        there_are_as_many_tabs_as_windows(windows.drop_last());
        assert(natives_of(windows.drop_last()) =~= natives_of(windows).drop_last());
        assert(natives_of(windows).last() == windows.last().window);
    }
}

/// A title in UTF-8 is shown as it is, and no title as the empty one.
pub proof fn titles_are_shown(title: Vec<u8>)
    ensures
        valid_utf8(title@) ==> title_of(Some(title)) == decode_utf8(title@),
        title_of(None) == Seq::<char>::empty(),
{
}

/// The cursor belongs to the key window if that is one of this library's, be it a panel; else to
/// the main window if that is one; else to nobody.
pub proof fn cursor_belongs_to_the_key_window_first(
    key_window: Option<NativeWindow>,
    main_window: Option<NativeWindow>,
    id: u64,
    handle: u64,
)
    ensures
        cursor_owner(Some(NativeWindow::Window { id, handle }), main_window) == Some(id),
        cursor_owner(Some(NativeWindow::Panel { id, handle }), main_window) == Some(id),
        key_window is None || key_window->0 is Foreign ==> {
            &&& cursor_owner(key_window, Some(NativeWindow::Window { id, handle })) == Some(id)
            &&& cursor_owner(key_window, Some(NativeWindow::Panel { id, handle })) == Some(id)
            &&& cursor_owner(key_window, Some(NativeWindow::Foreign)) is None
            &&& cursor_owner(key_window, None) is None
        },
{
}

} // verus!
