use vstd::prelude::*;

use crate::message::Message;
use crate::model::{Model, Popup};

verus! {

/// The terminal keys the client reacts to, as the input adapter hands them
/// over.
#[derive(Debug, Clone, Copy, PartialEq, Eq, Structural)]
pub enum Key {
    Esc,
    Enter,
    Tab,
    BackTab,
    Backspace,
    Up,
    Down,
    Left,
    Right,
    Char(char),
}

/// What a key means while the platform picker is open.
pub open spec fn spec_platform_key(code: Key) -> Option<Message> {
    match code {
        Key::Esc => Some(Message::ClosePopup),
        Key::Down => Some(Message::PlatformPopupNext),
        Key::Char('j') => Some(Message::PlatformPopupNext),
        Key::Up => Some(Message::PlatformPopupPrev),
        Key::Char('k') => Some(Message::PlatformPopupPrev),
        Key::Enter => Some(Message::PlatformPopupSelect),
        _ => None,
    }
}

/// What a key means while the options popup is open.
pub open spec fn spec_options_key(code: Key) -> Option<Message> {
    match code {
        Key::Esc => Some(Message::ClosePopup),
        Key::Tab => Some(Message::OptionsNextTab),
        Key::Right => Some(Message::OptionsNextTab),
        Key::BackTab => Some(Message::OptionsPrevTab),
        Key::Left => Some(Message::OptionsPrevTab),
        Key::Down => Some(Message::OptionsNextItem),
        Key::Char('j') => Some(Message::OptionsNextItem),
        Key::Up => Some(Message::OptionsPrevItem),
        Key::Char('k') => Some(Message::OptionsPrevItem),
        Key::Char('s') => Some(Message::OptionsToggleSortDirection),
        Key::Enter => Some(Message::OptionsToggleItem),
        Key::Char(' ') => Some(Message::OptionsToggleItem),
        _ => None,
    }
}

/// What a key means while the keybinds popup is open.
pub open spec fn spec_keybinds_key(code: Key) -> Option<Message> {
    match code {
        Key::Esc => Some(Message::ClosePopup),
        _ => None,
    }
}

/// What a key means while the price-filter popup is open.
pub open spec fn spec_price_filter_key(code: Key) -> Option<Message> {
    match code {
        Key::Esc => Some(Message::ClosePopup),
        Key::Tab => Some(Message::PriceFilterSwitchField),
        Key::Enter => Some(Message::PriceFilterApply),
        Key::Backspace => Some(Message::PriceFilterPop),
        Key::Char(c) => if c == 'c' {
            Some(Message::PriceFilterClear)
        } else {
            Some(Message::PriceFilterPush(c))
        },
        _ => None,
    }
}

/// What a key means while the menu is open.
pub open spec fn spec_menu_key(code: Key) -> Option<Message> {
    match code {
        Key::Esc => Some(Message::ToggleMenu),
        Key::Char('q') => Some(Message::Quit),
        Key::Down => Some(Message::MenuNext),
        Key::Char('j') => Some(Message::MenuNext),
        Key::Up => Some(Message::MenuPrevious),
        Key::Char('k') => Some(Message::MenuPrevious),
        Key::Enter => Some(Message::MenuSelect),
        _ => None,
    }
}

/// What a key means while the text filter is being typed.
pub open spec fn spec_filter_key(code: Key) -> Option<Message> {
    match code {
        Key::Esc => Some(Message::CancelFilter),
        Key::Enter => Some(Message::ConfirmFilter),
        Key::Backspace => Some(Message::FilterPop),
        Key::Char(c) => Some(Message::FilterPush(c)),
        _ => None,
    }
}

/// What a key means during normal browsing.
pub open spec fn spec_main_key(code: Key) -> Option<Message> {
    match code {
        Key::Esc => Some(Message::ToggleMenu),
        Key::Char('q') => Some(Message::ToggleMenu),
        Key::Down => Some(Message::SelectNext),
        Key::Char('j') => Some(Message::SelectNext),
        Key::Up => Some(Message::SelectPrevious),
        Key::Char('k') => Some(Message::SelectPrevious),
        Key::Char('p') => Some(Message::OpenPlatformPopup),
        Key::Char('f') => Some(Message::StartFilter),
        Key::Enter => Some(Message::OpenSelectedDeal),
        Key::Char('r') => Some(Message::RequestRefresh),
        Key::Char('s') => Some(Message::ToggleSortDirection),
        Key::Left => Some(Message::PrevSortCriteria),
        Key::Right => Some(Message::NextSortCriteria),
        Key::Char('c') => Some(Message::ClearFilters),
        Key::Char('$') => Some(Message::OpenPriceFilter),
        Key::Char(_) => None,
        _ => None,
    }
}

/// What a key means, given the current mode: an open popup intercepts keys
/// before the menu, the menu before filter typing, and filter typing before
/// normal browsing — exactly one mode interprets each key.
pub open spec fn spec_handle_key(m: Model, code: Key) -> Option<Message> {
    match m.ui.popup {
        Popup::Platform => spec_platform_key(code),
        Popup::Options => spec_options_key(code),
        Popup::Keybinds => spec_keybinds_key(code),
        Popup::PriceFilter => spec_price_filter_key(code),
        Popup::Closed => if m.ui.show_menu {
            spec_menu_key(code)
        } else if m.filter.active {
            spec_filter_key(code)
        } else {
            spec_main_key(code)
        },
    }
}

/// Translates a key press into a message under the mode-priority rule.
pub fn handle_key(model: &Model, code: Key) -> (r: Option<Message>)
    ensures
        r == spec_handle_key(*model, code),
{
    match model.ui.popup {
        Popup::Platform => handle_platform_key(code),
        Popup::Options => handle_options_key(code),
        Popup::Keybinds => handle_keybinds_key(code),
        Popup::PriceFilter => handle_price_filter_key(code),
        Popup::Closed => {
            if model.ui.show_menu {
                handle_menu_key(code)
            } else if model.filter.active {
                handle_filter_key(code)
            } else {
                handle_main_key(code)
            }
        },
    }
}

fn handle_platform_key(code: Key) -> (r: Option<Message>)
    ensures
        r == spec_platform_key(code),
{
    match code {
        Key::Esc => Some(Message::ClosePopup),
        Key::Down => Some(Message::PlatformPopupNext),
        Key::Up => Some(Message::PlatformPopupPrev),
        Key::Enter => Some(Message::PlatformPopupSelect),
        Key::Char(c) => {
            if c == 'j' {
                Some(Message::PlatformPopupNext)
            } else if c == 'k' {
                Some(Message::PlatformPopupPrev)
            } else {
                None
            }
        },
        _ => None,
    }
}

fn handle_options_key(code: Key) -> (r: Option<Message>)
    ensures
        r == spec_options_key(code),
{
    match code {
        Key::Esc => Some(Message::ClosePopup),
        Key::Tab => Some(Message::OptionsNextTab),
        Key::Right => Some(Message::OptionsNextTab),
        Key::BackTab => Some(Message::OptionsPrevTab),
        Key::Left => Some(Message::OptionsPrevTab),
        Key::Down => Some(Message::OptionsNextItem),
        Key::Up => Some(Message::OptionsPrevItem),
        Key::Enter => Some(Message::OptionsToggleItem),
        Key::Char(c) => {
            if c == 'j' {
                Some(Message::OptionsNextItem)
            } else if c == 'k' {
                Some(Message::OptionsPrevItem)
            } else if c == 's' {
                Some(Message::OptionsToggleSortDirection)
            } else if c == ' ' {
                Some(Message::OptionsToggleItem)
            } else {
                None
            }
        },
        _ => None,
    }
}

fn handle_keybinds_key(code: Key) -> (r: Option<Message>)
    ensures
        r == spec_keybinds_key(code),
{
    match code {
        Key::Esc => Some(Message::ClosePopup),
        _ => None,
    }
}

fn handle_price_filter_key(code: Key) -> (r: Option<Message>)
    ensures
        r == spec_price_filter_key(code),
{
    match code {
        Key::Esc => Some(Message::ClosePopup),
        Key::Tab => Some(Message::PriceFilterSwitchField),
        Key::Enter => Some(Message::PriceFilterApply),
        Key::Backspace => Some(Message::PriceFilterPop),
        Key::Char(c) => {
            if c == 'c' {
                Some(Message::PriceFilterClear)
            } else {
                Some(Message::PriceFilterPush(c))
            }
        },
        _ => None,
    }
}

fn handle_menu_key(code: Key) -> (r: Option<Message>)
    ensures
        r == spec_menu_key(code),
{
    match code {
        Key::Esc => Some(Message::ToggleMenu),
        Key::Down => Some(Message::MenuNext),
        Key::Up => Some(Message::MenuPrevious),
        Key::Enter => Some(Message::MenuSelect),
        Key::Char(c) => {
            if c == 'q' {
                Some(Message::Quit)
            } else if c == 'j' {
                Some(Message::MenuNext)
            } else if c == 'k' {
                Some(Message::MenuPrevious)
            } else {
                None
            }
        },
        _ => None,
    }
}

fn handle_filter_key(code: Key) -> (r: Option<Message>)
    ensures
        r == spec_filter_key(code),
{
    match code {
        Key::Esc => Some(Message::CancelFilter),
        Key::Enter => Some(Message::ConfirmFilter),
        Key::Backspace => Some(Message::FilterPop),
        Key::Char(c) => Some(Message::FilterPush(c)),
        _ => None,
    }
}

fn handle_main_key(code: Key) -> (r: Option<Message>)
    ensures
        r == spec_main_key(code),
{
    match code {
        Key::Esc => Some(Message::ToggleMenu),
        Key::Down => Some(Message::SelectNext),
        Key::Up => Some(Message::SelectPrevious),
        Key::Enter => Some(Message::OpenSelectedDeal),
        Key::Left => Some(Message::PrevSortCriteria),
        Key::Right => Some(Message::NextSortCriteria),
        Key::Char(c) => {
            if c == 'q' {
                Some(Message::ToggleMenu)
            } else if c == 'j' {
                Some(Message::SelectNext)
            } else if c == 'k' {
                Some(Message::SelectPrevious)
            } else if c == 'p' {
                Some(Message::OpenPlatformPopup)
            } else if c == 'f' {
                Some(Message::StartFilter)
            } else if c == 'r' {
                Some(Message::RequestRefresh)
            } else if c == 's' {
                Some(Message::ToggleSortDirection)
            } else if c == 'c' {
                Some(Message::ClearFilters)
            } else if c == '$' {
                Some(Message::OpenPriceFilter)
            } else {
                None
            }
        },
        _ => None,
    }
}

} // verus!
