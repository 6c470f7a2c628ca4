use rustify::app::Msg;
use rustify::tui::playlist::{Playlist, PlaylistComponent, PlaylistStates};
use rustify::tui::{
    Alignment, AttrValue, Attribute, BorderType, Borders, Cmd, CmdResult, Color, Event, Key,
    KeyEvent, State, StateValue, BORDER_SIDES_ALL, KEY_MODIFIERS_NONE, KEY_MODIFIER_CONTROL,
    MODIFIER_BOLD,
};

fn key(code: Key, modifiers: u8) -> Event {
    Event::Keyboard(KeyEvent { code, modifiers })
}

#[test]
fn change_title_replaces_the_title() {
    let mut s = PlaylistStates {
        title: "old".to_string(),
    };
    s.change_title("new".to_string());
    assert_eq!(s.title, "new");
}

#[test]
fn default_panel_has_every_property_unset() {
    let p = Playlist::default();
    assert!(p.props.display.is_none());
    assert!(p.props.value.is_none());
    assert!(p.props.text_align.is_none());
    assert!(p.props.foreground.is_none());
    assert!(p.props.background.is_none());
    assert!(p.props.text_props.is_none());
    assert!(p.props.focus.is_none());
    assert!(p.props.title.is_none());
    assert!(p.props.borders.is_none());
    assert_eq!(p.state.title, "");
}

#[test]
fn builders_set_their_fields() {
    let p = Playlist::default()
        .alignment(Alignment::Center)
        .foreground(Color::Black)
        .value("hello".to_string())
        .modifiers(MODIFIER_BOLD)
        .label("Playlist")
        .background(Color::Cyan)
        .borders(Borders {
            sides: BORDER_SIDES_ALL,
            line: BorderType::Thick,
            color: Color::Black,
        });
    assert_eq!(p.props.text_align, Some(Alignment::Center));
    assert_eq!(p.props.foreground, Some(Color::Black));
    assert_eq!(p.props.value.as_deref(), Some("hello"));
    assert_eq!(p.props.text_props, Some(MODIFIER_BOLD));
    assert_eq!(
        p.props.title,
        Some(("Playlist".to_string(), Alignment::Center))
    );
    assert_eq!(p.props.background, Some(Color::Cyan));
    assert!(p.props.borders.is_some());
}

#[test]
fn attr_and_query_round_trip() {
    let mut p = Playlist::default();
    assert_eq!(p.query(Attribute::Value), None);
    p.attr(Attribute::Value, AttrValue::Str("bound".to_string()));
    assert_eq!(
        p.query(Attribute::Value),
        Some(AttrValue::Str("bound".to_string()))
    );
    p.attr(Attribute::Display, AttrValue::Flag(false));
    assert_eq!(p.query(Attribute::Display), Some(AttrValue::Flag(false)));
}

#[test]
fn attr_ignores_a_value_of_the_wrong_shape() {
    let mut p = Playlist::default();
    p.attr(Attribute::Display, AttrValue::Str("oops".to_string()));
    assert_eq!(p.query(Attribute::Display), None);
}

#[test]
fn render_plan_fills_in_the_documented_defaults() {
    let p = Playlist::default();
    let plan = p.render_plan().unwrap();
    assert_eq!(plan.text, "default");
    assert_eq!(plan.alignment, Alignment::Left);
    assert_eq!(plan.foreground, Color::Reset);
    assert_eq!(plan.background, Color::Cyan);
    assert_eq!(plan.modifiers, 0);
    assert!(!plan.focus);
    assert_eq!(plan.title, ("".to_string(), Alignment::Center));
}

#[test]
fn render_plan_paints_nothing_when_display_is_off() {
    let mut p = Playlist::default();
    p.attr(Attribute::Display, AttrValue::Flag(false));
    assert!(p.render_plan().is_none());
}

#[test]
fn freshly_mounted_panel_carries_its_styling() {
    let c = PlaylistComponent::new("test".to_string());
    assert_eq!(c.component.props.value.as_deref(), Some("test"));
    assert_eq!(c.component.props.text_align, Some(Alignment::Center));
    assert_eq!(c.component.props.foreground, Some(Color::Black));
    assert_eq!(c.component.props.background, Some(Color::Cyan));
    assert_eq!(c.component.props.text_props, Some(MODIFIER_BOLD));
    assert_eq!(
        c.component.props.title,
        Some(("Playlist".to_string(), Alignment::Center))
    );
    let plan = c.component.render_plan().unwrap();
    assert_eq!(plan.text, "test");
}

#[test]
fn enter_opens_the_playlist() {
    let mut c = PlaylistComponent::new("test".to_string());
    assert_eq!(
        c.on(key(Key::Enter, KEY_MODIFIERS_NONE)),
        Some(Msg::PlaylistOpened)
    );
}

#[test]
fn escape_closes_the_application() {
    let mut c = PlaylistComponent::new("test".to_string());
    assert_eq!(c.on(key(Key::Esc, KEY_MODIFIERS_NONE)), Some(Msg::AppClose));
}

#[test]
fn plain_characters_yield_no_message() {
    let mut c = PlaylistComponent::new("test".to_string());
    assert_eq!(c.on(key(Key::Char('a'), KEY_MODIFIERS_NONE)), None);
    assert_eq!(c.on(key(Key::Char('Z'), KEY_MODIFIERS_NONE)), None);
    assert_eq!(c.on(key(Key::Char('7'), KEY_MODIFIERS_NONE)), None);
}

#[test]
fn modified_keys_and_other_events_yield_no_message() {
    let mut c = PlaylistComponent::new("test".to_string());
    assert_eq!(c.on(key(Key::Esc, KEY_MODIFIER_CONTROL)), None);
    assert_eq!(c.on(key(Key::Enter, KEY_MODIFIER_CONTROL)), None);
    assert_eq!(c.on(key(Key::Tab, KEY_MODIFIERS_NONE)), None);
    assert_eq!(c.on(Event::Tick), None);
    assert_eq!(c.on(Event::WindowResize(80, 24)), None);
}

#[test]
fn translation_is_independent_of_prior_calls() {
    let mut c = PlaylistComponent::new("test".to_string());
    let first = c.on(key(Key::Enter, KEY_MODIFIERS_NONE));
    c.on(key(Key::Char('x'), KEY_MODIFIERS_NONE));
    c.on(key(Key::Esc, KEY_MODIFIERS_NONE));
    let again = c.on(key(Key::Enter, KEY_MODIFIERS_NONE));
    assert_eq!(first, again);
}

#[test]
fn state_exposes_the_display_title() {
    let mut c = PlaylistComponent::new("test".to_string());
    c.component.state.change_title("shown".to_string());
    let State::One(StateValue::Str(s)) = c.component.state();
    assert_eq!(s, "shown");
}

#[test]
fn perform_is_a_no_op() {
    let mut p = Playlist::default();
    assert_eq!(p.perform(Cmd::Submit), CmdResult::Noop);
    assert_eq!(p.perform(Cmd::Noop), CmdResult::Noop);
}
