//! The playlist panel: a property bag with typed fields and documented
//! defaults, a minimal internal state, and the keystroke-to-message
//! translation.

use vstd::prelude::*;

use crate::app::Msg;
use crate::tui::{
    Alignment, AttrValue, Attribute, Borders, Cmd, CmdResult, Color, Event, Key, State,
    StateValue, KEY_MODIFIERS_NONE, MODIFIERS_EMPTY, MODIFIER_BOLD,
};

verus! {

/// The internal state of the playlist panel: currently just a display
/// title, replaced wholesale by its own setter.
pub struct PlaylistStates {
    pub title: String,
}

impl PlaylistStates {
    /// Replaces the display title.
    pub fn change_title(&mut self, title: String)
        ensures
            final(self).title == title,
    {
        self.title = title;
    }
}

impl Default for PlaylistStates {
    /// The initial state: an empty title.
    fn default() -> (r: Self)
        ensures
            r.title@ == Seq::<char>::empty(),
    {
        PlaylistStates { title: String::new() }
    }
}

/// The property bag of the playlist panel, one statically typed field per
/// attribute; an unset field falls back to its documented default when the
/// panel is rendered.
pub struct PlaylistProps {
    pub display: Option<bool>,
    pub value: Option<String>,
    pub text_align: Option<Alignment>,
    pub foreground: Option<Color>,
    pub background: Option<Color>,
    pub text_props: Option<u16>,
    pub focus: Option<bool>,
    pub title: Option<(String, Alignment)>,
    pub borders: Option<Borders>,
}

/// All fields of the two bags agree, except possibly the one that the
/// given attribute owns.
pub open spec fn agrees_except(a: PlaylistProps, b: PlaylistProps, attr: Attribute) -> bool {
    &&& (attr != Attribute::Display ==> a.display == b.display)
    &&& (attr != Attribute::Value ==> a.value == b.value)
    &&& (attr != Attribute::TextAlign ==> a.text_align == b.text_align)
    &&& (attr != Attribute::Foreground ==> a.foreground == b.foreground)
    &&& (attr != Attribute::Background ==> a.background == b.background)
    &&& (attr != Attribute::TextProps ==> a.text_props == b.text_props)
    &&& (attr != Attribute::Focus ==> a.focus == b.focus)
    &&& (attr != Attribute::Title ==> a.title == b.title)
    &&& (attr != Attribute::Borders ==> a.borders == b.borders)
}

/// The new bag holds the given value in the field the attribute owns; a
/// value of the wrong shape for its attribute leaves the bag unchanged.
pub open spec fn set_applied(
    old_p: PlaylistProps,
    new_p: PlaylistProps,
    attr: Attribute,
    value: AttrValue,
) -> bool {
    match (attr, value) {
        (Attribute::Display, AttrValue::Flag(b)) => new_p.display == Some(b),
        (Attribute::Focus, AttrValue::Flag(b)) => new_p.focus == Some(b),
        (Attribute::Value, AttrValue::Str(s)) => new_p.value == Some(s),
        (Attribute::TextAlign, AttrValue::Alignment(a)) => new_p.text_align == Some(a),
        (Attribute::Foreground, AttrValue::Color(c)) => new_p.foreground == Some(c),
        (Attribute::Background, AttrValue::Color(c)) => new_p.background == Some(c),
        (Attribute::TextProps, AttrValue::TextModifiers(m)) => new_p.text_props == Some(m),
        (Attribute::Title, AttrValue::Title(s, a)) => new_p.title == Some((s, a)),
        (Attribute::Borders, AttrValue::Borders(b)) => new_p.borders == Some(b),
        _ => new_p == old_p,
    }
}

/// The attribute's current value, read back in the shape it was set with.
pub open spec fn attr_of(p: PlaylistProps, attr: Attribute) -> Option<AttrValue> {
    match attr {
        Attribute::Display => match p.display {
            Some(b) => Some(AttrValue::Flag(b)),
            None => None,
        },
        Attribute::Focus => match p.focus {
            Some(b) => Some(AttrValue::Flag(b)),
            None => None,
        },
        Attribute::Value => match p.value {
            Some(s) => Some(AttrValue::Str(s)),
            None => None,
        },
        Attribute::TextAlign => match p.text_align {
            Some(a) => Some(AttrValue::Alignment(a)),
            None => None,
        },
        Attribute::Foreground => match p.foreground {
            Some(c) => Some(AttrValue::Color(c)),
            None => None,
        },
        Attribute::Background => match p.background {
            Some(c) => Some(AttrValue::Color(c)),
            None => None,
        },
        Attribute::TextProps => match p.text_props {
            Some(m) => Some(AttrValue::TextModifiers(m)),
            None => None,
        },
        Attribute::Title => match p.title {
            Some(t) => Some(AttrValue::Title(t.0, t.1)),
            None => None,
        },
        Attribute::Borders => match p.borders {
            Some(b) => Some(AttrValue::Borders(b)),
            None => None,
        },
    }
}

/// The playlist panel: its property bag and its internal state.
pub struct Playlist {
    pub props: PlaylistProps,
    pub state: PlaylistStates,
}

impl Default for Playlist {
    /// A panel with every property unset and the initial internal state.
    fn default() -> (r: Self)
        ensures
            r.props.display is None,
            r.props.value is None,
            r.props.text_align is None,
            r.props.foreground is None,
            r.props.background is None,
            r.props.text_props is None,
            r.props.focus is None,
            r.props.title is None,
            r.props.borders is None,
            r.state.title@ == Seq::<char>::empty(),
    {
        Playlist {
            props: PlaylistProps {
                display: None,
                value: None,
                text_align: None,
                foreground: None,
                background: None,
                text_props: None,
                focus: None,
                title: None,
                borders: None,
            },
            state: PlaylistStates::default(),
        }
    }
}

/// What the panel would paint, after every unset property has fallen back
/// to its documented default.
pub struct RenderPlan {
    pub text: String,
    pub alignment: Alignment,
    pub foreground: Color,
    pub background: Color,
    pub modifiers: u16,
    pub focus: bool,
    pub title: (String, Alignment),
}

/// Whether the panel paints at all: the display flag, on by default.
pub open spec fn display_of(p: PlaylistProps) -> bool {
    match p.display {
        Some(b) => b,
        None => true,
    }
}

/// The text painted: the bound value, or "default".
pub open spec fn text_of(p: PlaylistProps) -> Seq<char> {
    match p.value {
        Some(s) => s@,
        None => "default"@,
    }
}

/// The text alignment: left by default.
pub open spec fn alignment_of(p: PlaylistProps) -> Alignment {
    match p.text_align {
        Some(a) => a,
        None => Alignment::Left,
    }
}

/// The foreground color: the terminal's reset color by default.
pub open spec fn foreground_of(p: PlaylistProps) -> Color {
    match p.foreground {
        Some(c) => c,
        None => Color::Reset,
    }
}

/// The background color: the fixed cyan accent by default.
pub open spec fn background_of(p: PlaylistProps) -> Color {
    match p.background {
        Some(c) => c,
        None => Color::Cyan,
    }
}

/// The text modifiers: none by default.
pub open spec fn modifiers_of(p: PlaylistProps) -> u16 {
    match p.text_props {
        Some(m) => m,
        None => MODIFIERS_EMPTY,
    }
}

/// The focus flag: unfocused by default.
pub open spec fn focus_of(p: PlaylistProps) -> bool {
    match p.focus {
        Some(b) => b,
        None => false,
    }
}

/// The block title: empty and centered by default.
pub open spec fn title_text_of(p: PlaylistProps) -> Seq<char> {
    match p.title {
        Some(t) => t.0@,
        None => Seq::<char>::empty(),
    }
}

/// The alignment of the block title: centered by default.
pub open spec fn title_align_of(p: PlaylistProps) -> Alignment {
    match p.title {
        Some(t) => t.1,
        None => Alignment::Center,
    }
}

/// The plan is exactly what the bag resolves to: absent when the display
/// flag is off, and otherwise each property or its documented default.
pub open spec fn plan_matches(p: PlaylistProps, r: Option<RenderPlan>) -> bool {
    &&& (r is Some) == display_of(p)
    &&& (r matches Some(plan) ==> {
        &&& plan.text@ == text_of(p)
        &&& plan.alignment == alignment_of(p)
        &&& plan.foreground == foreground_of(p)
        &&& plan.background == background_of(p)
        &&& plan.modifiers == modifiers_of(p)
        &&& plan.focus == focus_of(p)
        &&& plan.title.0@ == title_text_of(p)
        &&& plan.title.1 == title_align_of(p)
    })
}

impl Playlist {
    /// Sets one property; a value of the wrong shape for the attribute is
    /// ignored. The internal state is untouched.
    pub fn attr(&mut self, attr: Attribute, value: AttrValue)
        ensures
            final(self).state == old(self).state,
            agrees_except(old(self).props, final(self).props, attr),
            set_applied(old(self).props, final(self).props, attr, value),
    {
        match (attr, value) {
            (Attribute::Display, AttrValue::Flag(b)) => self.props.display = Some(b),
            (Attribute::Focus, AttrValue::Flag(b)) => self.props.focus = Some(b),
            (Attribute::Value, AttrValue::Str(s)) => self.props.value = Some(s),
            (Attribute::TextAlign, AttrValue::Alignment(a)) => self.props.text_align = Some(a),
            (Attribute::Foreground, AttrValue::Color(c)) => self.props.foreground = Some(c),
            (Attribute::Background, AttrValue::Color(c)) => self.props.background = Some(c),
            (Attribute::TextProps, AttrValue::TextModifiers(m)) => self.props.text_props = Some(
                m,
            ),
            (Attribute::Title, AttrValue::Title(s, a)) => self.props.title = Some((s, a)),
            (Attribute::Borders, AttrValue::Borders(b)) => self.props.borders = Some(b),
            _ => {},
        }
    }

    /// Reads one property back, in the shape it was set with.
    pub fn query(&self, attr: Attribute) -> (r: Option<AttrValue>)
        ensures
            r == attr_of(self.props, attr),
    {
        match attr {
            Attribute::Display => match &self.props.display {
                Some(b) => Some(AttrValue::Flag(*b)),
                None => None,
            },
            Attribute::Focus => match &self.props.focus {
                Some(b) => Some(AttrValue::Flag(*b)),
                None => None,
            },
            Attribute::Value => match &self.props.value {
                Some(s) => Some(AttrValue::Str(s.clone())),
                None => None,
            },
            Attribute::TextAlign => match &self.props.text_align {
                Some(a) => Some(AttrValue::Alignment(*a)),
                None => None,
            },
            Attribute::Foreground => match &self.props.foreground {
                Some(c) => Some(AttrValue::Color(*c)),
                None => None,
            },
            Attribute::Background => match &self.props.background {
                Some(c) => Some(AttrValue::Color(*c)),
                None => None,
            },
            Attribute::TextProps => match &self.props.text_props {
                Some(m) => Some(AttrValue::TextModifiers(*m)),
                None => None,
            },
            Attribute::Title => match &self.props.title {
                Some(t) => Some(AttrValue::Title(t.0.clone(), t.1)),
                None => None,
            },
            Attribute::Borders => match &self.props.borders {
                Some(b) => Some(AttrValue::Borders(*b)),
                None => None,
            },
        }
    }

    /// The state the panel exposes: its display title.
    pub fn state(&self) -> (r: State)
        ensures
            r matches State::One(StateValue::Str(s)) && s@ == self.state.title@,
    {
        State::One(StateValue::Str(self.state.title.clone()))
    }

    /// Performs a command; the panel handles none yet, so every command is
    /// a no-op that leaves the panel untouched.
    pub fn perform(&mut self, cmd: Cmd) -> (r: CmdResult)
        ensures
            r == CmdResult::Noop,
            final(self).props == old(self).props,
            final(self).state == old(self).state,
    {
        match cmd {
            _ => CmdResult::Noop,
        }
    }

    /// Resolves the property bag into what would be painted: nothing when
    /// the display flag is off, and otherwise every property with its
    /// documented default filled in.
    pub fn render_plan(&self) -> (r: Option<RenderPlan>)
        ensures
            plan_matches(self.props, r),
    {
        let display = match &self.props.display {
            Some(b) => *b,
            None => true,
        };
        if !display {
            return None;
        }
        let text = match &self.props.value {
            Some(s) => s.clone(),
            None => String::from_str("default"),
        };
        let alignment = match &self.props.text_align {
            Some(a) => *a,
            None => Alignment::Left,
        };
        let foreground = match &self.props.foreground {
            Some(c) => *c,
            None => Color::Reset,
        };
        let background = match &self.props.background {
            Some(c) => *c,
            None => Color::Cyan,
        };
        let modifiers = match &self.props.text_props {
            Some(m) => *m,
            None => MODIFIERS_EMPTY,
        };
        let focus = match &self.props.focus {
            Some(b) => *b,
            None => false,
        };
        let title = match &self.props.title {
            Some(t) => (t.0.clone(), t.1),
            None => (String::new(), Alignment::Center),
        };
        Some(RenderPlan { text, alignment, foreground, background, modifiers, focus, title })
    }

    /// Sets the block title, centered; builder-style.
    pub fn label(self, label: &str) -> (r: Self)
        ensures
            agrees_except(self.props, r.props, Attribute::Title),
            r.props.title matches Some(t) && t.0@ == label@ && t.1 == Alignment::Center,
            r.state == self.state,
    {
        let mut this = self;
        this.attr(
            Attribute::Title,
            AttrValue::Title(String::from_str(label), Alignment::Center),
        );
        this
    }

    /// Sets the text alignment; builder-style.
    pub fn alignment(self, a: Alignment) -> (r: Self)
        ensures
            agrees_except(self.props, r.props, Attribute::TextAlign),
            r.props.text_align == Some(a),
            r.state == self.state,
    {
        let mut this = self;
        this.attr(Attribute::TextAlign, AttrValue::Alignment(a));
        this
    }

    /// Sets the foreground color; builder-style.
    pub fn foreground(self, c: Color) -> (r: Self)
        ensures
            agrees_except(self.props, r.props, Attribute::Foreground),
            r.props.foreground == Some(c),
            r.state == self.state,
    {
        let mut this = self;
        this.attr(Attribute::Foreground, AttrValue::Color(c));
        this
    }

    /// Sets the background color; builder-style.
    pub fn background(self, c: Color) -> (r: Self)
        ensures
            agrees_except(self.props, r.props, Attribute::Background),
            r.props.background == Some(c),
            r.state == self.state,
    {
        let mut this = self;
        this.attr(Attribute::Background, AttrValue::Color(c));
        this
    }

    /// Sets the text modifiers; builder-style.
    pub fn modifiers(self, m: u16) -> (r: Self)
        ensures
            agrees_except(self.props, r.props, Attribute::TextProps),
            r.props.text_props == Some(m),
            r.state == self.state,
    {
        let mut this = self;
        this.attr(Attribute::TextProps, AttrValue::TextModifiers(m));
        this
    }

    /// Sets the bound text value; builder-style.
    pub fn value(self, s: String) -> (r: Self)
        ensures
            agrees_except(self.props, r.props, Attribute::Value),
            r.props.value == Some(s),
            r.state == self.state,
    {
        let mut this = self;
        this.attr(Attribute::Value, AttrValue::Str(s));
        this
    }

    /// Sets the border configuration; builder-style.
    pub fn borders(self, b: Borders) -> (r: Self)
        ensures
            agrees_except(self.props, r.props, Attribute::Borders),
            r.props.borders == Some(b),
            r.state == self.state,
    {
        let mut this = self;
        this.attr(Attribute::Borders, AttrValue::Borders(b));
        this
    }
}

/// The playlist panel as mounted in the UI tree.
pub struct PlaylistComponent {
    pub component: Playlist,
}

/// A freshly mounted playlist panel showing the given text: centered black
/// bold text on the cyan accent, under a centered "Playlist" title, with
/// everything else unset.
pub open spec fn freshly_mounted(c: PlaylistComponent, text: Seq<char>) -> bool {
    &&& c.component.props.text_align == Some(Alignment::Center)
    &&& c.component.props.foreground == Some(Color::Black)
    &&& (c.component.props.value matches Some(v) && v@ == text)
    &&& c.component.props.text_props == Some(MODIFIER_BOLD)
    &&& (c.component.props.title matches Some(t) && t.0@ == "Playlist"@ && t.1
        == Alignment::Center)
    &&& c.component.props.background == Some(Color::Cyan)
    &&& c.component.props.display is None
    &&& c.component.props.focus is None
    &&& c.component.props.borders is None
    &&& c.component.state.title@ == Seq::<char>::empty()
}

/// The message a keyboard event translates to: Enter opens the playlist,
/// Escape closes the application, and everything else — any plain
/// character, any modified key, any non-keyboard event — yields none.
pub open spec fn msg_for_event(ev: Event) -> Option<Msg> {
    match ev {
        Event::Keyboard(k) => if k.modifiers == KEY_MODIFIERS_NONE {
            match k.code {
                Key::Enter => Some(Msg::PlaylistOpened),
                Key::Esc => Some(Msg::AppClose),
                _ => None,
            }
        } else {
            None
        },
        _ => None,
    }
}

/// Relies on char::is_alphabetic of std: whether the character has the
/// Unicode alphabetic property. Both branches it selects are no-ops for
/// the panel, so nothing further is assumed of it.
#[verifier::external_body]
fn char_is_alphabetic(c: char) -> (r: bool) {
    c.is_alphabetic()
}

impl PlaylistComponent {
    /// Mounts a fresh playlist panel showing the given text.
    pub fn new(initial_value: String) -> (r: Self)
        ensures
            freshly_mounted(r, initial_value@),
    {
        PlaylistComponent {
            component: Playlist::default().alignment(Alignment::Center).foreground(
                Color::Black,
            ).value(initial_value).modifiers(MODIFIER_BOLD).label("Playlist").background(
                Color::Cyan,
            ),
        }
    }

    /// Translates one event into at most one message, independent of any
    /// prior call: a plain alphabetic keystroke performs the internal
    /// submit command (a no-op today), plain Enter opens the playlist,
    /// plain Escape closes the application, and everything else performs
    /// nothing. The panel itself is left untouched either way.
    pub fn on(&mut self, ev: Event) -> (r: Option<Msg>)
        ensures
            r == msg_for_event(ev),
            final(self).component == old(self).component,
    {
        let cmd = match ev {
            Event::Keyboard(k) => {
                if k.modifiers == KEY_MODIFIERS_NONE {
                    match k.code {
                        Key::Char(ch) => if char_is_alphabetic(ch) {
                            Cmd::Submit
                        } else {
                            Cmd::Noop
                        },
                        Key::Enter => {
                            return Some(Msg::PlaylistOpened);
                        },
                        Key::Esc => {
                            return Some(Msg::AppClose);
                        },
                        _ => Cmd::Noop,
                    }
                } else {
                    Cmd::Noop
                }
            },
            _ => Cmd::Noop,
        };
        match self.component.perform(cmd) {
            _ => None,
        }
    }
}

} // verus!
