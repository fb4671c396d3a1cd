use vstd::prelude::*;

pub mod button;

verus! {

#[derive(Debug, Clone)]
pub enum Message {
    DoNothing,
    Open(String),
    SelectedTheme(ButtonStyle),
}

/// The style variants a button can be shown in.
#[derive(Debug, Clone, Copy, PartialEq, Eq, Structural)]
pub enum ButtonStyle {
    Primary,
    Secondary,
    Destructive,
    Text,
}

/// Work for the host.
#[derive(Debug, Clone, PartialEq, Eq)]
pub enum Task {
    /// Open the link in the user's browser.
    Open(String),
    /// Close the style picker's list and clear its search text.
    UnfocusStyleSelector,
}

pub open spec fn style_name(s: ButtonStyle) -> Seq<char> {
    match s {
        ButtonStyle::Primary => "Primary"@,
        ButtonStyle::Secondary => "Secondary"@,
        ButtonStyle::Destructive => "Destructive"@,
        ButtonStyle::Text => "Text"@,
    }
}

pub open spec fn all_styles() -> Seq<ButtonStyle> {
    seq![ButtonStyle::Primary, ButtonStyle::Secondary, ButtonStyle::Destructive, ButtonStyle::Text]
}

impl ButtonStyle {
    /// Every style, in the order the picker lists them.
    pub fn all() -> (r: Vec<ButtonStyle>)
        ensures
            r@ == all_styles(),
    {
        let r = vec![
            ButtonStyle::Primary,
            ButtonStyle::Secondary,
            ButtonStyle::Destructive,
            ButtonStyle::Text,
        ];
        assert(r@ =~= all_styles());
        r
    }

    /// The name the picker shows for the style.
    pub fn to_string(&self) -> (r: String)
        ensures
            r@ == style_name(*self),
    {
        match self {
            ButtonStyle::Primary => "Primary".to_owned(),
            ButtonStyle::Secondary => "Secondary".to_owned(),
            ButtonStyle::Destructive => "Destructive".to_owned(),
            ButtonStyle::Text => "Text".to_owned(),
        }
    }
}

/// A page that shows what a button can do, with a picker for the style of
/// its last sample button.
pub struct ButtonExample {
    pub selected_theme: ButtonStyle,
}

impl ButtonExample {
    /// The destructive style is picked at first.
    pub fn new() -> (r: ButtonExample)
        ensures
            r.selected_theme == ButtonStyle::Destructive,
    {
        ButtonExample { selected_theme: ButtonStyle::Destructive }
    }

    pub fn title(&self) -> (r: String)
        ensures
            r@ == "Button Example"@,
    {
        "Button Example".to_owned()
    }

    /// A link asks the host to open it; a picked style becomes the shown one
    /// and the picker closes; the sample buttons change nothing.
    pub fn update(&mut self, message: Message) -> (r: Option<Task>)
        ensures
            match message {
                Message::DoNothing => {
                    &&& r is None
                    &&& final(self).selected_theme == old(self).selected_theme
                },
                Message::Open(url) => {
                    &&& r matches Some(Task::Open(u)) && u@ == url@
                    &&& final(self).selected_theme == old(self).selected_theme
                },
                Message::SelectedTheme(style) => {
                    &&& r matches Some(Task::UnfocusStyleSelector)
                    &&& final(self).selected_theme == style
                },
            },
    {
        match message {
            Message::DoNothing => None,
            Message::Open(url) => Some(Task::Open(url)),
            Message::SelectedTheme(selected_theme) => {
                self.selected_theme = selected_theme;
                Some(Task::UnfocusStyleSelector)
            },
        }
    }
}

} // verus!
