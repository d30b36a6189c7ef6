use vstd::prelude::*;

verus! {

/// How an icon is painted: as a mask in the foreground colour, or in its own colours.
#[derive(Clone, Copy, Debug, PartialEq, Eq, Structural)]
pub enum ButtonRenderMode {
    Mask,
    Color,
}

impl Default for ButtonRenderMode {
    fn default() -> (r: Self)
        ensures
            r == ButtonRenderMode::Mask,
    {
        ButtonRenderMode::Mask
    }
}

/// The configured layout of the default page: a group of buttons at each end.
pub struct Layout {
    pub left: ButtonGroup,
    pub right: ButtonGroup,
}

/// A group of buttons laid side by side, `spacing` pixels apart.
pub struct ButtonGroup {
    pub spacing: u32,
    pub buttons: Vec<ButtonConfig>,
}

/// One configured button: an icon name or a text label, the name of its action, and its
/// width in pixels.
pub struct ButtonConfig {
    pub text: Option<String>,
    pub icon: Option<String>,
    pub action: String,
    pub width: u32,
    pub render_mode: ButtonRenderMode,
}

/// What a configured button says, as plain values.
pub struct ConfigView {
    pub text: Option<Seq<char>>,
    pub icon: Option<Seq<char>>,
    pub action: Seq<char>,
    pub width: u32,
    pub render_mode: ButtonRenderMode,
}

pub open spec fn opt_view(o: Option<String>) -> Option<Seq<char>> {
    match o {
        Some(s) => Some(s@),
        None => None,
    }
}

impl ButtonConfig {
    pub open spec fn view_of(&self) -> ConfigView {
        ConfigView {
            text: opt_view(self.text),
            icon: opt_view(self.icon),
            action: self.action@,
            width: self.width,
            render_mode: self.render_mode,
        }
    }

    /// A field-for-field copy.
    pub fn duplicate(&self) -> (r: Self)
        ensures
            r == *self,
    {
        ButtonConfig {
            text: match &self.text {
                Some(t) => Some(t.clone()),
                None => None,
            },
            icon: match &self.icon {
                Some(t) => Some(t.clone()),
                None => None,
            },
            action: self.action.clone(),
            width: self.width,
            render_mode: self.render_mode,
        }
    }
}

} // verus!
