//! A button component.

use crate::markup::{
    attr, flag, optional_attr, push_attr, push_flag, push_optional_attr, text_of, Markup,
};
use vstd::prelude::*;

verus! {

/// Classes that every button has.
pub const BASE_CLASSES: &'static str =
    "inline-flex items-center justify-center rounded-sm text-sm font-medium ring-offset-background transition-colors focus-visible:outline-none focus-visible:ring-2 focus-visible:ring-ring focus-visible:ring-offset-2 disabled:pointer-events-none disabled:opacity-50";

/// The look of a button.
#[derive(Debug, Clone, Copy, PartialEq, Eq, Structural)]
pub enum ButtonVariant {
    Primary,
    Secondary,
    Outline,
    Ghosted,
    Destructive,
}

/// The size of a button.
#[derive(Debug, Clone, Copy, PartialEq, Eq, Structural)]
pub enum ButtonSize {
    Default,
    Sm,
    Lg,
    Icon,
}

/// What a button is made of.
pub struct Button<'a> {
    variant: ButtonVariant,
    size: ButtonSize,
    hx_get: Option<&'a str>,
    disabled: bool,
    class: Option<&'a str>,
}

/// Mathematical value of a [`Button`].
pub struct ButtonView {
    pub variant: ButtonVariant,
    pub size: ButtonSize,
    pub hx_get: Option<Seq<char>>,
    pub disabled: bool,
    pub class: Option<Seq<char>>,
}

impl<'a> View for Button<'a> {
    type V = ButtonView;

    closed spec fn view(&self) -> ButtonView {
        ButtonView {
            variant: self.variant,
            size: self.size,
            hx_get: text_of(self.hx_get),
            disabled: self.disabled,
            class: text_of(self.class),
        }
    }
}

/// The button that [`Button::new`] makes: primary, of the default size,
/// enabled, without a request and without classes of its own.
pub open spec fn plain_button() -> ButtonView {
    ButtonView {
        variant: ButtonVariant::Primary,
        size: ButtonSize::Default,
        hx_get: None,
        disabled: false,
        class: None,
    }
}

/// Classes of a variant.
pub open spec fn variant_classes(variant: ButtonVariant) -> Seq<char> {
    match variant {
        ButtonVariant::Primary => "bg-primary text-primary-foreground hover:bg-primary/90"@,
        ButtonVariant::Secondary => "bg-secondary text-secondary-foreground hover:bg-secondary/80"@,
        ButtonVariant::Outline => "border border-input text-foreground bg-background hover:bg-accent hover:text-accent-foreground"@,
        ButtonVariant::Ghosted => "hover:bg-accent hover:text-accent-foreground"@,
        ButtonVariant::Destructive => "bg-destructive text-destructive-foreground hover:bg-destructive/90"@,
    }
}

/// Classes of a size.
pub open spec fn size_classes(size: ButtonSize) -> Seq<char> {
    match size {
        ButtonSize::Default => "h-10 px-4 py-2"@,
        ButtonSize::Sm => "h-9 rounded-sm px-3"@,
        ButtonSize::Lg => "h-11 rounded-sm px-8"@,
        ButtonSize::Icon => "h-10 w-10"@,
    }
}

/// The value of the `class` attribute of a button: the classes of every
/// button, of its variant and of its size, then its own, each set apart by
/// a space.
pub open spec fn classes_of(props: ButtonView) -> Seq<char> {
    let fixed = BASE_CLASSES@ + " "@ + variant_classes(props.variant) + " "@ + size_classes(
        props.size,
    );
    match props.class {
        Some(own) => fixed + " "@ + own,
        None => fixed,
    }
}

/// The markup of a button around `content`.
pub open spec fn button_markup(props: ButtonView, content: Seq<char>) -> Seq<char> {
    "<button"@ + attr("class"@, classes_of(props)) + optional_attr("hx-get"@, props.hx_get) + flag(
        "disabled"@,
        props.disabled,
    ) + ">"@ + content + "</button>"@
}

impl<'a> Default for Button<'a> {
    fn default() -> (button: Self)
        ensures
            button@ == plain_button(),
    {
        Self {
            variant: ButtonVariant::Primary,
            size: ButtonSize::Default,
            hx_get: None,
            disabled: false,
            class: None,
        }
    }
}

impl<'a> Button<'a> {
    /// A primary button.
    pub fn new() -> (button: Self)
        ensures
            button@ == plain_button(),
    {
        Self::default()
    }

    /// An outline button.
    pub fn outline() -> (button: Self)
        ensures
            button@ == (ButtonView { variant: ButtonVariant::Outline, ..plain_button() }),
    {
        Self::default().variant(ButtonVariant::Outline)
    }

    /// Sets the variant.
    pub fn variant(self, variant: ButtonVariant) -> (button: Self)
        ensures
            button@ == (ButtonView { variant, ..self@ }),
    {
        let mut button = self;
        button.variant = variant;
        button
    }

    /// Sets the size.
    pub fn size(self, size: ButtonSize) -> (button: Self)
        ensures
            button@ == (ButtonView { size, ..self@ }),
    {
        let mut button = self;
        button.size = size;
        button
    }

    /// Sets the URL that a click requests.
    pub fn hx_get(self, hx_get: &'a str) -> (button: Self)
        ensures
            button@ == (ButtonView { hx_get: Some(hx_get@), ..self@ }),
    {
        let mut button = self;
        button.hx_get = Some(hx_get);
        button
    }

    /// Disables or enables the button.
    pub fn disabled(self, disabled: bool) -> (button: Self)
        ensures
            button@ == (ButtonView { disabled, ..self@ }),
    {
        let mut button = self;
        button.disabled = disabled;
        button
    }

    /// Sets the classes of the button's own.
    pub fn class(self, class: &'a str) -> (button: Self)
        ensures
            button@ == (ButtonView { class: Some(class@), ..self@ }),
    {
        let mut button = self;
        button.class = Some(class);
        button
    }

    /// Renders the button around `content`.
    pub fn build(self, content: Markup) -> (markup: Markup)
        ensures
            markup@ == button_markup(self@, content@),
    {
        button(self, content)
    }
}

/// A class list, as it stands.
fn c(input: &'static str) -> (classes: &'static str)
    ensures
        classes@ == input@,
{
    input
}

fn button(props: Button, content: Markup) -> (markup: Markup)
    ensures
        markup@ == button_markup(props@, content@),
{
    let variant_classes = match props.variant {
        ButtonVariant::Primary => "bg-primary text-primary-foreground hover:bg-primary/90",
        ButtonVariant::Secondary => "bg-secondary text-secondary-foreground hover:bg-secondary/80",
        ButtonVariant::Outline => c(
            "border border-input text-foreground bg-background hover:bg-accent hover:text-accent-foreground",
        ),
        ButtonVariant::Ghosted => "hover:bg-accent hover:text-accent-foreground",
        ButtonVariant::Destructive => "bg-destructive text-destructive-foreground hover:bg-destructive/90",
    };
    let size_classes = match props.size {
        ButtonSize::Default => "h-10 px-4 py-2",
        ButtonSize::Sm => "h-9 rounded-sm px-3",
        ButtonSize::Lg => "h-11 rounded-sm px-8",
        ButtonSize::Icon => "h-10 w-10",
    };
    let mut classes = BASE_CLASSES.to_owned();
    classes.append(" ");
    classes.append(variant_classes);
    classes.append(" ");
    classes.append(size_classes);
    if let Some(additional_class) = props.class {
        classes.append(" ");
        classes.append(additional_class);
    }
    assert(classes@ =~= classes_of(props@));
    let mut html = "<button".to_owned();
    push_attr(&mut html, "class", classes.as_str());
    push_optional_attr(&mut html, "hx-get", props.hx_get);
    push_flag(&mut html, "disabled", props.disabled);
    html.append(">");
    html.append(content.as_str());
    html.append("</button>");
    assert(html@ =~= button_markup(props@, content@));
    Markup::new(html)
}

} // verus!
