//! A button component.

use crate::markup::{
    attr, flag, optional_attr, push_attr, push_flag, push_optional_attr, text_of, Markup,
};
use vstd::prelude::*;

verus! {

/// Classes that every button has.
pub const BASE_CLASSES: &'static str =
    "inline-flex items-center justify-center rounded-md text-sm font-medium ring-offset-background transition-colors focus-visible:outline-none focus-visible:ring-2 focus-visible:ring-ring focus-visible:ring-offset-2 disabled:pointer-events-none disabled:opacity-50";

/// The look of a button.
#[derive(Debug, Clone, Copy, PartialEq, Eq, Structural)]
pub enum ButtonVariant {
    Default,
    Secondary,
    Outline,
    Ghosted,
    Destructive,
    Link,
}

/// The size of a button.
#[derive(Debug, Clone, Copy, PartialEq, Eq, Structural)]
pub enum ButtonSize {
    Default,
    Sm,
    Lg,
    Icon,
}

/// What a button is made of.
pub struct Button<'a> {
    variant: ButtonVariant,
    size: ButtonSize,
    ty: Option<&'a str>,
    hx_get: Option<&'a str>,
    hx_post: Option<&'a str>,
    hx_swap: Option<&'a str>,
    disabled: bool,
    class: Option<&'a str>,
    aria_label: Option<&'a str>,
    title: Option<&'a str>,
    id: Option<&'a str>,
}

/// Mathematical value of a [`Button`].
pub struct ButtonView {
    pub variant: ButtonVariant,
    pub size: ButtonSize,
    pub ty: Option<Seq<char>>,
    pub hx_get: Option<Seq<char>>,
    pub hx_post: Option<Seq<char>>,
    pub hx_swap: Option<Seq<char>>,
    pub disabled: bool,
    pub class: Option<Seq<char>>,
    pub aria_label: Option<Seq<char>>,
    pub title: Option<Seq<char>>,
    pub id: Option<Seq<char>>,
}

impl<'a> View for Button<'a> {
    type V = ButtonView;

    closed spec fn view(&self) -> ButtonView {
        ButtonView {
            variant: self.variant,
            size: self.size,
            ty: text_of(self.ty),
            hx_get: text_of(self.hx_get),
            hx_post: text_of(self.hx_post),
            hx_swap: text_of(self.hx_swap),
            disabled: self.disabled,
            class: text_of(self.class),
            aria_label: text_of(self.aria_label),
            title: text_of(self.title),
            id: text_of(self.id),
        }
    }
}

/// The button that [`Button::new`] makes: of the default variant and size,
/// enabled, and without any optional attribute.
pub open spec fn plain_button() -> ButtonView {
    ButtonView {
        variant: ButtonVariant::Default,
        size: ButtonSize::Default,
        ty: None,
        hx_get: None,
        hx_post: None,
        hx_swap: None,
        disabled: false,
        class: None,
        aria_label: None,
        title: None,
        id: None,
    }
}

/// A plain button of the given variant.
pub open spec fn plain_variant(variant: ButtonVariant) -> ButtonView {
    ButtonView { variant, ..plain_button() }
}

/// Classes of a variant.
pub open spec fn variant_classes(variant: ButtonVariant) -> Seq<char> {
    match variant {
        ButtonVariant::Default => "bg-primary text-primary-foreground hover:bg-primary/90 dark:bg-primary dark:text-primary-foreground dark:hover:bg-primary/90"@,
        ButtonVariant::Secondary => "bg-secondary text-secondary-foreground hover:bg-secondary/80 dark:bg-secondary dark:text-secondary-foreground dark:hover:bg-secondary/80"@,
        ButtonVariant::Outline => "border border-input bg-background hover:bg-accent hover:text-accent-foreground dark:border-input dark:bg-background dark:text-foreground dark:hover:bg-accent dark:hover:text-accent-foreground"@,
        ButtonVariant::Ghosted => "hover:bg-accent hover:text-accent-foreground dark:text-foreground dark:hover:bg-accent dark:hover:text-accent-foreground"@,
        ButtonVariant::Destructive => "bg-destructive text-destructive-foreground hover:bg-destructive/90 dark:bg-destructive dark:text-destructive-foreground dark:hover:bg-destructive/90"@,
        ButtonVariant::Link => "text-primary underline-offset-4 hover:underline dark:text-primary"@,
    }
}

/// Classes of a size.
pub open spec fn size_classes(size: ButtonSize) -> Seq<char> {
    match size {
        ButtonSize::Default => "h-10 px-4 py-2"@,
        ButtonSize::Sm => "h-9 rounded-md px-3"@,
        ButtonSize::Lg => "h-11 rounded-md px-8"@,
        ButtonSize::Icon => "h-10 w-10"@,
    }
}

/// The value of the `class` attribute of a button: the classes of every
/// button, of its variant and of its size, then its own, each set apart by
/// a space.
pub open spec fn classes_of(props: ButtonView) -> Seq<char> {
    let fixed = BASE_CLASSES@ + " "@ + variant_classes(props.variant) + " "@ + size_classes(
        props.size,
    );
    match props.class {
        Some(own) => fixed + " "@ + own,
        None => fixed,
    }
}

/// The markup of a button around `content`.
pub open spec fn button_markup(props: ButtonView, content: Seq<char>) -> Seq<char> {
    "<button"@ + attr("class"@, classes_of(props)) + optional_attr("hx-get"@, props.hx_get)
        + optional_attr("hx-post"@, props.hx_post) + optional_attr("hx-swap"@, props.hx_swap)
        + flag("disabled"@, props.disabled) + optional_attr("aria-label"@, props.aria_label)
        + optional_attr("title"@, props.title) + optional_attr("id"@, props.id) + optional_attr(
        "type"@,
        props.ty,
    ) + ">"@ + content + "</button>"@
}

impl<'a> Default for Button<'a> {
    fn default() -> (button: Self)
        ensures
            button@ == plain_button(),
    {
        Self {
            variant: ButtonVariant::Default,
            size: ButtonSize::Default,
            ty: None,
            hx_get: None,
            hx_post: None,
            hx_swap: None,
            disabled: false,
            class: None,
            aria_label: None,
            title: None,
            id: None,
        }
    }
}

impl<'a> Button<'a> {
    /// A button of the default variant.
    pub fn new() -> (button: Self)
        ensures
            button@ == plain_button(),
    {
        Self::default()
    }

    /// A secondary button.
    pub fn secondary() -> (button: Self)
        ensures
            button@ == plain_variant(ButtonVariant::Secondary),
    {
        Self::default().variant(ButtonVariant::Secondary)
    }

    /// An outline button.
    pub fn outline() -> (button: Self)
        ensures
            button@ == plain_variant(ButtonVariant::Outline),
    {
        Self::default().variant(ButtonVariant::Outline)
    }

    /// A ghost button.
    pub fn ghost() -> (button: Self)
        ensures
            button@ == plain_variant(ButtonVariant::Ghosted),
    {
        Self::default().variant(ButtonVariant::Ghosted)
    }

    /// A destructive button.
    pub fn destructive() -> (button: Self)
        ensures
            button@ == plain_variant(ButtonVariant::Destructive),
    {
        Self::default().variant(ButtonVariant::Destructive)
    }

    /// A button that looks like a link.
    pub fn link() -> (button: Self)
        ensures
            button@ == plain_variant(ButtonVariant::Link),
    {
        Self::default().variant(ButtonVariant::Link)
    }

    /// Sets the variant.
    pub fn variant(self, variant: ButtonVariant) -> (button: Self)
        ensures
            button@ == (ButtonView { variant: variant, ..self@ }),
    {
        let mut button = self;
        button.variant = variant;
        button
    }

    /// Sets the size.
    pub fn size(self, size: ButtonSize) -> (button: Self)
        ensures
            button@ == (ButtonView { size: size, ..self@ }),
    {
        let mut button = self;
        button.size = size;
        button
    }

    /// Sets the `type` attribute.
    pub fn ty(self, ty: &'a str) -> (button: Self)
        ensures
            button@ == (ButtonView { ty: Some(ty@), ..self@ }),
    {
        let mut button = self;
        button.ty = Some(ty);
        button
    }

    /// Sets the `hx-get` attribute.
    pub fn hx_get(self, hx_get: &'a str) -> (button: Self)
        ensures
            button@ == (ButtonView { hx_get: Some(hx_get@), ..self@ }),
    {
        let mut button = self;
        button.hx_get = Some(hx_get);
        button
    }

    /// Sets the `hx-post` attribute.
    pub fn hx_post(self, hx_post: &'a str) -> (button: Self)
        ensures
            button@ == (ButtonView { hx_post: Some(hx_post@), ..self@ }),
    {
        let mut button = self;
        button.hx_post = Some(hx_post);
        button
    }

    /// Takes a swap strategy, and keeps it as the value of the `hx-post`
    /// attribute. The `hx-swap` attribute of the button is left as it is.
    pub fn hx_swap(self, hx_swap: &'a str) -> (button: Self)
        ensures
            button@ == (ButtonView { hx_post: Some(hx_swap@), ..self@ }),
    {
        let mut button = self;
        button.hx_post = Some(hx_swap);
        button
    }

    /// Disables or enables the button.
    pub fn disabled(self, disabled: bool) -> (button: Self)
        ensures
            button@ == (ButtonView { disabled: disabled, ..self@ }),
    {
        let mut button = self;
        button.disabled = disabled;
        button
    }

    /// Sets the classes of the button's own.
    pub fn class(self, class: &'a str) -> (button: Self)
        ensures
            button@ == (ButtonView { class: Some(class@), ..self@ }),
    {
        let mut button = self;
        button.class = Some(class);
        button
    }

    /// Sets the `aria-label` attribute.
    pub fn aria_label(self, aria_label: &'a str) -> (button: Self)
        ensures
            button@ == (ButtonView { aria_label: Some(aria_label@), ..self@ }),
    {
        let mut button = self;
        button.aria_label = Some(aria_label);
        button
    }

    /// Sets the `title` attribute.
    pub fn title(self, title: &'a str) -> (button: Self)
        ensures
            button@ == (ButtonView { title: Some(title@), ..self@ }),
    {
        let mut button = self;
        button.title = Some(title);
        button
    }

    /// Sets the `id` attribute.
    pub fn id(self, id: &'a str) -> (button: Self)
        ensures
            button@ == (ButtonView { id: Some(id@), ..self@ }),
    {
        let mut button = self;
        button.id = Some(id);
        button
    }

    /// Renders the button around `content`.
    pub fn build(self, content: Markup) -> (markup: Markup)
        ensures
            markup@ == button_markup(self@, content@),
    {
        button(self, content)
    }
}

fn button(props: Button, content: Markup) -> (markup: Markup)
    ensures
        markup@ == button_markup(props@, content@),
{
    let variant_classes = match props.variant {
        ButtonVariant::Default => "bg-primary text-primary-foreground hover:bg-primary/90 dark:bg-primary dark:text-primary-foreground dark:hover:bg-primary/90",
        ButtonVariant::Secondary => "bg-secondary text-secondary-foreground hover:bg-secondary/80 dark:bg-secondary dark:text-secondary-foreground dark:hover:bg-secondary/80",
        ButtonVariant::Outline => "border border-input bg-background hover:bg-accent hover:text-accent-foreground dark:border-input dark:bg-background dark:text-foreground dark:hover:bg-accent dark:hover:text-accent-foreground",
        ButtonVariant::Ghosted => "hover:bg-accent hover:text-accent-foreground dark:text-foreground dark:hover:bg-accent dark:hover:text-accent-foreground",
        ButtonVariant::Destructive => "bg-destructive text-destructive-foreground hover:bg-destructive/90 dark:bg-destructive dark:text-destructive-foreground dark:hover:bg-destructive/90",
        ButtonVariant::Link => "text-primary underline-offset-4 hover:underline dark:text-primary",
    };
    let size_classes = match props.size {
        ButtonSize::Default => "h-10 px-4 py-2",
        ButtonSize::Sm => "h-9 rounded-md px-3",
        ButtonSize::Lg => "h-11 rounded-md px-8",
        ButtonSize::Icon => "h-10 w-10",
    };
    let mut classes = BASE_CLASSES.to_owned();
    classes.append(" ");
    classes.append(variant_classes);
    classes.append(" ");
    classes.append(size_classes);
    if let Some(additional_class) = props.class {
        classes.append(" ");
        classes.append(additional_class);
    }
    assert(classes@ =~= classes_of(props@));
    let mut html = "<button".to_owned();
    push_attr(&mut html, "class", classes.as_str());
    push_optional_attr(&mut html, "hx-get", props.hx_get);
    push_optional_attr(&mut html, "hx-post", props.hx_post);
    push_optional_attr(&mut html, "hx-swap", props.hx_swap);
    push_flag(&mut html, "disabled", props.disabled);
    push_optional_attr(&mut html, "aria-label", props.aria_label);
    push_optional_attr(&mut html, "title", props.title);
    push_optional_attr(&mut html, "id", props.id);
    push_optional_attr(&mut html, "type", props.ty);
    html.append(">");
    html.append(content.as_str());
    html.append("</button>");
    Markup::new(html)
}

} // verus!
