//! A text input.

use crate::markup::{
    attr, flag, optional_attr, push_attr, push_flag, push_optional_attr, text_of, Markup,
};
use vstd::prelude::*;

verus! {

/// Classes that every input has.
pub const BASE_CLASSES: &'static str =
    "flex w-full rounded-md border border-input bg-background text-foreground px-3 py-2 text-sm ring-offset-background file:border-0 file:bg-transparent file:text-sm file:font-medium placeholder:text-muted-foreground focus-visible:outline-none focus-visible:ring-2 focus-visible:ring-ring focus-visible:ring-offset-2 disabled:cursor-not-allowed disabled:opacity-50";

/// The size of an input.
#[derive(Debug, Clone, Copy, PartialEq, Eq, Structural)]
pub enum InputSize {
    Default,
    Sm,
    Lg,
}

/// What an input is made of.
pub struct Input<'a> {
    size: InputSize,
    placeholder: Option<&'a str>,
    value: Option<&'a str>,
    ty: Option<&'a str>,
    id: Option<&'a str>,
    name: Option<&'a str>,
    class: Option<&'a str>,
    disabled: bool,
    required: bool,
}

/// Mathematical value of an [`Input`].
pub struct InputView {
    pub size: InputSize,
    pub placeholder: Option<Seq<char>>,
    pub value: Option<Seq<char>>,
    pub ty: Option<Seq<char>>,
    pub id: Option<Seq<char>>,
    pub name: Option<Seq<char>>,
    pub class: Option<Seq<char>>,
    pub disabled: bool,
    pub required: bool,
}

impl<'a> View for Input<'a> {
    type V = InputView;

    closed spec fn view(&self) -> InputView {
        InputView {
            size: self.size,
            placeholder: text_of(self.placeholder),
            value: text_of(self.value),
            ty: text_of(self.ty),
            id: text_of(self.id),
            name: text_of(self.name),
            class: text_of(self.class),
            disabled: self.disabled,
            required: self.required,
        }
    }
}

/// The input that [`Input::new`] makes: of the default size, enabled, not
/// required, and without any optional attribute.
pub open spec fn plain_input() -> InputView {
    InputView {
        size: InputSize::Default,
        placeholder: None,
        value: None,
        ty: None,
        id: None,
        name: None,
        class: None,
        disabled: false,
        required: false,
    }
}

/// Classes of a size.
pub open spec fn size_classes(size: InputSize) -> Seq<char> {
    match size {
        InputSize::Default => "h-10"@,
        InputSize::Sm => "h-9"@,
        InputSize::Lg => "h-11"@,
    }
}

/// The value of the `class` attribute of an input: the classes of every
/// input and of its size, then its own, each set apart by a space.
pub open spec fn classes_of(props: InputView) -> Seq<char> {
    let fixed = BASE_CLASSES@ + " "@ + size_classes(props.size);
    match props.class {
        Some(own) => fixed + " "@ + own,
        None => fixed,
    }
}

/// The type of an input: the one it was given, `text` otherwise.
pub open spec fn type_of(props: InputView) -> Seq<char> {
    match props.ty {
        Some(ty) => ty,
        None => "text"@,
    }
}

/// The markup of an input.
pub open spec fn input_markup(props: InputView) -> Seq<char> {
    "<input"@ + attr("class"@, classes_of(props)) + attr("type"@, type_of(props)) + optional_attr(
        "placeholder"@,
        props.placeholder,
    ) + optional_attr("value"@, props.value) + optional_attr("id"@, props.id) + optional_attr(
        "name"@,
        props.name,
    ) + attr("spellcheck"@, "false"@) + flag("disabled"@, props.disabled) + flag(
        "required"@,
        props.required,
    ) + "></input>"@
}

impl<'a> Default for Input<'a> {
    fn default() -> (input: Self)
        ensures
            input@ == plain_input(),
    {
        Self {
            size: InputSize::Default,
            placeholder: None,
            value: None,
            id: None,
            name: None,
            class: None,
            ty: None,
            disabled: false,
            required: false,
        }
    }
}

impl<'a> Input<'a> {
    /// An input without any attribute of its own.
    pub fn new() -> (input: Self)
        ensures
            input@ == plain_input(),
    {
        Self::default()
    }

    /// Sets the size.
    pub fn size(self, size: InputSize) -> (input: Self)
        ensures
            input@ == (InputView { size: size, ..self@ }),
    {
        let mut input = self;
        input.size = size;
        input
    }

    /// Sets the placeholder.
    pub fn placeholder(self, placeholder: &'a str) -> (input: Self)
        ensures
            input@ == (InputView { placeholder: Some(placeholder@), ..self@ }),
    {
        let mut input = self;
        input.placeholder = Some(placeholder);
        input
    }

    /// Sets the value.
    pub fn value(self, value: &'a str) -> (input: Self)
        ensures
            input@ == (InputView { value: Some(value@), ..self@ }),
    {
        let mut input = self;
        input.value = Some(value);
        input
    }

    /// Sets the type.
    pub fn ty(self, value: &'a str) -> (input: Self)
        ensures
            input@ == (InputView { ty: Some(value@), ..self@ }),
    {
        let mut input = self;
        input.ty = Some(value);
        input
    }

    /// Sets the `id` attribute.
    pub fn id(self, id: &'a str) -> (input: Self)
        ensures
            input@ == (InputView { id: Some(id@), ..self@ }),
    {
        let mut input = self;
        input.id = Some(id);
        input
    }

    /// Sets the name of the form field.
    pub fn name(self, name: &'a str) -> (input: Self)
        ensures
            input@ == (InputView { name: Some(name@), ..self@ }),
    {
        let mut input = self;
        input.name = Some(name);
        input
    }

    /// Sets the classes of the input's own.
    pub fn class(self, class: &'a str) -> (input: Self)
        ensures
            input@ == (InputView { class: Some(class@), ..self@ }),
    {
        let mut input = self;
        input.class = Some(class);
        input
    }

    /// Disables or enables the input.
    pub fn disabled(self, disabled: bool) -> (input: Self)
        ensures
            input@ == (InputView { disabled: disabled, ..self@ }),
    {
        let mut input = self;
        input.disabled = disabled;
        input
    }

    /// Makes the input required or optional.
    pub fn required(self, required: bool) -> (input: Self)
        ensures
            input@ == (InputView { required: required, ..self@ }),
    {
        let mut input = self;
        input.required = required;
        input
    }

    /// Renders the input.
    pub fn build(self) -> (markup: Markup)
        ensures
            markup@ == input_markup(self@),
    {
        input(self)
    }
}

fn input(props: Input) -> (markup: Markup)
    ensures
        markup@ == input_markup(props@),
{
    let size_classes = match props.size {
        InputSize::Default => "h-10",
        InputSize::Sm => "h-9",
        InputSize::Lg => "h-11",
    };
    let mut classes = BASE_CLASSES.to_owned();
    classes.append(" ");
    classes.append(size_classes);
    if let Some(additional_class) = props.class {
        classes.append(" ");
        classes.append(additional_class);
    }
    assert(classes@ =~= classes_of(props@));
    let ty = match props.ty {
        Some(ty) => ty,
        None => "text",
    };
    let mut html = "<input".to_owned();
    push_attr(&mut html, "class", classes.as_str());
    push_attr(&mut html, "type", ty);
    push_optional_attr(&mut html, "placeholder", props.placeholder);
    push_optional_attr(&mut html, "value", props.value);
    push_optional_attr(&mut html, "id", props.id);
    push_optional_attr(&mut html, "name", props.name);
    push_attr(&mut html, "spellcheck", "false");
    push_flag(&mut html, "disabled", props.disabled);
    push_flag(&mut html, "required", props.required);
    html.append("></input>");
    assert(html@ =~= input_markup(props@));
    Markup::new(html)
}

} // verus!
