//! A plain text input and a form that shows it in use.

use crate::markup::{attr, escaped, flag, push_attr, push_flag, Markup};
use vstd::prelude::*;

verus! {

/// Classes of every input.
pub const BASE_CLASSES: &'static str =
    "flex h-10 w-full rounded-md border border-input bg-background px-3 py-2 text-sm ring-offset-background file:border-0 file:bg-transparent file:text-sm file:font-medium placeholder:text-muted-foreground focus-visible:outline-none focus-visible:ring-2 focus-visible:ring-ring focus-visible:ring-offset-2 disabled:cursor-not-allowed disabled:opacity-50";

/// Classes of the form.
pub const FORM_CLASSES: &'static str = "space-y-4 w-full max-w-sm";

/// Classes of a label.
pub const LABEL_CLASSES: &'static str = "block text-sm font-medium text-gray-700";

struct InputProps<'a> {
    id: &'a str,
    placeholder: Option<&'a str>,
    input_type: &'a str,
    disabled: bool,
    required: bool,
}

/// The markup of an input. An input without a placeholder gets an empty
/// one.
pub open spec fn input_markup(
    id: Seq<char>,
    placeholder: Option<Seq<char>>,
    input_type: Seq<char>,
    disabled: bool,
    required: bool,
) -> Seq<char> {
    "<input"@ + attr("id"@, id) + attr("type"@, input_type) + attr("class"@, BASE_CLASSES@) + attr(
        "placeholder"@,
        match placeholder {
            Some(text) => text,
            None => Seq::empty(),
        },
    ) + flag("disabled"@, disabled) + flag("required"@, required) + "></input>"@
}

/// The markup of a labelled input: a label for the input `id`, and below it
/// the input itself.
pub open spec fn labelled_markup(
    id: Seq<char>,
    label: Seq<char>,
    placeholder: Seq<char>,
    input_type: Seq<char>,
    disabled: bool,
    required: bool,
) -> Seq<char> {
    "<div><label"@ + attr("for"@, id) + attr("class"@, LABEL_CLASSES@) + ">"@ + escaped(label)
        + "</label><div"@ + attr("class"@, "mt-1"@) + ">"@ + input_markup(
        id,
        Some(placeholder),
        input_type,
        disabled,
        required,
    ) + "</div></div>"@
}

/// The markup of the form: a required e-mail input, a required password
/// input and a disabled text input, each with its label.
pub open spec fn form_markup() -> Seq<char> {
    "<form"@ + attr("class"@, FORM_CLASSES@) + ">"@ + labelled_markup(
        "email"@,
        "Email"@,
        "Enter your email"@,
        "email"@,
        false,
        true,
    ) + labelled_markup(
        "password"@,
        "Password"@,
        "Enter your password"@,
        "password"@,
        false,
        true,
    ) + labelled_markup(
        "disabled-input"@,
        "Disabled Input"@,
        "This input is disabled"@,
        "text"@,
        true,
        false,
    ) + "</form>"@
}

fn input(props: InputProps) -> (markup: Markup)
    ensures
        markup@ == input_markup(
            props.id@,
            match props.placeholder {
                Some(text) => Some(text@),
                None => None,
            },
            props.input_type@,
            props.disabled,
            props.required,
        ),
{
    let placeholder = match props.placeholder {
        Some(text) => text,
        None => "",
    };
    proof {
        reveal_strlit("");
        assert(""@ =~= Seq::<char>::empty());
    }
    let mut html = "<input".to_owned();
    push_attr(&mut html, "id", props.id);
    push_attr(&mut html, "type", props.input_type);
    push_attr(&mut html, "class", BASE_CLASSES);
    push_attr(&mut html, "placeholder", placeholder);
    push_flag(&mut html, "disabled", props.disabled);
    push_flag(&mut html, "required", props.required);
    html.append("></input>");
    Markup::new(html)
}

fn labelled(html: &mut String, label: &str, props: InputProps)
    requires
        props.placeholder is Some,
    ensures
        final(html)@ == old(html)@ + labelled_markup(
            props.id@,
            label@,
            props.placeholder->Some_0@,
            props.input_type@,
            props.disabled,
            props.required,
        ),
{
    html.append("<div><label");
    push_attr(html, "for", props.id);
    push_attr(html, "class", LABEL_CLASSES);
    html.append(">");
    let text = Markup::text(label);
    html.append(text.as_str());
    html.append("</label><div");
    push_attr(html, "class", "mt-1");
    html.append(">");
    let ghost id = props.id@;
    let ghost placeholder = props.placeholder->Some_0@;
    let ghost input_type = props.input_type@;
    let ghost disabled = props.disabled;
    let ghost required = props.required;
    let field = input(props);
    html.append(field.as_str());
    html.append("</div></div>");
    assert(html@ =~= old(html)@ + labelled_markup(
        id,
        label@,
        placeholder,
        input_type,
        disabled,
        required,
    ));
}

/// A form with three labelled inputs, to show the input in use.
pub fn form_with_input() -> (markup: Markup)
    ensures
        markup@ == form_markup(),
{
    let mut html = "<form".to_owned();
    push_attr(&mut html, "class", FORM_CLASSES);
    html.append(">");
    labelled(
        &mut html,
        "Email",
        InputProps {
            id: "email",
            placeholder: Some("Enter your email"),
            input_type: "email",
            disabled: false,
            required: true,
        },
    );
    labelled(
        &mut html,
        "Password",
        InputProps {
            id: "password",
            placeholder: Some("Enter your password"),
            input_type: "password",
            disabled: false,
            required: true,
        },
    );
    labelled(
        &mut html,
        "Disabled Input",
        InputProps {
            id: "disabled-input",
            placeholder: Some("This input is disabled"),
            input_type: "text",
            disabled: true,
            required: false,
        },
    );
    html.append("</form>");
    assert(html@ =~= form_markup());
    Markup::new(html)
}

} // verus!
