//! The demo page: the buttons, a text input, and a form that uploads a
//! file.

use crate::markup::Markup;
use crate::web::button::{button_markup, plain_button, plain_variant, ButtonView, ButtonVariant};
use crate::web::file_uploader::{plain_uploader, uploader_markup, FileUploaderView};
use crate::web::input::{input_markup, plain_input, InputView};
use crate::web::prelude::{Button, FileUploader, Input};
use vstd::prelude::*;

verus! {

/// From the start of the page to the row of buttons.
pub const PAGE_HEAD: &'static str =
    "<html lang=\"id\" translate=\"no\"><head><title>My Page</title><script src=\"/static/js/htmx.min.js\"></script><script src=\"/static/js/hyperscript.min.js\"></script><link rel=\"stylesheet\" type=\"text/css\" href=\"/static/css/style.css\"></head><body class=\"bg-background flex flex-col h-screen items-center justify-center\"><div class=\"flex flex-col gap-4\"><span>This text should change color in dark mode</span><div class=\"flex gap-2\">";

/// From the row of buttons to the text input.
pub const INPUT_OPEN: &'static str = "</div><div>";

/// From the text input to the file input: the start of the upload form.
pub const FORM_OPEN: &'static str =
    "</div><form hx-encoding=\"multipart/form-data\" hx-swap=\"none\" hx-put=\"/upload\" _=\"on htmx:xhr:progress(loaded, total) set #progress.value to (loaded/total) * 100\">";

/// From the file input to the button that submits the form.
pub const SUBMIT_OPEN: &'static str = "<div class=\"flex gap-2 mt-2 items-center\">";

/// From the button that submits the form to the script of the page: the
/// progress bar and the end of the body.
pub const SCRIPT_OPEN: &'static str =
    "<progress class=\"text-red-600 bg-blue-400\" id=\"progress\" value=\"0\" max=\"100\"></progress></div></form></div></body><script>";

/// The end of the page.
pub const PAGE_END: &'static str = "</script>";

/// The first button of the page: it requests `/nice` on a click.
pub open spec fn nice_button() -> ButtonView {
    ButtonView { hx_get: Some("/nice"@), hx_post: Some("innerHTML"@), ..plain_button() }
}

/// The button that submits the upload form.
pub open spec fn submit_button() -> ButtonView {
    ButtonView { class: Some("w-fit flex gap-2 items-center justify-center"@), ..plain_button() }
}

/// The text input of the page.
pub open spec fn username_input() -> InputView {
    InputView {
        class: Some("w-fit"@),
        ty: Some("text"@),
        placeholder: Some("username"@),
        ..plain_input()
    }
}

/// The file input of the upload form; its field is named `file`.
pub open spec fn file_input() -> FileUploaderView {
    FileUploaderView { class: Some("border p-2"@), name: Some("file"@), ..plain_uploader() }
}

/// The markup of the page. The control that toggles the theme stands in
/// front of the buttons, and the script that goes with it at the end of the
/// page.
pub open spec fn page_markup(theme_toggle: Seq<char>, theme_script: Seq<char>) -> Seq<char> {
    PAGE_HEAD@ + theme_toggle + button_markup(nice_button(), "Primary"@) + button_markup(
        plain_variant(ButtonVariant::Secondary),
        "Secondary"@,
    ) + button_markup(plain_variant(ButtonVariant::Outline), "Outline"@) + button_markup(
        plain_variant(ButtonVariant::Ghosted),
        "Ghost"@,
    ) + button_markup(plain_variant(ButtonVariant::Destructive), "Destructive"@) + button_markup(
        plain_variant(ButtonVariant::Link),
        "Link"@,
    ) + INPUT_OPEN@ + input_markup(username_input()) + FORM_OPEN@ + uploader_markup(file_input())
        + SUBMIT_OPEN@ + button_markup(submit_button(), "Submit"@) + SCRIPT_OPEN@ + theme_script
        + PAGE_END@
}

fn label(text: &'static str) -> (markup: Markup)
    ensures
        markup@ == text@,
{
    Markup::new(text.to_owned())
}

/// Renders the demo page around the control that toggles the theme and the
/// script that goes with it.
pub fn root_page(theme_toggle: &Markup, theme_script: &Markup) -> (page: Markup)
    ensures
        page@ == page_markup(theme_toggle@, theme_script@),
{
    let mut html = PAGE_HEAD.to_owned();
    html.append(theme_toggle.as_str());
    html.append(
        Button::new().hx_get("/nice").hx_swap("innerHTML").build(label("Primary")).as_str(),
    );
    html.append(Button::secondary().build(label("Secondary")).as_str());
    html.append(Button::outline().build(label("Outline")).as_str());
    html.append(Button::ghost().build(label("Ghost")).as_str());
    html.append(Button::destructive().build(label("Destructive")).as_str());
    html.append(Button::link().build(label("Link")).as_str());
    html.append(INPUT_OPEN);
    html.append(Input::new().class("w-fit").ty("text").placeholder("username").build().as_str());
    html.append(FORM_OPEN);
    html.append(FileUploader::new().class("border p-2").name("file").build().as_str());
    html.append(SUBMIT_OPEN);
    html.append(
        Button::new().class("w-fit flex gap-2 items-center justify-center").build(
            label("Submit"),
        ).as_str(),
    );
    html.append(SCRIPT_OPEN);
    html.append(theme_script.as_str());
    html.append(PAGE_END);
    Markup::new(html)
}

} // verus!
