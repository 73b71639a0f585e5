use shadcnui_maud::button::{Button, ButtonSize, ButtonVariant};
use shadcnui_maud::input::form_with_input;
use shadcnui_maud::markup::{push_attr, push_flag, push_optional_attr, Markup};
use shadcnui_maud::web::prelude::{
    Button as WebButton, ButtonSize as WebButtonSize, ButtonVariant as WebButtonVariant,
    FileUploader, Input, InputSize,
};

const BUTTON_BASE: &str = "inline-flex items-center justify-center rounded-sm text-sm font-medium ring-offset-background transition-colors focus-visible:outline-none focus-visible:ring-2 focus-visible:ring-ring focus-visible:ring-offset-2 disabled:pointer-events-none disabled:opacity-50";
const WEB_BUTTON_BASE: &str = "inline-flex items-center justify-center rounded-md text-sm font-medium ring-offset-background transition-colors focus-visible:outline-none focus-visible:ring-2 focus-visible:ring-ring focus-visible:ring-offset-2 disabled:pointer-events-none disabled:opacity-50";
const INPUT_BASE: &str = "flex w-full rounded-md border border-input bg-background text-foreground px-3 py-2 text-sm ring-offset-background file:border-0 file:bg-transparent file:text-sm file:font-medium placeholder:text-muted-foreground focus-visible:outline-none focus-visible:ring-2 focus-visible:ring-ring focus-visible:ring-offset-2 disabled:cursor-not-allowed disabled:opacity-50";
const UPLOADER_BASE: &str = "cursor-pointer block w-full text-sm text-foreground file:mr-4 file:py-2 file:px-4 file:rounded-md file:border-0 file:text-sm file:font-semibold file:bg-primary file:text-primary-foreground hover:file:bg-primary/90 focus-visible:outline-none focus-visible:ring-2 focus-visible:ring-ring focus-visible:ring-offset-2 disabled:cursor-not-allowed disabled:opacity-50 dark:file:bg-primary dark:file:text-primary-foreground dark:hover:file:bg-primary/90";
const FORM_INPUT_BASE: &str = "flex h-10 w-full rounded-md border border-input bg-background px-3 py-2 text-sm ring-offset-background file:border-0 file:bg-transparent file:text-sm file:font-medium placeholder:text-muted-foreground focus-visible:outline-none focus-visible:ring-2 focus-visible:ring-ring focus-visible:ring-offset-2 disabled:cursor-not-allowed disabled:opacity-50";

fn plain(text: &str) -> Markup {
    Markup::new(text.to_string())
}

#[test]
fn text_is_escaped() {
    assert_eq!(
        Markup::text("<script>launchMissiles()</script>").as_str(),
        "&lt;script&gt;launchMissiles()&lt;/script&gt;"
    );
    assert_eq!(Markup::text("a & b \"c\" 'd'").into_string(), "a &amp; b &quot;c&quot; 'd'");
    assert_eq!(Markup::text("plain \u{00E9}\u{4E2D}").as_str(), "plain \u{00E9}\u{4E2D}");
    assert_eq!(Markup::text("").as_str(), "");
    assert_eq!(Markup::text("&amp;").as_str(), "&amp;amp;");
}

#[test]
fn markup_is_taken_as_it_stands() {
    assert_eq!(Markup::new("<b>&</b>".to_string()).as_str(), "<b>&</b>");
    assert_eq!(plain("<i>x</i>").into_string(), "<i>x</i>");
}

#[test]
fn attributes_are_written_with_escaped_values() {
    let mut html = String::from("<a");
    push_attr(&mut html, "href", "/x?a=1&b=\"2\"");
    push_optional_attr(&mut html, "title", Some("<t>"));
    push_optional_attr(&mut html, "id", None);
    push_flag(&mut html, "hidden", true);
    push_flag(&mut html, "disabled", false);
    assert_eq!(html, "<a href=\"/x?a=1&amp;b=&quot;2&quot;\" title=\"&lt;t&gt;\" hidden");
}

#[test]
fn plain_button_is_primary() {
    assert_eq!(
        Button::new().build(plain("Primary")).as_str(),
        "<button class=\"inline-flex items-center justify-center rounded-sm text-sm font-medium ring-offset-background transition-colors focus-visible:outline-none focus-visible:ring-2 focus-visible:ring-ring focus-visible:ring-offset-2 disabled:pointer-events-none disabled:opacity-50 bg-primary text-primary-foreground hover:bg-primary/90 h-10 px-4 py-2\">Primary</button>"
    );
    assert_eq!(Button::default().build(plain("x")), Button::new().build(plain("x")));
}

#[test]
fn button_shows_all_it_was_given() {
    let markup = Button::outline()
        .size(ButtonSize::Sm)
        .hx_get("/nice?a=1&b=2")
        .disabled(true)
        .class("w-fit \"q\"")
        .build(plain("<b>Go</b>"));
    assert_eq!(
        markup.into_string(),
        format!(
            "<button class=\"{} border border-input text-foreground bg-background hover:bg-accent hover:text-accent-foreground h-9 rounded-sm px-3 w-fit &quot;q&quot;\" hx-get=\"/nice?a=1&amp;b=2\" disabled><b>Go</b></button>",
            BUTTON_BASE
        )
    );
}

#[test]
fn button_variants_and_sizes_have_their_classes() {
    let cases = [
        (ButtonVariant::Primary, "bg-primary text-primary-foreground hover:bg-primary/90"),
        (ButtonVariant::Secondary, "bg-secondary text-secondary-foreground hover:bg-secondary/80"),
        (
            ButtonVariant::Outline,
            "border border-input text-foreground bg-background hover:bg-accent hover:text-accent-foreground",
        ),
        (ButtonVariant::Ghosted, "hover:bg-accent hover:text-accent-foreground"),
        (
            ButtonVariant::Destructive,
            "bg-destructive text-destructive-foreground hover:bg-destructive/90",
        ),
    ];
    for (variant, classes) in cases {
        assert_eq!(
            Button::new().variant(variant).build(plain("")).as_str(),
            format!("<button class=\"{} {} h-10 px-4 py-2\"></button>", BUTTON_BASE, classes)
        );
    }
    let sizes = [
        (ButtonSize::Default, "h-10 px-4 py-2"),
        (ButtonSize::Sm, "h-9 rounded-sm px-3"),
        (ButtonSize::Lg, "h-11 rounded-sm px-8"),
        (ButtonSize::Icon, "h-10 w-10"),
    ];
    for (size, classes) in sizes {
        assert_eq!(
            Button::new().variant(ButtonVariant::Ghosted).size(size).build(plain("")).as_str(),
            format!(
                "<button class=\"{} hover:bg-accent hover:text-accent-foreground {}\"></button>",
                BUTTON_BASE, classes
            )
        );
    }
}

#[test]
fn later_setting_replaces_the_earlier() {
    assert_eq!(
        Button::new().class("a").class("b").hx_get("/1").hx_get("/2").disabled(true).disabled(false).build(plain("")),
        Button::new().class("b").hx_get("/2").build(plain(""))
    );
}

#[test]
fn plain_web_button_has_the_default_look() {
    assert_eq!(
        WebButton::new().build(plain("Primary")).as_str(),
        "<button class=\"inline-flex items-center justify-center rounded-md text-sm font-medium ring-offset-background transition-colors focus-visible:outline-none focus-visible:ring-2 focus-visible:ring-ring focus-visible:ring-offset-2 disabled:pointer-events-none disabled:opacity-50 bg-primary text-primary-foreground hover:bg-primary/90 dark:bg-primary dark:text-primary-foreground dark:hover:bg-primary/90 h-10 px-4 py-2\">Primary</button>"
    );
}

#[test]
fn web_button_writes_its_attributes_in_order() {
    let markup = WebButton::new()
        .ty("submit")
        .hx_get("/get")
        .hx_post("/post")
        .disabled(true)
        .class("w-fit")
        .aria_label("Send <it>")
        .title("T")
        .id("send")
        .size(WebButtonSize::Lg)
        .build(plain("Submit"));
    assert_eq!(
        markup.as_str(),
        format!(
            "<button class=\"{} bg-primary text-primary-foreground hover:bg-primary/90 dark:bg-primary dark:text-primary-foreground dark:hover:bg-primary/90 h-11 rounded-md px-8 w-fit\" hx-get=\"/get\" hx-post=\"/post\" disabled aria-label=\"Send &lt;it&gt;\" title=\"T\" id=\"send\" type=\"submit\">Submit</button>",
            WEB_BUTTON_BASE
        )
    );
}

#[test]
fn web_button_keeps_the_swap_strategy_as_hx_post() {
    assert_eq!(
        WebButton::new().hx_get("/nice").hx_swap("innerHTML").build(plain("Primary")).as_str(),
        format!(
            "<button class=\"{} bg-primary text-primary-foreground hover:bg-primary/90 dark:bg-primary dark:text-primary-foreground dark:hover:bg-primary/90 h-10 px-4 py-2\" hx-get=\"/nice\" hx-post=\"innerHTML\">Primary</button>",
            WEB_BUTTON_BASE
        )
    );
    assert_eq!(
        WebButton::new().hx_post("/a").hx_swap("outerHTML").build(plain("")),
        WebButton::new().hx_post("outerHTML").build(plain(""))
    );
}

#[test]
fn web_button_variants_have_their_classes() {
    let cases = [
        (WebButton::new(), WebButtonVariant::Default, "bg-primary text-primary-foreground hover:bg-primary/90 dark:bg-primary dark:text-primary-foreground dark:hover:bg-primary/90"),
        (WebButton::secondary(), WebButtonVariant::Secondary, "bg-secondary text-secondary-foreground hover:bg-secondary/80 dark:bg-secondary dark:text-secondary-foreground dark:hover:bg-secondary/80"),
        (WebButton::outline(), WebButtonVariant::Outline, "border border-input bg-background hover:bg-accent hover:text-accent-foreground dark:border-input dark:bg-background dark:text-foreground dark:hover:bg-accent dark:hover:text-accent-foreground"),
        (WebButton::ghost(), WebButtonVariant::Ghosted, "hover:bg-accent hover:text-accent-foreground dark:text-foreground dark:hover:bg-accent dark:hover:text-accent-foreground"),
        (WebButton::destructive(), WebButtonVariant::Destructive, "bg-destructive text-destructive-foreground hover:bg-destructive/90 dark:bg-destructive dark:text-destructive-foreground dark:hover:bg-destructive/90"),
        (WebButton::link(), WebButtonVariant::Link, "text-primary underline-offset-4 hover:underline dark:text-primary"),
    ];
    for (button, variant, classes) in cases {
        let expected =
            format!("<button class=\"{} {} h-10 w-10\">x</button>", WEB_BUTTON_BASE, classes);
        assert_eq!(button.size(WebButtonSize::Icon).build(plain("x")).as_str(), expected);
        assert_eq!(
            WebButton::default().variant(variant).size(WebButtonSize::Icon).build(plain("x")).as_str(),
            expected
        );
    }
    assert_eq!(
        WebButton::link().size(WebButtonSize::Sm).build(plain("")).as_str(),
        format!(
            "<button class=\"{} text-primary underline-offset-4 hover:underline dark:text-primary h-9 rounded-md px-3\"></button>",
            WEB_BUTTON_BASE
        )
    );
}

#[test]
fn plain_input_is_a_text_input() {
    assert_eq!(
        Input::new().build().as_str(),
        "<input class=\"flex w-full rounded-md border border-input bg-background text-foreground px-3 py-2 text-sm ring-offset-background file:border-0 file:bg-transparent file:text-sm file:font-medium placeholder:text-muted-foreground focus-visible:outline-none focus-visible:ring-2 focus-visible:ring-ring focus-visible:ring-offset-2 disabled:cursor-not-allowed disabled:opacity-50 h-10\" type=\"text\" spellcheck=\"false\"></input>"
    );
    assert_eq!(Input::default().build(), Input::new().build());
}

#[test]
fn input_writes_its_attributes_in_order() {
    let markup = Input::new()
        .size(InputSize::Lg)
        .placeholder("user \"name\"")
        .value("a&b")
        .ty("email")
        .id("user")
        .name("username")
        .class("w-fit")
        .disabled(true)
        .required(true)
        .build();
    assert_eq!(
        markup.as_str(),
        format!(
            "<input class=\"{} h-11 w-fit\" type=\"email\" placeholder=\"user &quot;name&quot;\" value=\"a&amp;b\" id=\"user\" name=\"username\" spellcheck=\"false\" disabled required></input>",
            INPUT_BASE
        )
    );
    assert_eq!(
        Input::new().class("w-fit").ty("text").placeholder("username").build().as_str(),
        format!(
            "<input class=\"{} h-10 w-fit\" type=\"text\" placeholder=\"username\" spellcheck=\"false\"></input>",
            INPUT_BASE
        )
    );
    assert_eq!(
        Input::new().size(InputSize::Sm).size(InputSize::Default).size(InputSize::Sm).build().as_str(),
        format!("<input class=\"{} h-9\" type=\"text\" spellcheck=\"false\"></input>", INPUT_BASE)
    );
}

#[test]
fn plain_uploader_is_a_file_input() {
    assert_eq!(
        FileUploader::new().build().as_str(),
        "<input class=\"cursor-pointer block w-full text-sm text-foreground file:mr-4 file:py-2 file:px-4 file:rounded-md file:border-0 file:text-sm file:font-semibold file:bg-primary file:text-primary-foreground hover:file:bg-primary/90 focus-visible:outline-none focus-visible:ring-2 focus-visible:ring-ring focus-visible:ring-offset-2 disabled:cursor-not-allowed disabled:opacity-50 dark:file:bg-primary dark:file:text-primary-foreground dark:hover:file:bg-primary/90\" type=\"file\"></input>"
    );
    assert_eq!(FileUploader::default().build(), FileUploader::new().build());
}

#[test]
fn uploader_writes_its_attributes_in_order() {
    let markup = FileUploader::new()
        .id("up")
        .name("file")
        .class("border p-2")
        .accept("image/*,.pdf")
        .multiple(true)
        .disabled(true)
        .required(true)
        .build();
    assert_eq!(
        markup.as_str(),
        format!(
            "<input class=\"{} border p-2\" type=\"file\" id=\"up\" name=\"file\" accept=\"image/*,.pdf\" multiple disabled required></input>",
            UPLOADER_BASE
        )
    );
    assert_eq!(
        FileUploader::new().class("border p-2").name("file").build().as_str(),
        format!("<input class=\"{} border p-2\" type=\"file\" name=\"file\"></input>", UPLOADER_BASE)
    );
    assert_eq!(
        FileUploader::new().multiple(true).multiple(false).required(true).build().as_str(),
        format!("<input class=\"{}\" type=\"file\" required></input>", UPLOADER_BASE)
    );
}

#[test]
fn form_shows_three_labelled_inputs() {
    let field = |id: &str, label: &str, placeholder: &str, ty: &str, flags: &str| {
        format!(
            "<div><label for=\"{id}\" class=\"block text-sm font-medium text-gray-700\">{label}</label><div class=\"mt-1\"><input id=\"{id}\" type=\"{ty}\" class=\"{base}\" placeholder=\"{placeholder}\"{flags}></input></div></div>",
            id = id,
            label = label,
            placeholder = placeholder,
            ty = ty,
            flags = flags,
            base = FORM_INPUT_BASE
        )
    };
    let expected = format!(
        "<form class=\"space-y-4 w-full max-w-sm\">{}{}{}</form>",
        field("email", "Email", "Enter your email", "email", " required"),
        field("password", "Password", "Enter your password", "password", " required"),
        field("disabled-input", "Disabled Input", "This input is disabled", "text", " disabled"),
    );
    assert_eq!(form_with_input().as_str(), expected);
}

#[test]
fn page_shows_buttons_input_and_upload_form() {
    let toggle = plain("<button id=\"theme\">T</button>");
    let script = plain("let a = 1 < 2 && true;");
    let page = shadcnui_maud::page::root_page(&toggle, &script).into_string();
    let web_button = |classes: &str, attrs: &str, label: &str| {
        format!("<button class=\"{} {}\"{}>{}</button>", WEB_BUTTON_BASE, classes, attrs, label)
    };
    let expected = [
        "<html lang=\"id\" translate=\"no\">".to_string(),
        "<head><title>My Page</title><script src=\"/static/js/htmx.min.js\"></script><script src=\"/static/js/hyperscript.min.js\"></script><link rel=\"stylesheet\" type=\"text/css\" href=\"/static/css/style.css\"></head>".to_string(),
        "<body class=\"bg-background flex flex-col h-screen items-center justify-center\"><div class=\"flex flex-col gap-4\"><span>This text should change color in dark mode</span>".to_string(),
        "<div class=\"flex gap-2\">".to_string(),
        "<button id=\"theme\">T</button>".to_string(),
        web_button("bg-primary text-primary-foreground hover:bg-primary/90 dark:bg-primary dark:text-primary-foreground dark:hover:bg-primary/90 h-10 px-4 py-2", " hx-get=\"/nice\" hx-post=\"innerHTML\"", "Primary"),
        web_button("bg-secondary text-secondary-foreground hover:bg-secondary/80 dark:bg-secondary dark:text-secondary-foreground dark:hover:bg-secondary/80 h-10 px-4 py-2", "", "Secondary"),
        web_button("border border-input bg-background hover:bg-accent hover:text-accent-foreground dark:border-input dark:bg-background dark:text-foreground dark:hover:bg-accent dark:hover:text-accent-foreground h-10 px-4 py-2", "", "Outline"),
        web_button("hover:bg-accent hover:text-accent-foreground dark:text-foreground dark:hover:bg-accent dark:hover:text-accent-foreground h-10 px-4 py-2", "", "Ghost"),
        web_button("bg-destructive text-destructive-foreground hover:bg-destructive/90 dark:bg-destructive dark:text-destructive-foreground dark:hover:bg-destructive/90 h-10 px-4 py-2", "", "Destructive"),
        web_button("text-primary underline-offset-4 hover:underline dark:text-primary h-10 px-4 py-2", "", "Link"),
        "</div><div>".to_string(),
        format!("<input class=\"{} h-10 w-fit\" type=\"text\" placeholder=\"username\" spellcheck=\"false\"></input>", INPUT_BASE),
        "</div>".to_string(),
        "<form hx-encoding=\"multipart/form-data\" hx-swap=\"none\" hx-put=\"/upload\" _=\"on htmx:xhr:progress(loaded, total) set #progress.value to (loaded/total) * 100\">".to_string(),
        format!("<input class=\"{} border p-2\" type=\"file\" name=\"file\"></input>", UPLOADER_BASE),
        "<div class=\"flex gap-2 mt-2 items-center\">".to_string(),
        web_button("bg-primary text-primary-foreground hover:bg-primary/90 dark:bg-primary dark:text-primary-foreground dark:hover:bg-primary/90 h-10 px-4 py-2 w-fit flex gap-2 items-center justify-center", "", "Submit"),
        "<progress class=\"text-red-600 bg-blue-400\" id=\"progress\" value=\"0\" max=\"100\"></progress></div></form></div></body>".to_string(),
        "<script>let a = 1 < 2 && true;</script>".to_string(),
    ]
    .concat();
    assert_eq!(page, expected);
}
