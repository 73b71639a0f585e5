//! A file input.

use crate::markup::{
    attr, flag, optional_attr, push_attr, push_flag, push_optional_attr, text_of, Markup,
};
use vstd::prelude::*;

verus! {

/// Classes that every file input has.
pub const BASE_CLASSES: &'static str =
    "cursor-pointer block w-full text-sm text-foreground file:mr-4 file:py-2 file:px-4 file:rounded-md file:border-0 file:text-sm file:font-semibold file:bg-primary file:text-primary-foreground hover:file:bg-primary/90 focus-visible:outline-none focus-visible:ring-2 focus-visible:ring-ring focus-visible:ring-offset-2 disabled:cursor-not-allowed disabled:opacity-50 dark:file:bg-primary dark:file:text-primary-foreground dark:hover:file:bg-primary/90";

/// What a file input is made of.
pub struct FileUploader<'a> {
    id: Option<&'a str>,
    name: Option<&'a str>,
    class: Option<&'a str>,
    accept: Option<&'a str>,
    multiple: bool,
    disabled: bool,
    required: bool,
}

/// Mathematical value of a [`FileUploader`].
pub struct FileUploaderView {
    pub id: Option<Seq<char>>,
    pub name: Option<Seq<char>>,
    pub class: Option<Seq<char>>,
    pub accept: Option<Seq<char>>,
    pub multiple: bool,
    pub disabled: bool,
    pub required: bool,
}

impl<'a> View for FileUploader<'a> {
    type V = FileUploaderView;

    closed spec fn view(&self) -> FileUploaderView {
        FileUploaderView {
            id: text_of(self.id),
            name: text_of(self.name),
            class: text_of(self.class),
            accept: text_of(self.accept),
            multiple: self.multiple,
            disabled: self.disabled,
            required: self.required,
        }
    }
}

/// The file input that [`FileUploader::new`] makes: for one file of any
/// kind, enabled, not required, and without any optional attribute.
pub open spec fn plain_uploader() -> FileUploaderView {
    FileUploaderView {
        id: None,
        name: None,
        class: None,
        accept: None,
        multiple: false,
        disabled: false,
        required: false,
    }
}

/// The value of the `class` attribute of a file input: the classes of every
/// file input, then its own, set apart by a space.
pub open spec fn classes_of(props: FileUploaderView) -> Seq<char> {
    match props.class {
        Some(own) => BASE_CLASSES@ + " "@ + own,
        None => BASE_CLASSES@,
    }
}

/// The markup of a file input.
pub open spec fn uploader_markup(props: FileUploaderView) -> Seq<char> {
    "<input"@ + attr("class"@, classes_of(props)) + attr("type"@, "file"@) + optional_attr(
        "id"@,
        props.id,
    ) + optional_attr("name"@, props.name) + optional_attr("accept"@, props.accept) + flag(
        "multiple"@,
        props.multiple,
    ) + flag("disabled"@, props.disabled) + flag("required"@, props.required) + "></input>"@
}

impl<'a> Default for FileUploader<'a> {
    fn default() -> (uploader: Self)
        ensures
            uploader@ == plain_uploader(),
    {
        Self {
            id: None,
            name: None,
            class: None,
            accept: None,
            multiple: false,
            disabled: false,
            required: false,
        }
    }
}

impl<'a> FileUploader<'a> {
    /// A file input without any attribute of its own.
    pub fn new() -> (uploader: Self)
        ensures
            uploader@ == plain_uploader(),
    {
        Self::default()
    }

    /// Sets the `id` attribute.
    pub fn id(self, id: &'a str) -> (uploader: Self)
        ensures
            uploader@ == (FileUploaderView { id: Some(id@), ..self@ }),
    {
        let mut uploader = self;
        uploader.id = Some(id);
        uploader
    }

    /// Sets the name of the form field.
    pub fn name(self, name: &'a str) -> (uploader: Self)
        ensures
            uploader@ == (FileUploaderView { name: Some(name@), ..self@ }),
    {
        let mut uploader = self;
        uploader.name = Some(name);
        uploader
    }

    /// Sets the classes of the input's own.
    pub fn class(self, class: &'a str) -> (uploader: Self)
        ensures
            uploader@ == (FileUploaderView { class: Some(class@), ..self@ }),
    {
        let mut uploader = self;
        uploader.class = Some(class);
        uploader
    }

    /// Sets the kinds of file that are accepted.
    pub fn accept(self, accept: &'a str) -> (uploader: Self)
        ensures
            uploader@ == (FileUploaderView { accept: Some(accept@), ..self@ }),
    {
        let mut uploader = self;
        uploader.accept = Some(accept);
        uploader
    }

    /// Allows or forbids more than one file.
    pub fn multiple(self, multiple: bool) -> (uploader: Self)
        ensures
            uploader@ == (FileUploaderView { multiple: multiple, ..self@ }),
    {
        let mut uploader = self;
        uploader.multiple = multiple;
        uploader
    }

    /// Disables or enables the input.
    pub fn disabled(self, disabled: bool) -> (uploader: Self)
        ensures
            uploader@ == (FileUploaderView { disabled: disabled, ..self@ }),
    {
        let mut uploader = self;
        uploader.disabled = disabled;
        uploader
    }

    /// Makes the input required or optional.
    pub fn required(self, required: bool) -> (uploader: Self)
        ensures
            uploader@ == (FileUploaderView { required: required, ..self@ }),
    {
        let mut uploader = self;
        uploader.required = required;
        uploader
    }

    /// Renders the file input.
    pub fn build(self) -> (markup: Markup)
        ensures
            markup@ == uploader_markup(self@),
    {
        file_upload(self)
    }
}

fn file_upload(props: FileUploader) -> (markup: Markup)
    ensures
        markup@ == uploader_markup(props@),
{
    let mut classes = BASE_CLASSES.to_owned();
    if let Some(additional_class) = props.class {
        classes.append(" ");
        classes.append(additional_class);
    }
    assert(classes@ =~= classes_of(props@));
    let mut html = "<input".to_owned();
    push_attr(&mut html, "class", classes.as_str());
    push_attr(&mut html, "type", "file");
    push_optional_attr(&mut html, "id", props.id);
    push_optional_attr(&mut html, "name", props.name);
    push_optional_attr(&mut html, "accept", props.accept);
    push_flag(&mut html, "multiple", props.multiple);
    push_flag(&mut html, "disabled", props.disabled);
    push_flag(&mut html, "required", props.required);
    html.append("></input>");
    assert(html@ =~= uploader_markup(props@));
    Markup::new(html)
}

} // verus!
