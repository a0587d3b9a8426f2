//! The toast document: the text that is handed to the notification
//! service, put together from the headline, the message and the icon.

use vstd::prelude::*;
use vstd::string::*;

verus! {

/// The headline of a toast for which none was given.
pub const DEFAULT_HEADLINE: &'static str = "Hello!";

/// The file name under which the bundled icon is saved.
pub const DEFAULT_ICON_FILE: &'static str = "toast_default.png";

/// Whether a character separates the parts of a Windows path.
pub open spec fn is_separator(c: char) -> bool {
    c == '\\' || c == '/'
}

/// The path of the bundled icon under a directory for temporary files: the
/// directory, a backslash unless the directory is empty or ends in a
/// separator already, and the icon's file name.
pub open spec fn default_icon_path_text(temp_dir: Seq<char>) -> Seq<char> {
    if temp_dir.len() == 0 || is_separator(temp_dir.last()) {
        temp_dir + DEFAULT_ICON_FILE@
    } else {
        temp_dir + seq!['\\'] + DEFAULT_ICON_FILE@
    }
}

/// The path at which the bundled icon is saved, under `temp_dir`.
pub fn default_icon_path(temp_dir: &str) -> (path: String)
    ensures
        path@ == default_icon_path_text(temp_dir@),
{
    let mut path = String::from_str(temp_dir);
    let len = temp_dir.unicode_len();
    if len > 0 {
        let last = temp_dir.get_char(len - 1);
        if last != '\\' && last != '/' {
            path.push('\\');
        }
    }
    path.append(DEFAULT_ICON_FILE);
    proof {
        assert(path@ =~= default_icon_path_text(temp_dir@));
    }
    path
}

/// What the toast shows as its icon.
#[derive(Debug, PartialEq, Eq)]
pub enum IconSource {
    /// No icon was asked for: the bundled one, saved under this directory
    /// for temporary files.
    Bundled { temp_dir: String },
    /// The file at `path` was asked for; `exists` says whether it is there.
    Custom { path: String, exists: bool },
}

/// What comes before the source of an image element.
pub const IMAGE_OPEN: &'static str = "<image placement=\"appLogoOverride\" hint-crop=\"none\" src=\"";

/// What comes after the source of an image element.
pub const IMAGE_CLOSE: &'static str = "\"/>";

/// The document up to the place of the image element.
pub const DOCUMENT_HEAD: &'static str =
    "\n<toast scenario=\"reminder\" launch=\"developer-pre-defined-string\">\n  <visual>\n    <binding template=\"ToastGeneric\">\n      ";

/// The document between the image element and the headline.
pub const DOCUMENT_BEFORE_HEADLINE: &'static str = "\n      <text>";

/// The document between the headline and the message.
pub const DOCUMENT_BEFORE_TEXT: &'static str = "</text>\n      <text>";

/// The document after the message: the sound, and the closing tags.
pub const DOCUMENT_TAIL: &'static str =
    "</text>\n    </binding>\n  </visual>\n  <audio src=\"ms-winsoundevent:Notification.Default\"/>\n</toast>";

/// The image element that refers to the file at `src`.
pub open spec fn image_element_text(src: Seq<char>) -> Seq<char> {
    IMAGE_OPEN@ + src + IMAGE_CLOSE@
}

/// The image element of a toast: one for the bundled icon where none was
/// asked for, one for the icon asked for where its file exists, and no
/// element at all where it does not.
pub open spec fn icon_element_text(icon: IconSource) -> Seq<char> {
    match icon {
        IconSource::Bundled { temp_dir } => image_element_text(default_icon_path_text(temp_dir@)),
        IconSource::Custom { path, exists } => if exists {
            image_element_text(path@)
        } else {
            Seq::empty()
        },
    }
}

/// The headline to show: the one given, else the default.
pub open spec fn headline_text(headline: Option<&str>) -> Seq<char> {
    match headline {
        Some(given) => given@,
        None => DEFAULT_HEADLINE@,
    }
}

/// The message to show: the one given, else none.
pub open spec fn message_text(text: Option<&str>) -> Seq<char> {
    match text {
        Some(given) => given@,
        None => Seq::empty(),
    }
}

/// The toast document around an image element, a headline and a message.
/// The three are put in as they are: nothing is escaped.
pub open spec fn toast_document_text(image: Seq<char>, headline: Seq<char>, text: Seq<char>) -> Seq<
    char,
> {
    DOCUMENT_HEAD@ + image + DOCUMENT_BEFORE_HEADLINE@ + headline + DOCUMENT_BEFORE_TEXT@ + text
        + DOCUMENT_TAIL@
}

/// The image element that refers to the file at `src`.
pub fn image_element(src: &str) -> (element: String)
    ensures
        element@ == image_element_text(src@),
{
    let mut element = String::from_str(IMAGE_OPEN);
    element.append(src);
    element.append(IMAGE_CLOSE);
    element
}

/// The image element of a toast with the given icon; empty where the icon
/// asked for does not exist.
pub fn icon_element(icon: &IconSource) -> (element: String)
    ensures
        element@ == icon_element_text(*icon),
{
    match icon {
        IconSource::Bundled { temp_dir } => {
            let path = default_icon_path(temp_dir.as_str());
            image_element(path.as_str())
        },
        IconSource::Custom { path, exists } => {
            if *exists {
                image_element(path.as_str())
            } else {
                String::new()
            }
        },
    }
}

/// The headline to show: the one given, else the default.
pub fn headline_or_default<'a>(headline: Option<&'a str>) -> (shown: &'a str)
    ensures
        shown@ == headline_text(headline),
{
    match headline {
        Some(given) => given,
        None => DEFAULT_HEADLINE,
    }
}

/// The message to show: the one given, else the empty text.
pub fn text_or_default<'a>(text: Option<&'a str>) -> (shown: &'a str)
    ensures
        shown@ == message_text(text),
{
    match text {
        Some(given) => given,
        None => {
            let empty = "";
            proof {
                reveal_strlit("");
                assert(empty@ =~= Seq::<char>::empty());
            }
            empty
        },
    }
}

/// The toast document around an image element, a headline and a message.
pub fn toast_document(image: &str, headline: &str, text: &str) -> (document: String)
    ensures
        document@ == toast_document_text(image@, headline@, text@),
{
    let mut document = String::from_str(DOCUMENT_HEAD);
    document.append(image);
    document.append(DOCUMENT_BEFORE_HEADLINE);
    document.append(headline);
    document.append(DOCUMENT_BEFORE_TEXT);
    document.append(text);
    document.append(DOCUMENT_TAIL);
    document
}

/// The document of the toast to show: the default headline where none was
/// given, an empty message where none was given, and the image element
/// that the icon calls for.
pub fn notification_xml(headline: Option<&str>, text: Option<&str>, icon: &IconSource) -> (document:
    String)
    ensures
        document@ == toast_document_text(
            icon_element_text(*icon),
            headline_text(headline),
            message_text(text),
        ),
{
    let image = icon_element(icon);
    toast_document(image.as_str(), headline_or_default(headline), text_or_default(text))
}

} // verus!
