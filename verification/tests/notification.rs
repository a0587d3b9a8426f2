use toaster::notification::{
    default_icon_path, headline_or_default, icon_element, image_element, notification_xml,
    text_or_default, toast_document, IconSource, DEFAULT_HEADLINE, DEFAULT_ICON_FILE,
};

fn count(haystack: &str, needle: &str) -> usize {
    haystack.matches(needle).count()
}

fn bundled(temp_dir: &str) -> IconSource {
    IconSource::Bundled { temp_dir: temp_dir.to_string() }
}

fn custom(path: &str, exists: bool) -> IconSource {
    IconSource::Custom { path: path.to_string(), exists }
}

#[test]
fn default_icon_path_joins_with_a_backslash() {
    assert_eq!(default_icon_path("C:\\Temp"), "C:\\Temp\\toast_default.png");
}

#[test]
fn default_icon_path_keeps_a_trailing_separator() {
    assert_eq!(default_icon_path("C:\\Temp\\"), "C:\\Temp\\toast_default.png");
    assert_eq!(default_icon_path("C:/Temp/"), "C:/Temp/toast_default.png");
}

#[test]
fn default_icon_path_of_an_empty_directory_is_the_file_name() {
    assert_eq!(default_icon_path(""), DEFAULT_ICON_FILE);
}

#[test]
fn default_icon_path_looks_at_the_last_character_not_the_last_byte() {
    assert_eq!(default_icon_path("C:\\T\u{e9}mp\u{1F35E}"), "C:\\T\u{e9}mp\u{1F35E}\\toast_default.png");
}

#[test]
fn image_element_quotes_the_source() {
    assert_eq!(
        image_element("C:\\icons\\sun.png"),
        "<image placement=\"appLogoOverride\" hint-crop=\"none\" src=\"C:\\icons\\sun.png\"/>"
    );
}

#[test]
fn icon_element_of_a_missing_icon_is_empty() {
    assert_eq!(icon_element(&custom("C:\\nowhere.png", false)), "");
}

#[test]
fn icon_element_of_an_existing_icon_refers_to_it() {
    assert_eq!(icon_element(&custom("C:\\here.png", true)), image_element("C:\\here.png"));
}

#[test]
fn icon_element_of_the_bundled_icon_refers_to_the_temp_directory() {
    assert_eq!(
        icon_element(&bundled("D:\\tmp")),
        image_element("D:\\tmp\\toast_default.png")
    );
}

#[test]
fn headline_defaults_to_hello() {
    assert_eq!(headline_or_default(None), "Hello!");
    assert_eq!(headline_or_default(None), DEFAULT_HEADLINE);
    assert_eq!(headline_or_default(Some("Build finished")), "Build finished");
    assert_eq!(headline_or_default(Some("")), "");
}

#[test]
fn text_defaults_to_empty() {
    assert_eq!(text_or_default(None), "");
    assert_eq!(text_or_default(Some("3 warnings")), "3 warnings");
}

#[test]
fn toast_document_is_exact() {
    let expected = "\n<toast scenario=\"reminder\" launch=\"developer-pre-defined-string\">\n  <visual>\n    <binding template=\"ToastGeneric\">\n      <image/>\n      <text>Title</text>\n      <text>Body</text>\n    </binding>\n  </visual>\n  <audio src=\"ms-winsoundevent:Notification.Default\"/>\n</toast>";
    assert_eq!(toast_document("<image/>", "Title", "Body"), expected);
}

#[test]
fn toast_document_does_not_escape() {
    let document = toast_document("", "a < b", "x & y");
    assert!(document.contains("<text>a < b</text>"));
    assert!(document.contains("<text>x & y</text>"));
}

#[test]
fn scenario_headline_only() {
    let document = notification_xml(Some("Hello"), None, &bundled("C:\\Users\\me\\AppData\\Local\\Temp"));
    assert_eq!(count(&document, "<text"), 2);
    assert_eq!(count(&document, "</text>"), 2);
    let first = document.find("<text>Hello</text>").unwrap();
    let second = document.rfind("<text></text>").unwrap();
    assert!(first < second);
    assert_eq!(count(&document, "<image"), 1);
    assert!(document.contains(
        "<image placement=\"appLogoOverride\" hint-crop=\"none\" src=\"C:\\Users\\me\\AppData\\Local\\Temp\\toast_default.png\"/>"
    ));
    assert_eq!(count(&document, "<audio src=\"ms-winsoundevent:Notification.Default\"/>"), 1);
    assert!(document.contains("<binding template=\"ToastGeneric\">"));
    assert!(document.trim_start().starts_with("<toast"));
    assert!(document.ends_with("</toast>"));
}

#[test]
fn scenario_existing_icon() {
    let document = notification_xml(Some("Hello"), None, &custom("C:\\art\\moon.png", true));
    assert_eq!(count(&document, "<image"), 1);
    assert!(document.contains("src=\"C:\\art\\moon.png\"/>"));
    assert!(!document.contains("toast_default.png"));
}

#[test]
fn scenario_missing_icon() {
    let document = notification_xml(Some("Hello"), Some("there"), &custom("C:\\art\\gone.png", false));
    assert_eq!(count(&document, "<image"), 0);
    assert!(!document.contains("gone.png"));
    assert!(document.contains("<text>Hello</text>"));
    assert!(document.contains("<text>there</text>"));
    assert_eq!(document, toast_document("", "Hello", "there"));
}

#[test]
fn notification_without_headline_says_hello() {
    let document = notification_xml(None, None, &custom("x", false));
    assert_eq!(document, toast_document("", "Hello!", ""));
}

#[test]
fn notification_with_everything_given() {
    let document = notification_xml(Some("Tea"), Some("is ready"), &custom("C:\\cup.png", true));
    assert_eq!(
        document,
        toast_document(&image_element("C:\\cup.png"), "Tea", "is ready")
    );
}

#[test]
fn icon_sources_compare_by_value() {
    assert_eq!(bundled("a"), bundled("a"));
    assert_ne!(bundled("a"), custom("a", true));
    assert_ne!(custom("a", false), custom("a", true));
}
