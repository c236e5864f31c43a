use twitchdesk_desktop::loading::{
    loading_html_path, path_to_file_url, show_startup_loading_splash_best_effort,
};
use twitchdesk_desktop::preview::{
    open_preview, open_preview_with_args, PreviewError, PreviewLocation,
};

#[test]
fn unix_paths_become_file_urls() {
    assert_eq!(path_to_file_url("/home/user/page.html"), "file:///home/user/page.html");
    assert_eq!(
        path_to_file_url("/home/user/.cache/TwitchDesk/loading/twitchdesk-loading.html"),
        "file:///home/user/.cache/TwitchDesk/loading/twitchdesk-loading.html"
    );
    assert_eq!(path_to_file_url(""), "file://");
}

#[test]
fn windows_paths_get_a_third_slash_and_forward_slashes() {
    assert_eq!(path_to_file_url("C:\\Users\\me\\page.html"), "file:///C:/Users/me/page.html");
    assert_eq!(path_to_file_url("\\\\?\\D:\\cache\\loading.html"), "file:///D:/cache/loading.html");
    assert_eq!(path_to_file_url("\\\\server\\share\\x"), "file:////server/share/x");
}

#[test]
fn other_characters_are_percent_encoded_as_utf8() {
    assert_eq!(path_to_file_url("/a b"), "file:///a%20b");
    assert_eq!(path_to_file_url("/caf\u{e9}"), "file:///caf%C3%A9");
    assert_eq!(path_to_file_url("/\u{20ac}"), "file:///%E2%82%AC");
    assert_eq!(path_to_file_url("/\u{1F600}"), "file:///%F0%9F%98%80");
    assert_eq!(path_to_file_url("/100%#?&+="), "file:///100%25%23%3F%26%2B%3D");
    assert_eq!(path_to_file_url("/-_.~:"), "file:///-_.~:");
    assert_eq!(path_to_file_url("/\u{0}\u{7f}"), "file:///%00%7F");
}

#[test]
fn an_encoded_second_character_is_no_drive_letter() {
    assert_eq!(path_to_file_url("a:"), "file:///a:");
    assert_eq!(path_to_file_url(" :"), "file://%20:");
    assert_eq!(path_to_file_url("::"), "file:///::");
}

#[test]
fn preview_prefers_the_installed_renderer() {
    let extra = vec!["--auto-close-ms".to_string(), "3000".to_string()];
    let c = open_preview_with_args("https://example.org", &extra, "linux", true, true).unwrap();
    assert_eq!(c.location, PreviewLocation::Installed);
    assert_eq!(c.executable, "twitchdesk-preview");
    assert_eq!(c.arguments, vec!["https://example.org", "--auto-close-ms", "3000"]);
    let c = open_preview_with_args("u", &extra, "windows", false, true).unwrap();
    assert_eq!(c.location, PreviewLocation::DevBuild);
    assert_eq!(c.executable, "twitchdesk-preview.exe");
    let c = open_preview("u", "macos", true, false).unwrap();
    assert_eq!(c.location, PreviewLocation::Installed);
    assert_eq!(c.arguments, vec!["u"]);
}

#[test]
fn preview_without_a_renderer_fails() {
    assert_eq!(open_preview("u", "linux", false, false).unwrap_err(), PreviewError::HelperNotFound);
    assert_eq!(
        open_preview_with_args("u", &Vec::new(), "linux", false, false).unwrap_err(),
        PreviewError::HelperNotFound
    );
}

#[test]
fn splash_shows_the_page_for_three_seconds() {
    let c = show_startup_loading_splash_best_effort(Some("/cache/loading/twitchdesk-loading.html"), "linux", true, false)
        .unwrap();
    assert_eq!(c.executable, "twitchdesk-preview");
    assert_eq!(
        c.arguments,
        vec!["file:///cache/loading/twitchdesk-loading.html", "--auto-close-ms", "3000"]
    );
}

#[test]
fn splash_is_quietly_left_out_when_it_cannot_be_shown() {
    assert!(show_startup_loading_splash_best_effort(None, "linux", true, true).is_none());
    assert!(show_startup_loading_splash_best_effort(Some("/p"), "linux", false, false).is_none());
}

#[test]
fn splash_page_lies_in_its_own_directory() {
    assert_eq!(loading_html_path(), vec!["loading", "twitchdesk-loading.html"]);
}
