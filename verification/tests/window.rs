use localstore::window::navigation;
use localstore::{
    log_file_path, navigate_to, open_data_directory, open_log_directory, open_log_file,
    toggle_devtools, DevtoolsAction, OpenRequest,
};

#[test]
fn devtools_toggle() {
    assert_eq!(toggle_devtools(false), DevtoolsAction::Open);
    assert_eq!(toggle_devtools(true), DevtoolsAction::Close);
}

#[test]
fn existing_directories_are_opened() {
    assert_eq!(
        open_data_directory("/home/me/.local/share/app", true),
        OpenRequest::Open { path: "/home/me/.local/share/app".to_string() }
    );
    assert_eq!(
        open_log_directory("/var/log/app", true),
        OpenRequest::Open { path: "/var/log/app".to_string() }
    );
}

#[test]
fn missing_directories_are_reported() {
    let report = OpenRequest::Report {
        title: "Cannot Open Log Directory".to_string(),
        message: "Directory /var/log/app not found!".to_string(),
    };
    assert_eq!(open_log_directory("/var/log/app", false), report);
    assert_eq!(open_data_directory("/var/log/app", false), report);
}

#[test]
fn log_file_gets_its_extension() {
    assert_eq!(log_file_path("/var/log/app/main"), "/var/log/app/main.log");
    assert_eq!(log_file_path(""), ".log");
    assert_eq!(log_file_path("a.log"), "a.log.log");
}

#[test]
fn log_file_is_opened_or_reported() {
    assert_eq!(
        open_log_file("/var/log/app/main.log", true),
        OpenRequest::Open { path: "/var/log/app/main.log".to_string() }
    );
    assert_eq!(
        open_log_file("/var/log/app/main.log", false),
        OpenRequest::Report {
            title: "Cannot Open Log File".to_string(),
            message: "Log file not found: /var/log/app/main.log".to_string(),
        }
    );
}

#[test]
fn navigation_skips_the_url_shown() {
    assert_eq!(navigation("https://a.example/", "https://a.example/".to_string()), None);
    assert_eq!(
        navigation("https://a.example/", "https://a.example/b".to_string()),
        Some("https://a.example/b".to_string())
    );
}

#[test]
fn navigate_to_joins_relative_urls() {
    assert_eq!(
        navigate_to("https://example.net/a/b.html", "c.png"),
        Ok(Some("https://example.net/a/c.png".to_string()))
    );
    assert_eq!(
        navigate_to("https://example.net/a/b/", "c.png"),
        Ok(Some("https://example.net/a/b/c.png".to_string()))
    );
    assert_eq!(
        navigate_to("https://alice.com/a", "/v1/meta"),
        Ok(Some("https://alice.com/v1/meta".to_string()))
    );
    assert_eq!(
        navigate_to("https://alice.com/a", "http://eve.com/b"),
        Ok(Some("http://eve.com/b".to_string()))
    );
}

#[test]
fn navigate_to_the_url_shown_goes_nowhere() {
    assert_eq!(navigate_to("https://example.net/a/b.html", "b.html"), Ok(None));
    assert_eq!(navigate_to("https://example.net/a/b.html", ""), Ok(None));
    assert_eq!(
        navigate_to("https://example.net/a/b.html", "https://example.net/a/b.html"),
        Ok(None)
    );
}

#[test]
fn navigate_to_fails_where_the_urls_cannot_be_joined() {
    assert!(navigate_to("not a url", "c.png").is_err());
    assert!(navigate_to("https://example.net/", "https://[::1").is_err());
}
