use wellwon_desktop::inject::{inject_script, VERSION_PLACEHOLDER};
use wellwon_desktop::shell::{
    base_user_agent, compact_mode_target, compact_mode_url, full_mode_target, full_mode_url,
    navigation_target, user_agent, HostOs,
};

#[test]
fn full_mode_urls() {
    assert_eq!(full_mode_url(true), "http://localhost:3005/chat");
    assert_eq!(full_mode_url(false), "https://wellwon.app/chat");
}

#[test]
fn compact_mode_urls() {
    assert_eq!(compact_mode_url(true), "http://localhost:1420/");
    assert_eq!(compact_mode_url(false), "tauri://localhost/");
}

#[test]
fn full_mode_target_parses() {
    let dev = full_mode_target(true).ok().unwrap();
    assert_eq!(dev.scheme(), "http");
    assert_eq!(dev.host_str(), Some("localhost"));
    assert_eq!(dev.port(), Some(3005));
    assert_eq!(dev.path(), "/chat");
    let prod = full_mode_target(false).ok().unwrap();
    assert_eq!(prod.as_str(), "https://wellwon.app/chat");
}

#[test]
fn compact_mode_target_parses() {
    assert_eq!(compact_mode_target(false).ok().unwrap().scheme(), "tauri");
    assert_eq!(compact_mode_target(true).ok().unwrap().port(), Some(1420));
}

#[test]
fn user_agents() {
    assert_eq!(
        user_agent(HostOs::Other, "0.1.4"),
        "Mozilla/5.0 (X11; Linux x86_64) AppleWebKit/537.36 (KHTML, like Gecko) Chrome/120.0.0.0 Safari/537.36 WellWonDesktop/0.1.4"
    );
    assert!(user_agent(HostOs::MacOs, "1.0.0").starts_with("Mozilla/5.0 (Macintosh;"));
    assert!(user_agent(HostOs::Windows, "1.0.0").ends_with("Safari/537.36 WellWonDesktop/1.0.0"));
    assert!(base_user_agent(HostOs::Windows).contains("Windows NT 10.0"));
}

#[test]
fn inject_script_substitutes_version() {
    assert_eq!(VERSION_PLACEHOLDER, "__DESKTOP_VERSION__");
    let template = "a('__DESKTOP_VERSION__') !== '__DESKTOP_VERSION__'; /* __DESKTOP_VERSION_ */";
    assert_eq!(
        inject_script(template, "0.1.4"),
        "a('0.1.4') !== '0.1.4'; /* __DESKTOP_VERSION_ */"
    );
    assert_eq!(inject_script("plain", "9"), "plain");
}

#[test]
fn navigation_target_maps_parse_outcomes() {
    let ok = navigation_target(url::Url::parse("https://wellwon.app/chat"));
    assert_eq!(ok.ok().unwrap().host_str(), Some("wellwon.app"));
    let err = navigation_target(url::Url::parse("not a url"));
    match err {
        Err(e) => assert_eq!(e.cause, url::ParseError::RelativeUrlWithoutBase),
        Ok(_) => panic!("a relative text is not a navigation target"),
    }
}
