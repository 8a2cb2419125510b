use hyprchoosy::RuleSection;
use hyprchoosy::match_client;
use hyprchoosy::match_host;
use hyprchoosy::url_host;

fn section(browser: &str, clients: Vec<&str>, url: Vec<&str>) -> RuleSection {
    RuleSection {
        browser: browser.to_string(),
        clients: clients.into_iter().map(|s| s.to_string()).collect(),
        url: url.into_iter().map(|s| s.to_string()).collect(),
    }
}

#[test]
fn test_url_host_with_scheme() {
    assert_eq!(url_host("https://github.com").unwrap(), "github.com");
    assert_eq!(url_host("http://example.com").unwrap(), "example.com");
    assert_eq!(
        url_host("https://sub.example.com").unwrap(),
        "sub.example.com"
    );
}

#[test]
fn test_url_host_without_scheme() {
    assert_eq!(url_host("github.com").unwrap(), "github.com");
    assert_eq!(url_host("example.com").unwrap(), "example.com");
    assert_eq!(url_host("sub.example.com").unwrap(), "sub.example.com");
}

#[test]
fn test_url_host_with_path() {
    assert_eq!(
        url_host("https://github.com/user/repo").unwrap(),
        "github.com"
    );
    assert_eq!(url_host("example.com/path").unwrap(), "example.com");
}

#[test]
fn test_url_host_case_insensitive() {
    assert_eq!(url_host("HTTPS://GITHUB.COM").unwrap(), "github.com");
    assert_eq!(url_host("GitHub.COM").unwrap(), "github.com");
}

#[test]
fn test_url_host_invalid() {
    assert!(url_host("not a url").is_err());
    assert!(url_host("").is_err());
}

#[test]
fn integration_tests_test_match_client_exact() {
    let mut sections = Vec::new();
    sections.push(("work".to_string(), section("chrome", vec!["slack"], vec![])));

    let result = match_client("slack", &sections);
    assert!(result.is_some());
    assert_eq!(result.unwrap().browser, "chrome");
}

#[test]
fn integration_tests_test_match_client_partial() {
    let mut sections = Vec::new();
    sections.push(("work".to_string(), section("chrome", vec!["slack"], vec![])));

    let result = match_client("slack-desktop", &sections);
    assert!(result.is_some());
    assert_eq!(result.unwrap().browser, "chrome");
}

#[test]
fn integration_tests_test_match_client_case_insensitive() {
    let mut sections = Vec::new();
    sections.push(("work".to_string(), section("chrome", vec!["Slack"], vec![])));

    let result = match_client("SLACK", &sections);
    assert!(result.is_some());
    assert_eq!(result.unwrap().browser, "chrome");
}

#[test]
fn integration_tests_test_match_client_no_match() {
    let mut sections = Vec::new();
    sections.push(("work".to_string(), section("chrome", vec!["slack"], vec![])));

    let result = match_client("discord", &sections);
    assert!(result.is_none());
}

#[test]
fn integration_tests_test_match_host_exact() {
    let mut sections = Vec::new();
    sections.push(("dev".to_string(), section("firefox", vec![], vec!["github.com"])));

    let result = match_host("github.com", &sections);
    assert!(result.is_some());
    assert_eq!(result.unwrap().browser, "firefox");
}

#[test]
fn integration_tests_test_match_host_subdomain() {
    let mut sections = Vec::new();
    sections.push(("dev".to_string(), section("firefox", vec![], vec!["github.com"])));

    let result = match_host("api.github.com", &sections);
    assert!(result.is_some());
    assert_eq!(result.unwrap().browser, "firefox");

    let result = match_host("gist.github.com", &sections);
    assert!(result.is_some());
    assert_eq!(result.unwrap().browser, "firefox");
}

#[test]
fn integration_tests_test_match_host_case_insensitive() {
    let mut sections = Vec::new();
    sections.push(("dev".to_string(), section("firefox", vec![], vec!["GitHub.COM"])));

    let result = match_host("github.com", &sections);
    assert!(result.is_some());
    assert_eq!(result.unwrap().browser, "firefox");
}

#[test]
fn integration_tests_test_match_host_no_match() {
    let mut sections = Vec::new();
    sections.push(("dev".to_string(), section("firefox", vec![], vec!["github.com"])));

    let result = match_host("gitlab.com", &sections);
    assert!(result.is_none());
}

#[test]
fn integration_tests_test_match_host_no_partial_match() {
    let mut sections = Vec::new();
    sections.push(("dev".to_string(), section("firefox", vec![], vec!["github.com"])));

    let result = match_host("notgithub.com", &sections);
    assert!(result.is_none());
}

#[test]
fn integration_tests_test_multiple_sections() {
    let mut sections = Vec::new();
    sections.push(("work".to_string(), section("chrome", vec!["slack"], vec![])));
    sections.push(("personal".to_string(), section("firefox", vec!["discord"], vec![])));

    assert!(match_client("slack", &sections).is_some());
    assert!(match_client("discord", &sections).is_some());
    assert_eq!(match_client("slack", &sections).unwrap().browser, "chrome");
    assert_eq!(
        match_client("discord", &sections).unwrap().browser,
        "firefox"
    );
}
