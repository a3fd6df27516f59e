use browser_use::browser::config::{BrowserEngine, ConnectionOptions, LaunchOptions};

#[test]
fn test_launch_options_builder() {
    let opts = LaunchOptions::new().headless(true).window_size(800, 600);

    assert!(opts.headless);
    assert_eq!(opts.window_width, 800);
    assert_eq!(opts.window_height, 600);
}

#[test]
fn test_connection_options() {
    let opts = ConnectionOptions::new("ws://localhost:9222").timeout(5000);

    assert_eq!(opts.ws_url, "ws://localhost:9222");
    assert_eq!(opts.timeout, 5000);
}

#[test]
fn launch_options_defaults_and_setters() {
    let opts = LaunchOptions::default();
    assert!(opts.headless);
    assert!(opts.sandbox);
    assert_eq!(opts.browser_engine, BrowserEngine::Auto);
    assert!(opts.chrome_path.is_none());
    assert!(opts.user_data_dir.is_none());

    let opts = opts
        .headless(false)
        .browser_engine(BrowserEngine::Lightpanda)
        .chrome_path("/opt/lp".to_string())
        .user_data_dir("/tmp/profile".to_string())
        .sandbox(false)
        .launch_timeout(1234);
    assert!(!opts.headless);
    assert!(!opts.sandbox);
    assert_eq!(opts.browser_engine, BrowserEngine::Lightpanda);
    assert_eq!(opts.chrome_path.as_deref(), Some("/opt/lp"));
    assert_eq!(opts.user_data_dir.as_deref(), Some("/tmp/profile"));
    assert_eq!(opts.launch_timeout, 1234);
}
