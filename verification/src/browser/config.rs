//! Options for launching or connecting to a browser.

use vstd::prelude::*;

verus! {

/// Which browser implementation backs a session.
#[derive(Clone, Copy, Debug, PartialEq, Eq, Structural)]
pub enum BrowserEngine {
    /// Chrome/Chromium when one can be found, LightPanda otherwise.
    Auto,
    Chrome,
    Lightpanda,
}

/// Options for launching a local browser.
#[derive(Clone, Debug)]
pub struct LaunchOptions {
    pub headless: bool,
    pub window_width: u32,
    pub window_height: u32,
    /// Path to a custom browser executable.
    pub chrome_path: Option<String>,
    /// Persistent profile directory; a temporary one is used when absent.
    pub user_data_dir: Option<String>,
    pub browser_engine: BrowserEngine,
    pub sandbox: bool,
    /// Milliseconds to wait for a launched browser to accept connections.
    pub launch_timeout: u64,
}

impl LaunchOptions {
    /// Options with their defaults: headless, a 1280x720 window, the sandbox on, any
    /// engine, no custom executable or profile, and 30 s to start.
    pub fn new() -> (res: Self)
        ensures
            res.headless,
            res.window_width == 1280,
            res.window_height == 720,
            res.chrome_path is None,
            res.user_data_dir is None,
            res.browser_engine == BrowserEngine::Auto,
            res.sandbox,
            res.launch_timeout == 30_000,
    {
        LaunchOptions {
            headless: true,
            window_width: 1280,
            window_height: 720,
            chrome_path: None,
            user_data_dir: None,
            browser_engine: BrowserEngine::Auto,
            sandbox: true,
            launch_timeout: 30_000,
        }
    }

    /// Sets headless mode.
    pub fn headless(self, headless: bool) -> (res: Self)
        ensures
            res == (LaunchOptions { headless, ..self }),
    {
        LaunchOptions { headless, ..self }
    }

    /// Sets the window size.
    pub fn window_size(self, width: u32, height: u32) -> (res: Self)
        ensures
            res == (LaunchOptions { window_width: width, window_height: height, ..self }),
    {
        LaunchOptions { window_width: width, window_height: height, ..self }
    }

    /// Sets the browser engine.
    pub fn browser_engine(self, engine: BrowserEngine) -> (res: Self)
        ensures
            res == (LaunchOptions { browser_engine: engine, ..self }),
    {
        LaunchOptions { browser_engine: engine, ..self }
    }

    /// Sets a custom browser executable.
    pub fn chrome_path(self, path: String) -> (res: Self)
        ensures
            res == (LaunchOptions { chrome_path: Some(path), ..self }),
    {
        LaunchOptions { chrome_path: Some(path), ..self }
    }

    /// Sets a persistent profile directory.
    pub fn user_data_dir(self, dir: String) -> (res: Self)
        ensures
            res == (LaunchOptions { user_data_dir: Some(dir), ..self }),
    {
        LaunchOptions { user_data_dir: Some(dir), ..self }
    }

    /// Turns the sandbox on or off.
    pub fn sandbox(self, sandbox: bool) -> (res: Self)
        ensures
            res == (LaunchOptions { sandbox, ..self }),
    {
        LaunchOptions { sandbox, ..self }
    }

    /// Sets the launch timeout in milliseconds.
    pub fn launch_timeout(self, timeout: u64) -> (res: Self)
        ensures
            res == (LaunchOptions { launch_timeout: timeout, ..self }),
    {
        LaunchOptions { launch_timeout: timeout, ..self }
    }
}

impl Default for LaunchOptions {
    fn default() -> (res: Self)
        ensures
            res.headless,
            res.window_width == 1280,
            res.window_height == 720,
            res.chrome_path is None,
            res.user_data_dir is None,
            res.browser_engine == BrowserEngine::Auto,
            res.sandbox,
            res.launch_timeout == 30_000,
    {
        LaunchOptions::new()
    }
}

/// Options for connecting to a running browser over its DevTools WebSocket.
#[derive(Clone, Debug)]
pub struct ConnectionOptions {
    pub ws_url: String,
    /// Connection timeout in milliseconds.
    pub timeout: u64,
}

impl ConnectionOptions {
    /// Connects to `ws_url`, with a 30 s timeout.
    pub fn new(ws_url: &str) -> (res: Self)
        ensures
            res.ws_url@ == ws_url@,
            res.timeout == 30_000,
    {
        ConnectionOptions { ws_url: ws_url.to_owned(), timeout: 30_000 }
    }

    /// Sets the timeout in milliseconds.
    pub fn timeout(self, timeout: u64) -> (res: Self)
        ensures
            res.ws_url == self.ws_url,
            res.timeout == timeout,
    {
        ConnectionOptions { timeout, ..self }
    }
}

} // verus!
