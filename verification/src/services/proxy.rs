//! The proxy to a development server: where a request is forwarded to, and
//! what is answered when the server cannot be reached.
//!
//! The request to the server is made by the caller. A failure of the server
//! never becomes a failure of the proxy: it becomes a page that says what
//! went wrong and reloads itself.

use vstd::prelude::*;
use vstd::string::StringExecFns;

verus! {

/// Opening of the page shown when the request to the server failed, up to the address.
pub const ERROR_PAGE_HEAD: &'static str = r#"<!DOCTYPE html>
<html>
<head>
    <title>Development Server Unavailable</title>
    <style>
        body { font-family: -apple-system, BlinkMacSystemFont, 'Segoe UI', Roboto, sans-serif; margin: 40px; }
        .container { max-width: 600px; margin: 0 auto; }
        .error { background: #fee; border: 1px solid #fcc; padding: 20px; border-radius: 8px; }
        .info { background: #eff; border: 1px solid #cdf; padding: 20px; border-radius: 8px; margin-top: 20px; }
        code { background: #f5f5f5; padding: 2px 4px; border-radius: 3px; }
        ul { margin: 10px 0; }
    </style>
</head>
<body>
    <div class="container">
        <div class="error">
            <h1>🚫 Development Server Unavailable</h1>
            <p><strong>Could not connect to:</strong> <code>"#;

/// Part of the failure page between the address and the cause.
pub const ERROR_PAGE_CAUSE: &'static str = r#"</code></p>
            <p><strong>Error:</strong> "#;

/// Part of the failure page between the cause and the second mention of the address.
pub const ERROR_PAGE_ADVICE: &'static str = r#"</p>
        </div>
        
        <div class="info">
            <h2>💡 Troubleshooting</h2>
            <p>The frontend development server is not responding. Here's what you can try:</p>
            <ul>
                <li><strong>Check if the dev server is running:</strong> Look for a process running on the configured port</li>
                <li><strong>Verify the URL:</strong> Make sure <code>"#;

/// Close of the failure page, with the script that reloads it every 3 seconds.
pub const ERROR_PAGE_TAIL: &'static str = r#"</code> is correct</li>
                <li><strong>Start the dev server manually:</strong> Run <code>npm run dev</code> or <code>yarn dev</code> in your frontend directory</li>
                <li><strong>Check for port conflicts:</strong> Another process might be using the same port</li>
                <li><strong>Wait a moment:</strong> The dev server might still be starting up</li>
            </ul>
            <p><em>This page will automatically work once the development server is available.</em></p>
        </div>
    </div>
    
    <script>
        // Auto-refresh every 3 seconds to check if dev server is back
        setTimeout(() => { window.location.reload(); }, 3000);
    </script>
</body>
</html>"#;

/// Opening of the page shown while the server is not healthy, up to the address.
pub const STARTING_PAGE_HEAD: &'static str = r#"<!DOCTYPE html>
<html>
<head>
    <title>Development Server Unavailable</title>
    <style>
        body { font-family: -apple-system, BlinkMacSystemFont, 'Segoe UI', Roboto, sans-serif; margin: 40px; }
        .container { max-width: 600px; margin: 0 auto; }
        .error { background: #fee; border: 1px solid #fcc; padding: 20px; border-radius: 8px; }
        code { background: #f5f5f5; padding: 2px 4px; border-radius: 3px; }
    </style>
</head>
<body>
    <div class="container">
        <div class="error">
            <h1>⏳ Development Server Starting</h1>
            <p>The development server at <code>"#;

/// Close of the page shown while the server is not healthy, with the script that reloads it every 2 seconds.
pub const STARTING_PAGE_TAIL: &'static str = r#"</code> is not ready yet.</p>
            <p><em>This page will refresh automatically...</em></p>
        </div>
    </div>
    
    <script>
        setTimeout(() => { window.location.reload(); }, 2000);
    </script>
</body>
</html>"#;

/// What the proxy answers.
#[derive(Debug)]
pub struct ProxyResponse {
    /// The HTTP status code.
    pub status: u16,
    /// The content type.
    pub content_type: String,
    /// The body.
    pub body: String,
}

/// Mathematical form of a [`ProxyResponse`].
pub struct ResponseView {
    /// The HTTP status code.
    pub status: u16,
    /// The content type.
    pub content_type: Seq<char>,
    /// The body.
    pub body: Seq<char>,
}

impl View for ProxyResponse {
    type V = ResponseView;

    open spec fn view(&self) -> ResponseView {
        ResponseView { status: self.status, content_type: self.content_type@, body: self.body@ }
    }
}

/// What the proxy does with a request once the health of the server is
/// known.
#[derive(Debug)]
pub enum ProxyStep {
    /// Fetch this address and report what came back.
    Fetch {
        /// The address of the request at the server.
        url: String,
    },
    /// Answer with this response.
    Respond(ProxyResponse),
}

/// The page shown when the request to the server at `target` failed for the
/// reason `cause`.
pub open spec fn error_page(target: Seq<char>, cause: Seq<char>) -> Seq<char> {
    ERROR_PAGE_HEAD@ + target + ERROR_PAGE_CAUSE@ + cause + ERROR_PAGE_ADVICE@ + target
        + ERROR_PAGE_TAIL@
}

/// The page shown while the server at `target` is not healthy.
pub open spec fn starting_page(target: Seq<char>) -> Seq<char> {
    STARTING_PAGE_HEAD@ + target + STARTING_PAGE_TAIL@
}

/// A "service unavailable" response with an HTML page as its body.
pub open spec fn unavailable(page: Seq<char>) -> ResponseView {
    ResponseView { status: 503, content_type: "text/html"@, body: page }
}

/// What the proxy answers to what came back from the server: the status and
/// the body as they came, or the failure page where nothing came back.
pub open spec fn relayed(target: Seq<char>, upstream: Result<(u16, Seq<char>), Seq<char>>) -> ResponseView {
    match upstream {
        Ok((status, body)) => ResponseView { status, content_type: "text/html"@, body },
        Err(cause) => unavailable(error_page(target, cause)),
    }
}

/// Forwards requests to one development server.
#[derive(Debug)]
pub struct ProxyService {
    target_url: String,
}

impl ProxyService {
    /// A proxy to the server at `target_url`.
    pub fn new(target_url: String) -> (service: Self)
        ensures
            service.target() == target_url@,
    {
        ProxyService { target_url }
    }

    /// The address of the server.
    pub closed spec fn target(self) -> Seq<char> {
        self.target_url@
    }

    /// The address of the server.
    pub fn target_url(&self) -> (url: &str)
        ensures
            url@ == self.target(),
    {
        self.target_url.as_str()
    }

    /// Decides what to do with a request for `path`, given whether the
    /// server was just found healthy: fetch the path at the server, or answer
    /// at once that the server is still starting.
    pub fn proxy_request(&self, path: &str, healthy: bool) -> (step: ProxyStep)
        ensures
            match step {
                ProxyStep::Fetch { url } => healthy && url@ == self.target() + path@,
                ProxyStep::Respond(response) => !healthy && response@ == unavailable(
                    starting_page(self.target()),
                ),
            },
    {
        if healthy {
            ProxyStep::Fetch { url: self.target_url.clone().concat(path) }
        } else {
            ProxyStep::Respond(
                ProxyResponse {
                    status: 503,
                    content_type: String::from_str("text/html"),
                    body: self.create_unavailable_error_page(),
                },
            )
        }
    }

    /// Turns what came back from the server into the answer of the proxy.
    /// A status and a body are passed on as they came; a failure in
    /// transport, described by its text, becomes the failure page.
    pub fn complete_request(&self, upstream: Result<(u16, String), String>) -> (response:
        ProxyResponse)
        ensures
            response@ == relayed(
                self.target(),
                match upstream {
                    Ok((status, body)) => Ok((status, body@)),
                    Err(cause) => Err(cause@),
                },
            ),
    {
        match upstream {
            Ok((status, body)) => ProxyResponse {
                status,
                content_type: String::from_str("text/html"),
                body,
            },
            Err(cause) => ProxyResponse {
                status: 503,
                content_type: String::from_str("text/html"),
                body: self.create_error_page(cause.as_str()),
            },
        }
    }

    /// The page shown when the request to the server failed.
    pub fn create_error_page(&self, cause: &str) -> (page: String)
        ensures
            page@ == error_page(self.target(), cause@),
    {
        String::from_str(ERROR_PAGE_HEAD).concat(self.target_url.as_str()).concat(
            ERROR_PAGE_CAUSE,
        ).concat(cause).concat(ERROR_PAGE_ADVICE).concat(self.target_url.as_str()).concat(
            ERROR_PAGE_TAIL,
        )
    }

    /// The page shown while the server is not healthy.
    pub fn create_unavailable_error_page(&self) -> (page: String)
        ensures
            page@ == starting_page(self.target()),
    {
        String::from_str(STARTING_PAGE_HEAD).concat(self.target_url.as_str()).concat(
            STARTING_PAGE_TAIL,
        )
    }
}

} // verus!
