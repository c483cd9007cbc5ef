//! Commands about the desktop around the application: its windows, the
//! browser, and the provider plugins.

use vstd::prelude::*;
use crate::commands::{PluginDiscoveryResponse, PluginManifest};
use crate::error::opt_view;
use crate::managers::binary_manager::CommandSpec;
use crate::text::{cat2, contains, joined, join_path, lowercase, occurs_in, opt_text, owned, str_eq, to_lowercase, views};

verus! {

broadcast use vstd::string::group_string_axioms;

/// The label the main window may carry besides one that mentions `main`.
pub open spec fn main_window_title() -> Seq<char> {
    "MindLink - Local LLM Router"@
}

/// Whether a window with this label is taken for the main window when none
/// is labelled `main`: its lowercase label mentions `main`, or it carries
/// the application's title.
pub fn is_main_window_label(label: &str) -> (res: bool)
    ensures
        res == (occurs_in("main"@, lowercase(label@)) || label@ == main_window_title()),
{
    let lower = to_lowercase(label);
    contains(lower.as_str(), "main") || str_eq(label, "MindLink - Local LLM Router")
}

/// The report of the window test command.
pub fn show_window_report(result: &Result<(), String>) -> (res: String)
    ensures
        match result {
            Ok(()) => res@ == "show_main_window succeeded"@,
            Err(e) => res@ == "show_main_window failed: "@ + e@,
        },
{
    match result {
        Ok(()) => owned("show_main_window succeeded"),
        Err(e) => cat2("show_main_window failed: ", e.as_str()),
    }
}

/// How a URL is opened in the default browser: `cmd /c start` on Windows,
/// `open` on macOS, `xdg-open` elsewhere.
pub fn open_url_command(os: &str, url: &str) -> (res: CommandSpec)
    ensures
        os@ == "windows"@ ==> res.runs("cmd"@, seq!["/c"@, "start"@, url@]),
        os@ == "macos"@ ==> res.runs("open"@, seq![url@]),
        os@ != "windows"@ && os@ != "macos"@ ==> res.runs("xdg-open"@, seq![url@]),
{
    let mut args: Vec<String> = Vec::new();
    proof {
        reveal_strlit("windows");
        reveal_strlit("macos");
        assert("windows"@.len() != "macos"@.len());
    }
    if str_eq(os, "windows") {
        args.push(owned("/c"));
        args.push(owned("start"));
        args.push(owned(url));
        assert(views(args@) =~= seq!["/c"@, "start"@, url@]);
        CommandSpec { program: owned("cmd"), args }
    } else if str_eq(os, "macos") {
        args.push(owned(url));
        assert(views(args@) =~= seq![url@]);
        CommandSpec { program: owned("open"), args }
    } else {
        args.push(owned(url));
        assert(views(args@) =~= seq![url@]);
        CommandSpec { program: owned("xdg-open"), args }
    }
}

/// The answer of the URL opening command: opened, or why not (`stderr` of an
/// opener that failed, or the reason it could not be run).
pub fn open_url_outcome(url: &str, ran: Result<Result<(), String>, String>) -> (res: Result<String, String>)
    ensures
        match ran {
            Ok(Ok(())) => res matches Ok(m) && m@ == "Successfully opened URL: "@ + url@,
            Ok(Err(stderr)) => res matches Err(e) && e@ == "Failed to open URL: "@ + stderr@,
            Err(reason) => res matches Err(e) && e@ == "Failed to execute open command: "@ + reason@,
        },
{
    match ran {
        Ok(Ok(())) => Ok(cat2("Successfully opened URL: ", url)),
        Ok(Err(stderr)) => Err(cat2("Failed to open URL: ", stderr.as_str())),
        Err(reason) => Err(cat2("Failed to execute open command: ", reason.as_str())),
    }
}

impl PluginManifest {
    /// A built-in provider plugin with exactly these fields.
    pub open spec fn built_in(self, id: Seq<char>, name: Seq<char>, description: Seq<char>, main: Seq<char>) -> bool {
        &&& self.id@ == id
        &&& self.name@ == name
        &&& self.version@ == "1.0.0"@
        &&& opt_view(self.description) == Some(description)
        &&& opt_view(self.author) == Some("MindLink Team"@)
        &&& self.main@ == main
        &&& self.dependencies is None
        &&& opt_view(self.mindlink_version) == Some("1.0.0"@)
    }
}

fn built_in_plugin(id: &str, name: &str, description: &str, main: &str) -> (res: PluginManifest)
    ensures
        res.built_in(id@, name@, description@, main@),
{
    PluginManifest {
        id: owned(id),
        name: owned(name),
        version: owned("1.0.0"),
        description: Some(owned(description)),
        author: Some(owned("MindLink Team")),
        main: owned(main),
        dependencies: None,
        mindlink_version: Some(owned("1.0.0")),
    }
}

/// The plugins known without looking on disk: OpenAI, Anthropic and Google.
pub fn built_in_plugins() -> (res: PluginDiscoveryResponse)
    ensures
        res.success,
        res.error is None,
        opt_view(res.plugins_directory) == Some("Built-in plugins"@),
        res.manifests@.len() == 3,
        res.manifests@[0].built_in("openai"@, "OpenAI"@, "Connect to OpenAI GPT models via API"@, "openai.js"@),
        res.manifests@[1].built_in("anthropic"@, "Anthropic"@, "Connect to Anthropic models via Anthropic API"@,
            "anthropic.js"@),
        res.manifests@[2].built_in("google"@, "Google"@, "Connect to Gemini models via Google AI Studio"@,
            "google.js"@),
{
    let mut manifests: Vec<PluginManifest> = Vec::new();
    manifests.push(built_in_plugin("openai", "OpenAI", "Connect to OpenAI GPT models via API", "openai.js"));
    manifests.push(built_in_plugin("anthropic", "Anthropic", "Connect to Anthropic models via Anthropic API", "anthropic.js"));
    manifests.push(built_in_plugin("google", "Google", "Connect to Gemini models via Google AI Studio", "google.js"));
    PluginDiscoveryResponse {
        success: true,
        manifests,
        plugins_directory: Some(owned("Built-in plugins")),
        error: None,
    }
}

/// Where external plugins go: `mindlink/plugins` under the local data
/// directory, or why that is unknown.
pub fn plugins_directory(data_local_dir: Option<String>) -> (res: Result<String, String>)
    ensures
        match data_local_dir {
            Some(d) => res matches Ok(p) && p@ == joined(joined(d@, "mindlink"@), "plugins"@),
            None => res matches Err(e) && e@ == "Cannot determine app data directory"@,
        },
{
    match data_local_dir {
        Some(d) => {
            let m = join_path(d.as_str(), "mindlink");
            Ok(join_path(m.as_str(), "plugins"))
        },
        None => Err(owned("Cannot determine app data directory")),
    }
}

} // verus!
