//! Where the application's helper binaries live, how a binary is checked to
//! work, and how the local Bifrost build is driven.

use vstd::prelude::*;
use sha2::Digest;
use crate::error::MindLinkError;
use crate::text::{
    cat2, cat3, cat4, contains, ends_with, flat_map, join_path, joined, lemma_views_concat,
    lemma_views_push, occurs_in, owned, pick_first_present, first_present, opt_text,
    signed_decimal, signed_decimal_string, starts_with, str_eq, views, decimal, decimal_string,
};

verus! {

broadcast use vstd::string::group_string_axioms;

/// Description of a downloadable binary.
pub struct BinaryInfo {
    pub name: String,
    pub version: String,
    pub download_url: String,
    pub executable_name: String,
    pub checksum: Option<String>,
}

/// The host as far as binary lookup is concerned: the operating system and
/// architecture names of `std::env::consts`, and the directory of the running
/// executable when it is known.
pub struct HostPlatform {
    pub os: String,
    pub arch: String,
    pub exe_dir: Option<String>,
}

/// A program to run with its arguments.
pub struct CommandSpec {
    pub program: String,
    pub args: Vec<String>,
}

impl CommandSpec {
    /// Whether this command runs `program` with exactly `args`.
    pub open spec fn runs(self, program: Seq<char>, args: Seq<Seq<char>>) -> bool {
        self.program@ == program && views(self.args@) == args
    }
}

/// The Rust target triple used to name a platform-specific build.
pub open spec fn target_triple(os: Seq<char>, arch: Seq<char>) -> Seq<char> {
    if os == "linux"@ && arch == "x86_64"@ {
        "x86_64-unknown-linux-gnu"@
    } else if os == "linux"@ && arch == "aarch64"@ {
        "aarch64-unknown-linux-gnu"@
    } else if os == "macos"@ && arch == "x86_64"@ {
        "x86_64-apple-darwin"@
    } else if os == "macos"@ && arch == "aarch64"@ {
        "aarch64-apple-darwin"@
    } else if os == "windows"@ && arch == "x86_64"@ {
        "x86_64-pc-windows-msvc"@
    } else {
        arch + "-"@ + os
    }
}

/// The target triple of the platform, for binary names.
pub fn platform_target(os: &str, arch: &str) -> (res: String)
    ensures
        res@ == target_triple(os@, arch@),
{
    if str_eq(os, "linux") && str_eq(arch, "x86_64") {
        owned("x86_64-unknown-linux-gnu")
    } else if str_eq(os, "linux") && str_eq(arch, "aarch64") {
        owned("aarch64-unknown-linux-gnu")
    } else if str_eq(os, "macos") && str_eq(arch, "x86_64") {
        owned("x86_64-apple-darwin")
    } else if str_eq(os, "macos") && str_eq(arch, "aarch64") {
        owned("aarch64-apple-darwin")
    } else if str_eq(os, "windows") && str_eq(arch, "x86_64") {
        owned("x86_64-pc-windows-msvc")
    } else {
        cat3(arch, "-", os)
    }
}

/// The names the Bifrost binary may have, in the order they are looked for:
/// the platform's own name, the platform-specific build, the plain name.
pub open spec fn bifrost_names(os: Seq<char>, arch: Seq<char>) -> Seq<Seq<char>> {
    seq![
        if os == "windows"@ { "bifrost-http.exe"@ } else { "bifrost-http"@ },
        "bifrost-http-"@ + target_triple(os, arch),
        "bifrost-http"@,
    ]
}

/// The names the Bifrost binary may have on this platform.
pub fn bifrost_binary_names(os: &str, arch: &str) -> (res: Vec<String>)
    ensures
        views(res@) == bifrost_names(os@, arch@),
{
    let first = if str_eq(os, "windows") { owned("bifrost-http.exe") } else { owned("bifrost-http") };
    let target = platform_target(os, arch);
    let second = cat2("bifrost-http-", target.as_str());
    let third = owned("bifrost-http");
    let mut v: Vec<String> = Vec::new();
    v.push(first);
    v.push(second);
    v.push(third);
    assert(views(v@) =~= bifrost_names(os@, arch@));
    v
}

/// Where a Bifrost binary called `name` is looked for: beside the running
/// executable (when its directory is known), then in the development and
/// working-directory `binaries` folders.
pub open spec fn bundled_locations(name: Seq<char>, exe_dir: Option<Seq<char>>) -> Seq<Seq<char>> {
    let tail = seq![joined("src-tauri/binaries"@, name), joined("binaries"@, name)];
    match exe_dir {
        Some(d) => seq![joined(joined(d, "binaries"@), name)] + tail,
        None => tail,
    }
}

fn bundled_locations_exec(name: &str, exe_dir: &Option<String>) -> (res: Vec<String>)
    ensures
        views(res@) == bundled_locations(name@, opt_text(*exe_dir)),
{
    let mut v: Vec<String> = Vec::new();
    match exe_dir {
        Some(d) => {
            let bin = join_path(d.as_str(), "binaries");
            v.push(join_path(bin.as_str(), name));
        },
        None => {},
    }
    v.push(join_path("src-tauri/binaries", name));
    v.push(join_path("binaries", name));
    assert(views(v@) =~= bundled_locations(name@, opt_text(*exe_dir)));
    v
}

/// The operating-system-specific file name of a program.
pub open spec fn exe_name(os: Seq<char>, base: Seq<char>) -> Seq<char> {
    if os == "windows"@ { base + ".exe"@ } else { base }
}

/// Application data directory chosen from the environment: `%APPDATA%` on
/// Windows, `~/Library/Application Support` on macOS, `$XDG_DATA_HOME` or else
/// `~/.local/share` on Linux, each followed by `mindlink`.
pub open spec fn data_dir_for(
    os: Seq<char>,
    appdata: Option<Seq<char>>,
    home: Option<Seq<char>>,
    xdg_data_home: Option<Seq<char>>,
) -> Option<Seq<char>> {
    if os == "windows"@ {
        match appdata {
            Some(a) => Some(joined(a, "mindlink"@)),
            None => None,
        }
    } else if os == "macos"@ {
        match home {
            Some(h) => Some(joined(joined(joined(h, "Library"@), "Application Support"@), "mindlink"@)),
            None => None,
        }
    } else if os == "linux"@ {
        match xdg_data_home {
            Some(x) => Some(joined(x, "mindlink"@)),
            None => match home {
                Some(h) => Some(joined(joined(joined(h, ".local"@), "share"@), "mindlink"@)),
                None => None,
            },
        }
    } else {
        None
    }
}

/// The application data directory, from the platform and the values of the
/// `APPDATA`, `HOME` and `XDG_DATA_HOME` variables.
pub fn app_data_dir(
    os: &str,
    appdata: Option<String>,
    home: Option<String>,
    xdg_data_home: Option<String>,
) -> (res: Result<String, String>)
    ensures
        match res {
            Ok(d) => data_dir_for(os@, opt_text(appdata), opt_text(home), opt_text(xdg_data_home)) == Some(d@),
            Err(e) => data_dir_for(os@, opt_text(appdata), opt_text(home), opt_text(xdg_data_home)) is None
                && e@ == "Could not determine application data directory"@,
        },
{
    if str_eq(os, "windows") {
        if let Some(a) = appdata {
            return Ok(join_path(a.as_str(), "mindlink"));
        }
    } else if str_eq(os, "macos") {
        if let Some(h) = home {
            let a = join_path(h.as_str(), "Library");
            let b = join_path(a.as_str(), "Application Support");
            return Ok(join_path(b.as_str(), "mindlink"));
        }
    } else if str_eq(os, "linux") {
        if let Some(x) = xdg_data_home {
            return Ok(join_path(x.as_str(), "mindlink"));
        }
        if let Some(h) = home {
            let a = join_path(h.as_str(), ".local");
            let b = join_path(a.as_str(), "share");
            return Ok(join_path(b.as_str(), "mindlink"));
        }
    }
    Err(owned("Could not determine application data directory"))
}

/// Downloads and manages the helper binaries under the application data
/// directory.
pub struct BinaryManager {
    data_dir: String,
    binaries_dir: String,
    platform: HostPlatform,
}

impl BinaryManager {
    /// The application data directory.
    pub closed spec fn data_path(&self) -> Seq<char> {
        self.data_dir@
    }

    /// The directory that holds the downloaded binaries.
    pub closed spec fn binaries_path(&self) -> Seq<char> {
        self.binaries_dir@
    }

    /// The operating system name.
    pub closed spec fn os(&self) -> Seq<char> {
        self.platform.os@
    }

    /// The architecture name.
    pub closed spec fn arch(&self) -> Seq<char> {
        self.platform.arch@
    }

    /// The directory of the running executable, when known.
    pub closed spec fn exe_dir(&self) -> Option<Seq<char>> {
        opt_text(self.platform.exe_dir)
    }

    /// Every place a locally built Bifrost binary is looked for, in order.
    pub open spec fn local_bifrost_locations(&self) -> Seq<Seq<char>> {
        flat_map(bifrost_names(self.os(), self.arch()), |n: Seq<char>| bundled_locations(n, self.exe_dir()))
    }

    /// Every place the binary `name` is looked for, in order.
    pub open spec fn binary_locations(&self, name: Seq<char>) -> Seq<Seq<char>> {
        if name == "bifrost"@ || name == "bifrost-http"@ {
            self.local_bifrost_locations()
        } else {
            let dir = joined(self.binaries_path(), name);
            let bin = joined(joined(dir, "node_modules"@), ".bin"@);
            seq![joined(dir, name), joined(dir, name + ".exe"@), joined(bin, name), joined(bin, name + ".exe"@)]
        }
    }

    /// Where the downloaded cloudflared binary lives.
    pub open spec fn cloudflared_location(&self) -> Seq<char> {
        joined(joined(self.binaries_path(), "cloudflared"@), exe_name(self.os(), "cloudflared"@))
    }

    /// A manager for the data directory `data_dir` on `platform`; the binaries
    /// go to its `binaries` subdirectory.
    pub fn with_data_dir(data_dir: String, platform: HostPlatform) -> (res: Self)
        ensures
            res.data_path() == data_dir@,
            res.binaries_path() == joined(data_dir@, "binaries"@),
            res.os() == platform.os@,
            res.arch() == platform.arch@,
            res.exe_dir() == opt_text(platform.exe_dir),
    {
        let binaries_dir = join_path(data_dir.as_str(), "binaries");
        BinaryManager { data_dir, binaries_dir, platform }
    }

    /// The binaries directory.
    pub fn get_binaries_dir(&self) -> (res: &str)
        ensures
            res@ == self.binaries_path(),
    {
        self.binaries_dir.as_str()
    }

    /// Every place a locally built Bifrost binary is looked for, in order.
    pub fn local_bifrost_candidates(&self) -> (res: Vec<String>)
        ensures
            views(res@) == self.local_bifrost_locations(),
    {
        let names = bifrost_binary_names(self.platform.os.as_str(), self.platform.arch.as_str());
        let ghost f = |n: Seq<char>| bundled_locations(n, self.exe_dir());
        let ghost all = views(names@);
        let mut out: Vec<String> = Vec::new();
        let mut i: usize = 0;
        while i < names.len()
            invariant
                all == views(names@),
                all == bifrost_names(self.os(), self.arch()),
                f == (|n: Seq<char>| bundled_locations(n, self.exe_dir())),
                i <= names.len(),
                views(out@) == flat_map(all.take(i as int), f),
            decreases names.len() - i,
        {
            let mut locs = bundled_locations_exec(names[i].as_str(), &self.platform.exe_dir);
            proof {
                assert(all.take(i as int + 1).drop_last() =~= all.take(i as int));
                assert(all.take(i as int + 1).last() == names@[i as int]@);
                lemma_views_concat(out@, locs@);
            }
            out.append(&mut locs);
            i = i + 1;
        }
        assert(all.take(names.len() as int) =~= all);
        out
    }

    /// The locally built Bifrost binary: the first place, in search order,
    /// whose flag in `exists` is set.
    pub fn get_local_bifrost_path(&self, exists: &Vec<bool>) -> (res: Option<String>)
        ensures
            opt_text(res) == first_present(self.local_bifrost_locations(), exists@),
    {
        let cands = self.local_bifrost_candidates();
        pick_first_present(&cands, exists)
    }

    /// Every place the binary `binary_name` is looked for, in order.
    pub fn binary_candidates(&self, binary_name: &str) -> (res: Vec<String>)
        ensures
            views(res@) == self.binary_locations(binary_name@),
    {
        if str_eq(binary_name, "bifrost") || str_eq(binary_name, "bifrost-http") {
            return self.local_bifrost_candidates();
        }
        let dir = join_path(self.binaries_dir.as_str(), binary_name);
        let nm = join_path(dir.as_str(), "node_modules");
        let bin = join_path(nm.as_str(), ".bin");
        let with_exe = cat2(binary_name, ".exe");
        let mut v: Vec<String> = Vec::new();
        v.push(join_path(dir.as_str(), binary_name));
        v.push(join_path(dir.as_str(), with_exe.as_str()));
        v.push(join_path(bin.as_str(), binary_name));
        v.push(join_path(bin.as_str(), with_exe.as_str()));
        assert(views(v@) =~= self.binary_locations(binary_name@));
        v
    }

    /// The installed binary `binary_name`: the first place, in search order,
    /// whose flag in `exists` is set.
    pub fn get_binary_path(&self, binary_name: &str, exists: &Vec<bool>) -> (res: Option<String>)
        ensures
            opt_text(res) == first_present(self.binary_locations(binary_name@), exists@),
    {
        let cands = self.binary_candidates(binary_name);
        pick_first_present(&cands, exists)
    }

    /// Where the downloaded cloudflared binary lives.
    pub fn cloudflared_candidate(&self) -> (res: String)
        ensures
            res@ == self.cloudflared_location(),
    {
        let dir = join_path(self.binaries_dir.as_str(), "cloudflared");
        proof {
            reveal_strlit("cloudflared");
            reveal_strlit(".exe");
            reveal_strlit("cloudflared.exe");
            assert("cloudflared"@ + ".exe"@ =~= "cloudflared.exe"@);
        }
        if str_eq(self.platform.os.as_str(), "windows") {
            join_path(dir.as_str(), "cloudflared.exe")
        } else {
            join_path(dir.as_str(), "cloudflared")
        }
    }

    /// The downloaded cloudflared binary, when it exists.
    pub fn get_cloudflared_path(&self, exists: bool) -> (res: Option<String>)
        ensures
            opt_text(res) == (if exists { Some(self.cloudflared_location()) } else { None }),
    {
        if exists {
            Some(self.cloudflared_candidate())
        } else {
            None
        }
    }

    /// Where cloudflared is downloaded to and from, for this platform.
    pub fn cloudflared_download(&self) -> (res: Result<CloudflaredDownload, String>)
        ensures
            match res {
                Ok(d) => cloudflared_asset(self.os(), self.arch()) matches Some((url, file))
                    && d.url@ == url
                    && d.directory@ == joined(self.binaries_path(), "cloudflared"@)
                    && d.destination@ == joined(d.directory@, file)
                    && d.compressed == url_is_compressed(url),
                Err(e) => cloudflared_asset(self.os(), self.arch()) is None
                    && e@ == "Unsupported platform: "@ + self.os() + "-"@ + self.arch(),
            },
    {
        match cloudflared_asset_exec(self.platform.os.as_str(), self.platform.arch.as_str()) {
            Some((url, file)) => {
                let directory = join_path(self.binaries_dir.as_str(), "cloudflared");
                let destination = join_path(directory.as_str(), file.as_str());
                let compressed = ends_with(url.as_str(), ".tgz");
                proof {
                    reveal_strlit(".tgz");
                }
                Ok(CloudflaredDownload { url, directory, destination, compressed })
            },
            None => Err(cat4("Unsupported platform: ", self.platform.os.as_str(), "-", self.platform.arch.as_str())),
        }
    }
}

/// The release asset of cloudflared for a platform: its URL and the file name
/// it is saved under.
pub open spec fn cloudflared_asset(os: Seq<char>, arch: Seq<char>) -> Option<(Seq<char>, Seq<char>)> {
    if os == "linux"@ && arch == "x86_64"@ {
        Some((cloudflared_release_base() + "cloudflared-linux-amd64"@, "cloudflared"@))
    } else if os == "linux"@ && arch == "aarch64"@ {
        Some((cloudflared_release_base() + "cloudflared-linux-arm64"@, "cloudflared"@))
    } else if os == "macos"@ && (arch == "x86_64"@ || arch == "aarch64"@) {
        Some((cloudflared_release_base() + "cloudflared-darwin-amd64.tgz"@, "cloudflared"@))
    } else if os == "windows"@ && arch == "x86_64"@ {
        Some((cloudflared_release_base() + "cloudflared-windows-amd64.exe"@, "cloudflared.exe"@))
    } else if os == "windows"@ && arch == "aarch64"@ {
        Some((cloudflared_release_base() + "cloudflared-windows-386.exe"@, "cloudflared.exe"@))
    } else {
        None
    }
}

/// Where cloudflared release assets are downloaded from.
pub open spec fn cloudflared_release_base() -> Seq<char> {
    "https://github.com/cloudflare/cloudflared/releases/latest/download/"@
}

/// Whether a download URL names a compressed archive.
pub open spec fn url_is_compressed(url: Seq<char>) -> bool {
    url.len() >= 4 && url.subrange(url.len() - 4, url.len() as int) == ".tgz"@
}

fn cloudflared_asset_exec(os: &str, arch: &str) -> (res: Option<(String, String)>)
    ensures
        match res {
            Some((u, f)) => cloudflared_asset(os@, arch@) == Some((u@, f@)),
            None => cloudflared_asset(os@, arch@) is None,
        },
{
    let base = "https://github.com/cloudflare/cloudflared/releases/latest/download/";
    if str_eq(os, "linux") && str_eq(arch, "x86_64") {
        Some((cat2(base, "cloudflared-linux-amd64"), owned("cloudflared")))
    } else if str_eq(os, "linux") && str_eq(arch, "aarch64") {
        Some((cat2(base, "cloudflared-linux-arm64"), owned("cloudflared")))
    } else if str_eq(os, "macos") && (str_eq(arch, "x86_64") || str_eq(arch, "aarch64")) {
        Some((cat2(base, "cloudflared-darwin-amd64.tgz"), owned("cloudflared")))
    } else if str_eq(os, "windows") && str_eq(arch, "x86_64") {
        Some((cat2(base, "cloudflared-windows-amd64.exe"), owned("cloudflared.exe")))
    } else if str_eq(os, "windows") && str_eq(arch, "aarch64") {
        Some((cat2(base, "cloudflared-windows-386.exe"), owned("cloudflared.exe")))
    } else {
        None
    }
}

/// Where cloudflared is downloaded from and saved to.
pub struct CloudflaredDownload {
    pub url: String,
    pub directory: String,
    pub destination: String,
    /// Whether the asset is a compressed archive, which cannot be installed
    /// as it is.
    pub compressed: bool,
}

/// The final component of a path as `Path::file_name` gives it (`None` for
/// a path that ends in `..` or has no component).
pub uninterp spec fn path_file_name(path: Seq<char>) -> Option<Seq<char>>;

/// The extension of a path as `Path::extension` gives it.
pub uninterp spec fn path_extension(path: Seq<char>) -> Option<Seq<char>>;

/// `Path::file_name` on a path given as text; the component of a path that
/// is valid UTF-8 is itself valid UTF-8, so the conversion back loses nothing.
#[verifier::external_body]
fn file_name_of(path: &str) -> (res: Option<String>)
    ensures
        opt_text(res) == path_file_name(path@),
{
    match std::path::Path::new(path).file_name() {
        Some(n) => Some(n.to_string_lossy().into_owned()),
        None => None,
    }
}

/// `Path::extension` on a path given as text.
#[verifier::external_body]
fn extension_of(path: &str) -> (res: Option<String>)
    ensures
        opt_text(res) == path_extension(path@),
{
    match std::path::Path::new(path).extension() {
        Some(n) => Some(n.to_string_lossy().into_owned()),
        None => None,
    }
}

/// How a binary is recognised when it is checked to work.
pub enum BinaryKind {
    /// A locally built Bifrost binary: run directly, after a permission check.
    LocalBifrost,
    /// A Node.js script: run through `node`.
    NodeScript,
    /// Any other program: run directly.
    Other,
}

/// The kind of the binary at `path`, from its file name and extension.
pub open spec fn binary_kind(path: Seq<char>) -> BinaryKind {
    let name = match path_file_name(path) {
        Some(n) => n,
        None => Seq::<char>::empty(),
    };
    if name == "bifrost-http"@ || name == "bifrost-http.exe"@
        || (name.len() >= 13 && name.subrange(0, 13) == "bifrost-http-"@) {
        BinaryKind::LocalBifrost
    } else if path_extension(path) == Some("js"@) || occurs_in("node_modules"@, path) {
        BinaryKind::NodeScript
    } else {
        BinaryKind::Other
    }
}

/// How a binary is checked to work: its kind, and the commands to try in
/// order until one of them can be run.
pub struct VerifyPlan {
    pub kind: BinaryKind,
    pub attempts: Vec<CommandSpec>,
}

/// The commands that check the binary at `path`: a Bifrost build answers
/// `--version`, else `--help`; a Node.js script is run by `node` with
/// `--help`, else `--version`; anything else answers `--help`, else
/// `--version`.
pub open spec fn plan_checks(plan: VerifyPlan, path: Seq<char>) -> bool {
    &&& plan.kind == binary_kind(path)
    &&& plan.attempts@.len() == 2
    &&& match binary_kind(path) {
        BinaryKind::LocalBifrost => plan.attempts@[0].runs(path, seq!["--version"@])
            && plan.attempts@[1].runs(path, seq!["--help"@]),
        BinaryKind::NodeScript => plan.attempts@[0].runs("node"@, seq![path, "--help"@])
            && plan.attempts@[1].runs("node"@, seq![path, "--version"@]),
        BinaryKind::Other => plan.attempts@[0].runs(path, seq!["--help"@])
            && plan.attempts@[1].runs(path, seq!["--version"@]),
    }
}

fn command(program: &str, args: Vec<String>) -> (res: CommandSpec)
    ensures
        res.program@ == program@,
        res.args@ == args@,
{
    CommandSpec { program: owned(program), args }
}

fn one_arg(a: &str) -> (res: Vec<String>)
    ensures
        views(res@) == seq![a@],
{
    let mut v: Vec<String> = Vec::new();
    v.push(owned(a));
    assert(views(v@) =~= seq![a@]);
    v
}

fn two_args(a: &str, b: &str) -> (res: Vec<String>)
    ensures
        views(res@) == seq![a@, b@],
{
    let mut v: Vec<String> = Vec::new();
    v.push(owned(a));
    v.push(owned(b));
    assert(views(v@) =~= seq![a@, b@]);
    v
}

/// How to check that the binary at `path` works.
pub fn verification_plan(path: &str) -> (res: VerifyPlan)
    ensures
        plan_checks(res, path@),
{
    let name = match file_name_of(path) {
        Some(n) => n,
        None => String::new(),
    };
    let bifrost = str_eq(name.as_str(), "bifrost-http") || str_eq(name.as_str(), "bifrost-http.exe")
        || starts_with(name.as_str(), "bifrost-http-");
    proof {
        reveal_strlit("bifrost-http-");
    }
    if bifrost {
        let mut attempts: Vec<CommandSpec> = Vec::new();
        attempts.push(command(path, one_arg("--version")));
        attempts.push(command(path, one_arg("--help")));
        return VerifyPlan { kind: BinaryKind::LocalBifrost, attempts };
    }
    let ext = extension_of(path);
    let js = match &ext {
        Some(e) => str_eq(e.as_str(), "js"),
        None => false,
    };
    if js || contains(path, "node_modules") {
        let mut attempts: Vec<CommandSpec> = Vec::new();
        attempts.push(command("node", two_args(path, "--help")));
        attempts.push(command("node", two_args(path, "--version")));
        VerifyPlan { kind: BinaryKind::NodeScript, attempts }
    } else {
        let mut attempts: Vec<CommandSpec> = Vec::new();
        attempts.push(command(path, one_arg("--help")));
        attempts.push(command(path, one_arg("--version")));
        VerifyPlan { kind: BinaryKind::Other, attempts }
    }
}

/// The verdict of the first attempt that could be run: whether it exited
/// successfully; `false` when none could be run.
pub open spec fn first_run_verdict(results: Seq<Option<bool>>) -> bool
    decreases results.len(),
{
    if results.len() == 0 {
        false
    } else {
        match results[0] {
            Some(ok) => ok,
            None => first_run_verdict(results.drop_first()),
        }
    }
}

/// Record the outcome of one check command (`None` when it could not be run)
/// and say whether the next one is to be tried: only while none could be
/// run, since the first command that runs decides.
pub fn record_check(results: &mut Vec<Option<bool>>, outcome: Option<bool>) -> (go_on: bool)
    ensures
        final(results)@ == old(results)@.push(outcome),
        go_on == (outcome is None),
{
    results.push(outcome);
    outcome.is_none()
}

/// Whether a binary works, from the outcomes of its check commands in order
/// (`None` where the command could not be run).
pub fn check_verdict(results: &Vec<Option<bool>>) -> (res: bool)
    ensures
        res == first_run_verdict(results@),
{
    let mut i: usize = 0;
    assert(results@.skip(0) =~= results@);
    while i < results.len()
        invariant
            i <= results.len(),
            first_run_verdict(results@) == first_run_verdict(results@.skip(i as int)),
        decreases results.len() - i,
    {
        let r = results[i];
        assert(results@.skip(i as int)[0] == r);
        match r {
            Some(ok) => {
                return ok;
            },
            None => {
                assert(results@.skip(i as int).drop_first() =~= results@.skip(i as int + 1));
            },
        }
        i = i + 1;
    }
    false
}

/// Whether Unix permission bits let someone execute the file.
pub fn mode_executable(mode: u32) -> (res: bool)
    ensures
        res == (mode & 0o111u32 != 0),
{
    mode & 0o111u32 != 0
}

/// Whether a binary is worth running its check commands for: it exists
/// (`exists`, the file-system check) and, for a locally built Bifrost binary
/// whose permission bits could be read (`mode`), they let someone execute
/// it.
pub fn binary_precheck(exists: bool, kind: &BinaryKind, mode: Option<u32>) -> (res: bool)
    ensures
        res == (exists && !(*kind is LocalBifrost && (mode matches Some(m) && m & 0o111u32 == 0))),
{
    if !exists {
        return false;
    }
    match kind {
        BinaryKind::LocalBifrost => match mode {
            Some(m) => mode_executable(m),
            None => true,
        },
        _ => true,
    }
}

/// A step of the Bifrost build that failed.
pub enum BuildFailure {
    /// The working directory could not be read.
    CurrentDirUnavailable(anyhow::Error),
    /// The build script is not where it is expected.
    ScriptMissing,
    /// The build script could not be started.
    SpawnFailed(anyhow::Error),
    /// The build script's standard output could not be captured.
    StdoutUnavailable,
    /// The build script's standard error could not be captured.
    StderrUnavailable,
    /// Waiting for the build script failed.
    WaitFailed(anyhow::Error),
    /// The build script exited unsuccessfully, with this code if it has one.
    ExitCode(Option<i32>),
    /// The build finished but the binary is not where it should be.
    BinaryMissing,
}

/// The text `Debug` writes for an optional exit code.
pub open spec fn exit_code_text(code: Option<i32>) -> Seq<char> {
    match code {
        Some(c) => "Some("@ + signed_decimal(c as int) + ")"@,
        None => "None"@,
    }
}

/// The error reported for a failed build step of the script at `script`.
pub open spec fn build_error(failure: BuildFailure, script: Seq<char>, res: MindLinkError) -> bool {
    match failure {
        BuildFailure::CurrentDirUnavailable(e) => res.is_file_system(
            "Failed to get current directory"@, None, "get current directory"@, Some(e)),
        BuildFailure::ScriptMissing => res.is_binary(
            "Build script not found. Make sure you're running from the project root."@,
            "tauri-build-bifrost.sh"@, Some(script), None),
        BuildFailure::SpawnFailed(e) => res.is_binary("Failed to start build script"@, "bash"@, Some(script), Some(e)),
        BuildFailure::StdoutUnavailable => res.is_internal(
            "Failed to capture build script stdout"@, Some("BinaryManager"@), None),
        BuildFailure::StderrUnavailable => res.is_internal(
            "Failed to capture build script stderr"@, Some("BinaryManager"@), None),
        BuildFailure::WaitFailed(e) => res.is_binary(
            "Build script execution failed"@, "tauri-build-bifrost.sh"@, Some(script), Some(e)),
        BuildFailure::ExitCode(c) => res.is_binary(
            "Build script failed with exit code: "@ + exit_code_text(c), "tauri-build-bifrost.sh"@,
            Some(script), None),
        BuildFailure::BinaryMissing => res.is_binary(
            "Built binary not found at expected location"@, "bifrost"@, None, None),
    }
}

/// Where the Bifrost build script lives under the project root.
pub fn build_script_path(project_root: &str) -> (res: String)
    ensures
        res@ == joined(joined(project_root@, "scripts"@), "tauri-build-bifrost.sh"@),
{
    let scripts = join_path(project_root, "scripts");
    join_path(scripts.as_str(), "tauri-build-bifrost.sh")
}

/// The command that runs the build script: `bash <script> --force`.
pub fn build_command(script: &str) -> (res: CommandSpec)
    ensures
        res.runs("bash"@, seq![script@, "--force"@]),
{
    command("bash", two_args(script, "--force"))
}

/// The line the build echoes to the console for a line of its output.
pub fn build_console_line(from_stderr: bool, line: &str) -> (res: String)
    ensures
        res@ == (if from_stderr { "BUILD ERROR: "@ } else { "BUILD: "@ }) + line@,
{
    if from_stderr { cat2("BUILD ERROR: ", line) } else { cat2("BUILD: ", line) }
}

/// The error reported when a step of the build of the script at `script`
/// fails.
pub fn build_failure_error(failure: BuildFailure, script: &str) -> (res: MindLinkError)
    ensures
        build_error(failure, script@, res),
{
    match failure {
        BuildFailure::CurrentDirUnavailable(e) => MindLinkError::FileSystem {
            message: owned("Failed to get current directory"),
            path: None,
            operation: owned("get current directory"),
            source: Some(e),
        },
        BuildFailure::ScriptMissing => MindLinkError::BinaryExecution {
            message: owned("Build script not found. Make sure you're running from the project root."),
            binary_name: owned("tauri-build-bifrost.sh"),
            binary_path: Some(owned(script)),
            source: None,
        },
        BuildFailure::SpawnFailed(e) => MindLinkError::BinaryExecution {
            message: owned("Failed to start build script"),
            binary_name: owned("bash"),
            binary_path: Some(owned(script)),
            source: Some(e),
        },
        BuildFailure::StdoutUnavailable => MindLinkError::Internal {
            message: owned("Failed to capture build script stdout"),
            component: Some(owned("BinaryManager")),
            source: None,
        },
        BuildFailure::StderrUnavailable => MindLinkError::Internal {
            message: owned("Failed to capture build script stderr"),
            component: Some(owned("BinaryManager")),
            source: None,
        },
        BuildFailure::WaitFailed(e) => MindLinkError::BinaryExecution {
            message: owned("Build script execution failed"),
            binary_name: owned("tauri-build-bifrost.sh"),
            binary_path: Some(owned(script)),
            source: Some(e),
        },
        BuildFailure::ExitCode(c) => {
            let code = match c {
                Some(n) => {
                    let d = signed_decimal_string(n);
                    cat3("Some(", d.as_str(), ")")
                },
                None => owned("None"),
            };
            MindLinkError::BinaryExecution {
                message: cat2("Build script failed with exit code: ", code.as_str()),
                binary_name: owned("tauri-build-bifrost.sh"),
                binary_path: Some(owned(script)),
                source: None,
            }
        },
        BuildFailure::BinaryMissing => MindLinkError::BinaryExecution {
            message: owned("Built binary not found at expected location"),
            binary_name: owned("bifrost"),
            binary_path: None,
            source: None,
        },
    }
}

/// A step of the integrity check of a built binary that failed.
pub enum IntegrityFailure {
    MetadataUnavailable(anyhow::Error),
    NotRegularFile,
    OpenFailed(anyhow::Error),
    ReadFailed(anyhow::Error),
}

/// The error reported when the integrity check of the binary at `path` fails.
pub open spec fn integrity_error(failure: IntegrityFailure, path: Seq<char>, res: MindLinkError) -> bool {
    match failure {
        IntegrityFailure::MetadataUnavailable(e) => res.is_file_system(
            "Failed to read binary metadata"@, Some(path), "read metadata"@, Some(e)),
        IntegrityFailure::NotRegularFile => res.is_binary(
            "Binary path is not a regular file"@, "bifrost"@, Some(path), None),
        IntegrityFailure::OpenFailed(e) => res.is_file_system(
            "Failed to open binary for checksum calculation"@, Some(path), "open file"@, Some(e)),
        IntegrityFailure::ReadFailed(e) => res.is_file_system(
            "Failed to read binary for checksum calculation"@, Some(path), "read file"@, Some(e)),
    }
}

/// The error reported when a step of the integrity check of `path` fails.
pub fn integrity_failure_error(failure: IntegrityFailure, path: &str) -> (res: MindLinkError)
    ensures
        integrity_error(failure, path@, res),
{
    match failure {
        IntegrityFailure::MetadataUnavailable(e) => MindLinkError::FileSystem {
            message: owned("Failed to read binary metadata"),
            path: Some(owned(path)),
            operation: owned("read metadata"),
            source: Some(e),
        },
        IntegrityFailure::NotRegularFile => MindLinkError::BinaryExecution {
            message: owned("Binary path is not a regular file"),
            binary_name: owned("bifrost"),
            binary_path: Some(owned(path)),
            source: None,
        },
        IntegrityFailure::OpenFailed(e) => MindLinkError::FileSystem {
            message: owned("Failed to open binary for checksum calculation"),
            path: Some(owned(path)),
            operation: owned("open file"),
            source: Some(e),
        },
        IntegrityFailure::ReadFailed(e) => MindLinkError::FileSystem {
            message: owned("Failed to read binary for checksum calculation"),
            path: Some(owned(path)),
            operation: owned("read file"),
            source: Some(e),
        },
    }
}

/// The SHA-256 digest of `data`.
pub uninterp spec fn sha256(data: Seq<u8>) -> Seq<u8>;

/// `Sha256::digest` of the `sha2` crate: the 32-byte SHA-256 digest of the
/// bytes (its output size is fixed at 32 bytes by the type).
#[verifier::external_body]
pub(crate) fn sha256_digest(data: &[u8]) -> (res: Vec<u8>)
    ensures
        res@ == sha256(data@),
        res@.len() == 32,
{
    sha2::Sha256::digest(data).to_vec()
}

/// The lowercase hexadecimal digit for `d` (0 to 15).
pub open spec fn hex_digit(d: int) -> char {
    if d < 10 { ((d + 48) as u8) as char } else { ((d + 87) as u8) as char }
}

/// The lowercase hexadecimal text of `bytes`, two digits per byte, as `{:x}`
/// writes a digest.
pub open spec fn hex_text(bytes: Seq<u8>) -> Seq<char>
    decreases bytes.len(),
{
    if bytes.len() == 0 {
        Seq::empty()
    } else {
        hex_text(bytes.drop_last()).push(hex_digit(bytes.last() as int / 16)).push(hex_digit(bytes.last() as int % 16))
    }
}

fn hex_digit_exec(d: u8) -> (c: char)
    requires
        d < 16,
    ensures
        c == hex_digit(d as int),
{
    if d < 10 { (d + 48) as char } else { (d + 87) as char }
}

/// The lowercase hexadecimal text of `bytes`.
pub fn hex_string(bytes: &[u8]) -> (res: String)
    ensures
        res@ == hex_text(bytes@),
{
    let mut out = String::new();
    let mut i: usize = 0;
    while i < bytes.len()
        invariant
            i <= bytes.len(),
            out@ == hex_text(bytes@.take(i as int)),
        decreases bytes.len() - i,
    {
        let b = bytes[i];
        crate::text::push_char(&mut out, hex_digit_exec(b / 16));
        crate::text::push_char(&mut out, hex_digit_exec(b % 16));
        assert(bytes@.take(i as int + 1).drop_last() =~= bytes@.take(i as int));
        i = i + 1;
    }
    assert(bytes@.take(bytes.len() as int) =~= bytes@);
    out
}

/// The checksum recorded for a built binary: the hexadecimal SHA-256 of its
/// contents.
pub fn file_checksum(contents: &[u8]) -> (res: String)
    ensures
        res@ == hex_text(sha256(contents@)),
        res@.len() == 64,
{
    let digest = sha256_digest(contents);
    let res = hex_string(digest.as_slice());
    proof {
        lemma_hex_len(sha256(contents@));
    }
    res
}

/// Hexadecimal text has two digits per byte.
pub proof fn lemma_hex_len(bytes: Seq<u8>)
    ensures
        hex_text(bytes).len() == 2 * bytes.len(),
    decreases bytes.len(),
{
    if bytes.len() > 0 {
        lemma_hex_len(bytes.drop_last());
    }
}

/// The log line of a verified binary.
pub fn integrity_summary(size: u64, checksum: &str) -> (res: String)
    ensures
        res@ == "Binary verified - Size: "@ + decimal(size as nat) + " bytes, SHA256: "@ + checksum@,
{
    let n = decimal_string(size);
    crate::text::cat4("Binary verified - Size: ", n.as_str(), " bytes, SHA256: ", checksum)
}

/// Where cloudflared is taken from.
pub enum CloudflaredChoice {
    /// The one on the `PATH`.
    FromPath,
    /// The one downloaded before, at this path.
    Local(String),
    /// None works: download it.
    Download,
}

/// Where cloudflared is taken from: the `PATH` when `cloudflared --version`
/// succeeds there, else the downloaded copy when it exists and passes the
/// check, else a fresh download.
pub fn choose_cloudflared(on_path: bool, local: Option<String>, local_works: bool) -> (res: CloudflaredChoice)
    ensures
        on_path ==> res is FromPath,
        !on_path ==> match local {
            Some(p) => if local_works {
                res matches CloudflaredChoice::Local(q) && q@ == p@
            } else {
                res is Download
            },
            None => res is Download,
        },
{
    if on_path {
        CloudflaredChoice::FromPath
    } else {
        match local {
            Some(p) => if local_works { CloudflaredChoice::Local(p) } else { CloudflaredChoice::Download },
            None => CloudflaredChoice::Download,
        }
    }
}

/// The Bifrost release asset for a platform: its file name, or the error for
/// an unsupported platform.
pub open spec fn bifrost_release_name(os: Seq<char>, arch: Seq<char>) -> Option<Seq<char>> {
    if (os == "linux"@ && (arch == "x86_64"@ || arch == "aarch64"@))
        || (os == "macos"@ && (arch == "x86_64"@ || arch == "aarch64"@)) {
        Some("bifrost"@)
    } else if os == "windows"@ && arch == "x86_64"@ {
        Some("bifrost.exe"@)
    } else {
        None
    }
}

/// The name of the Bifrost release binary for a platform.
pub fn bifrost_release_binary(os: &str, arch: &str) -> (res: Result<String, String>)
    ensures
        match res {
            Ok(n) => bifrost_release_name(os@, arch@) == Some(n@),
            Err(e) => bifrost_release_name(os@, arch@) is None
                && e@ == "Unsupported platform: "@ + os@ + "-"@ + arch@,
        },
{
    if (str_eq(os, "linux") && (str_eq(arch, "x86_64") || str_eq(arch, "aarch64")))
        || (str_eq(os, "macos") && (str_eq(arch, "x86_64") || str_eq(arch, "aarch64"))) {
        Ok(owned("bifrost"))
    } else if str_eq(os, "windows") && str_eq(arch, "x86_64") {
        Ok(owned("bifrost.exe"))
    } else {
        Err(crate::text::cat4("Unsupported platform: ", os, "-", arch))
    }
}

} // verus!
