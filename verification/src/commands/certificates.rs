//! The Cloudflare origin certificate: when it counts as usable, when a
//! downloaded one is picked up, and the reports shown about it.

use vstd::prelude::*;
use crate::text::{all_white, cat2, cat3, decimal, decimal_string, opt_text, owned, trim};

verus! {

broadcast use vstd::string::group_string_axioms;

/// Whether certificate text is usable: it holds something besides white
/// space.
pub fn certificate_usable(content: &str) -> (res: bool)
    ensures
        res == !all_white(content@),
{
    let t = trim(content);
    t.as_str().unicode_len() > 0
}

/// Whether cloudflared counts as logged in: the certificate exists and could
/// be read with something in it, and `cloudflared tunnel list` then
/// succeeded (`None` where it could not be run).
pub fn cloudflared_auth_verdict(cert_content: Option<&str>, list_succeeded: Option<bool>) -> (res: bool)
    ensures
        res == (cert_content matches Some(c) && !all_white(c@) && list_succeeded == Some(true)),
{
    match cert_content {
        Some(c) => certificate_usable(c) && list_succeeded == Some(true),
        None => false,
    }
}

/// How old, in seconds, a downloaded certificate may be to be picked up.
pub const RECENT_CERT_SECS: u64 = 600;

/// Whether a certificate found in the downloads folder is picked up: it is
/// less than ten minutes old and holds something.
pub fn recent_certificate(age_secs: u64, content: Option<&str>) -> (res: bool)
    ensures
        res == (age_secs < 600 && (content matches Some(c) && !all_white(c@))),
{
    if age_secs >= RECENT_CERT_SECS {
        return false;
    }
    match content {
        Some(c) => certificate_usable(c),
        None => false,
    }
}

/// The outcome of the automatic login check: logged in already, or a recent
/// downloaded certificate was moved in place and the check then passed.
pub fn smart_auth_verdict(first_check: bool, recent_found: bool, moved: bool, second_check: bool) -> (res: bool)
    ensures
        res == (first_check || (recent_found && moved && second_check)),
{
    first_check || (recent_found && moved && second_check)
}

/// The error when the copied certificate turns out empty.
pub fn copied_certificate_empty() -> (res: String)
    ensures
        res@ == "Copied certificate file is empty"@,
{
    owned("Copied certificate file is empty")
}

/// How a certificate file could be read.
pub enum CertRead {
    /// Its text.
    Content(String),
    /// Why it could not be read.
    Unreadable(String),
}

/// The byte length of a text, as `str::len` gives it.
pub open spec fn byte_len(s: Seq<char>) -> nat {
    (vstd::utf8::encode_utf8(s).len() as usize) as nat
}

/// The manual installation instructions for the certificate at `cert_path`.
pub open spec fn instructions_text(cert_path: Seq<char>) -> Seq<char> {
    "Certificate Installation Instructions:\n\n1. Complete the authentication in your browser (if you haven't already)\n2. If the certificate download failed, manually copy it to:\n   "@
        + cert_path
        + "\n\n3. The certificate file should contain your Cloudflare authentication credentials\n4. Make sure the file is readable and not empty\n5. Once installed, the authentication should work automatically\n\nIf you're still having issues:\n- Try logging out and logging back in\n- Check that the .cloudflared directory has proper permissions\n- Ensure the certificate file is not corrupted"@
}

/// The manual installation instructions for the certificate at `cert_path`.
pub fn certificate_instructions(cert_path: &str) -> (res: String)
    ensures
        res@ == instructions_text(cert_path@),
{
    cat3(
        "Certificate Installation Instructions:\n\n1. Complete the authentication in your browser (if you haven't already)\n2. If the certificate download failed, manually copy it to:\n   ",
        cert_path,
        "\n\n3. The certificate file should contain your Cloudflare authentication credentials\n4. Make sure the file is readable and not empty\n5. Once installed, the authentication should work automatically\n\nIf you're still having issues:\n- Try logging out and logging back in\n- Check that the .cloudflared directory has proper permissions\n- Ensure the certificate file is not corrupted",
    )
}

/// The line about the certificate's contents in the status report.
pub open spec fn content_line(read: CertRead) -> Seq<char> {
    match read {
        CertRead::Content(c) => if all_white(c@) {
            "❌ cert.pem file is empty\n"@
        } else if byte_len(c@) > 100 {
            "✅ cert.pem file has content ("@ + decimal(byte_len(c@)) + " chars)\n"@
        } else {
            "⚠️ cert.pem file seems too small\n"@
        },
        CertRead::Unreadable(e) => "❌ Cannot read cert.pem file: "@ + e@ + "\n"@,
    }
}

fn content_line_exec(read: &CertRead) -> (res: String)
    ensures
        res@ == content_line(*read),
{
    match read {
        CertRead::Content(c) => {
            let len: usize = c.as_str().len();
            assert(len == byte_len(c@));
            if !certificate_usable(c.as_str()) {
                owned("❌ cert.pem file is empty\n")
            } else if len > 100 {
                let n = decimal_string(len as u64);
                cat3("✅ cert.pem file has content (", n.as_str(), " chars)\n")
            } else {
                owned("⚠️ cert.pem file seems too small\n")
            }
        },
        CertRead::Unreadable(e) => cat3("❌ Cannot read cert.pem file: ", e.as_str(), "\n"),
    }
}

/// The lines about a missing certificate: whether a recent one waits in the
/// downloads folder (`recent_location` is its path as `Debug` writes it).
pub open spec fn missing_lines(recent_location: Option<Seq<char>>) -> Seq<char> {
    "❌ cert.pem file does not exist\n"@ + match recent_location {
        Some(p) => "✅ Recent cert.pem found in Downloads folder!\n   → Will be moved automatically on next authentication check\n   → Location: "@
            + p + "\n"@,
        None => "❌ No recent cert.pem found in Downloads folder\n   → Complete the Cloudflare authentication in your browser\n   → The certificate will be handled automatically\n"@,
    }
}

fn missing_lines_exec(recent_location: &Option<String>) -> (res: String)
    ensures
        res@ == missing_lines(opt_text(*recent_location)),
{
    match recent_location {
        Some(p) => {
            let t = cat3(
                "✅ Recent cert.pem found in Downloads folder!\n   → Will be moved automatically on next authentication check\n   → Location: ",
                p.as_str(),
                "\n",
            );
            cat2("❌ cert.pem file does not exist\n", t.as_str())
        },
        None => cat2(
            "❌ cert.pem file does not exist\n",
            "❌ No recent cert.pem found in Downloads folder\n   → Complete the Cloudflare authentication in your browser\n   → The certificate will be handled automatically\n",
        ),
    }
}

/// The certificate status report.  When the `.cloudflared` directory is
/// missing the report stops there; otherwise it says what is known of the
/// certificate (read as `read` when it exists), where it is expected, which
/// downloads folder is watched, and that the automatic handling is on.
pub open spec fn status_report(
    dir_exists: bool,
    cert_exists: bool,
    read: CertRead,
    recent_location: Option<Seq<char>>,
    cert_path: Seq<char>,
    downloads_dir: Option<Seq<char>>,
) -> Seq<char> {
    let head = "🔍 Certificate Status Check:\n\n"@;
    if !dir_exists {
        head + "❌ .cloudflared directory does not exist\n"@
            + "   → Will be created automatically when certificate is found\n"@
    } else {
        head + "✅ .cloudflared directory exists\n"@
            + (if cert_exists { "✅ cert.pem file exists\n"@ + content_line(read) } else { missing_lines(recent_location) })
            + "\nExpected path: "@ + cert_path
            + match downloads_dir {
                Some(d) => "\nWatching for cert.pem in: "@ + d,
                None => Seq::empty(),
            }
            + "\n\n🤖 Automatic Certificate Handling is ENABLED"@
            + "\nThe system will automatically move cert.pem from Downloads to .cloudflared when found."@
    }
}

/// The certificate status report.
pub fn certificate_status(
    dir_exists: bool,
    cert_exists: bool,
    read: &CertRead,
    recent_location: &Option<String>,
    cert_path: &str,
    downloads_dir: &Option<String>,
) -> (res: String)
    ensures
        res@ == status_report(dir_exists, cert_exists, *read, opt_text(*recent_location), cert_path@,
            opt_text(*downloads_dir)),
{
    if !dir_exists {
        return cat3(
            "🔍 Certificate Status Check:\n\n",
            "❌ .cloudflared directory does not exist\n",
            "   → Will be created automatically when certificate is found\n",
        );
    }
    let middle = if cert_exists {
        let c = content_line_exec(read);
        cat2("✅ cert.pem file exists\n", c.as_str())
    } else {
        missing_lines_exec(recent_location)
    };
    let mut out = cat3("🔍 Certificate Status Check:\n\n", "✅ .cloudflared directory exists\n", middle.as_str());
    out.append("\nExpected path: ");
    out.append(cert_path);
    match downloads_dir {
        Some(d) => {
            out.append("\nWatching for cert.pem in: ");
            out.append(d.as_str());
        },
        None => {},
    }
    out.append("\n\n🤖 Automatic Certificate Handling is ENABLED");
    out.append("\nThe system will automatically move cert.pem from Downloads to .cloudflared when found.");
    out
}

/// The first part of the certificate handling self-test: the downloads
/// folder (as `Debug` writes it) and a recent certificate in it.
pub open spec fn downloads_part(downloads_dir: Option<Seq<char>>, recent_location: Option<Seq<char>>) -> Seq<char> {
    "Test 1: Downloads folder check\n"@ + match downloads_dir {
        Some(d) => "✅ Downloads directory: "@ + d + "\n"@ + match recent_location {
            Some(p) => "✅ Recent cert.pem found: "@ + p + "\n"@,
            None => "❌ No recent cert.pem found in Downloads\n"@,
        },
        None => "❌ Cannot determine Downloads directory\n"@,
    }
}

/// The second part: the `.cloudflared` directory (as `Debug` writes it),
/// when the home directory is known.
pub open spec fn directory_part(cloudflared_dir: Option<Seq<char>>, dir_exists: bool) -> Seq<char> {
    "\nTest 2: .cloudflared directory permissions\n"@ + match cloudflared_dir {
        Some(d) => "Target directory: "@ + d + "\n"@ + if dir_exists {
            "✅ Directory exists\n"@
        } else {
            "⚠️ Directory doesn't exist (will be created automatically)\n"@
        },
        None => "❌ Cannot determine home directory\n"@,
    }
}

/// The third part: the installed certificate, when the home directory is
/// known (`cert` is `None` when the file does not exist).
pub open spec fn certificate_part(home_known: bool, cert: Option<CertRead>) -> Seq<char> {
    "\nTest 3: Current authentication status\n"@ + if !home_known {
        Seq::empty()
    } else {
        match cert {
            Some(CertRead::Content(c)) => if !all_white(c@) {
                "✅ Valid certificate exists ("@ + decimal(byte_len(c@)) + " chars)\n"@
            } else {
                "❌ Certificate file is empty\n"@
            },
            Some(CertRead::Unreadable(e)) => "❌ Cannot read certificate: "@ + e@ + "\n"@,
            None => "❌ No certificate file exists\n"@,
        }
    }
}

/// The report of the certificate handling self-test.
pub open spec fn handling_report(
    downloads_dir: Option<Seq<char>>,
    recent_location: Option<Seq<char>>,
    cloudflared_dir: Option<Seq<char>>,
    dir_exists: bool,
    cert: Option<CertRead>,
) -> Seq<char> {
    "🧪 Testing Automatic Certificate Handling System:\n\n"@
        + downloads_part(downloads_dir, recent_location)
        + directory_part(cloudflared_dir, dir_exists)
        + certificate_part(cloudflared_dir is Some, cert)
        + "\n✅ Test complete. The automatic certificate handling system is ready."@
}

fn downloads_part_exec(downloads_dir: &Option<String>, recent_location: &Option<String>) -> (res: String)
    ensures
        res@ == downloads_part(opt_text(*downloads_dir), opt_text(*recent_location)),
{
    let body = match downloads_dir {
        Some(d) => {
            let found = match recent_location {
                Some(p) => cat3("✅ Recent cert.pem found: ", p.as_str(), "\n"),
                None => owned("❌ No recent cert.pem found in Downloads\n"),
            };
            let mut t = cat3("✅ Downloads directory: ", d.as_str(), "\n");
            t.append(found.as_str());
            t
        },
        None => owned("❌ Cannot determine Downloads directory\n"),
    };
    cat2("Test 1: Downloads folder check\n", body.as_str())
}

fn directory_part_exec(cloudflared_dir: &Option<String>, dir_exists: bool) -> (res: String)
    ensures
        res@ == directory_part(opt_text(*cloudflared_dir), dir_exists),
{
    let body = match cloudflared_dir {
        Some(d) => {
            let mut t = cat3("Target directory: ", d.as_str(), "\n");
            if dir_exists {
                t.append("✅ Directory exists\n");
            } else {
                t.append("⚠️ Directory doesn't exist (will be created automatically)\n");
            }
            t
        },
        None => owned("❌ Cannot determine home directory\n"),
    };
    cat2("\nTest 2: .cloudflared directory permissions\n", body.as_str())
}

fn certificate_part_exec(home_known: bool, cert: &Option<CertRead>) -> (res: String)
    ensures
        res@ == certificate_part(home_known, *cert),
{
    let body = if !home_known {
        String::new()
    } else {
        match cert {
            Some(CertRead::Content(c)) => if certificate_usable(c.as_str()) {
                let len: usize = c.as_str().len();
                assert(len == byte_len(c@));
                let n = decimal_string(len as u64);
                cat3("✅ Valid certificate exists (", n.as_str(), " chars)\n")
            } else {
                owned("❌ Certificate file is empty\n")
            },
            Some(CertRead::Unreadable(e)) => cat3("❌ Cannot read certificate: ", e.as_str(), "\n"),
            None => owned("❌ No certificate file exists\n"),
        }
    };
    cat2("\nTest 3: Current authentication status\n", body.as_str())
}

/// The report of the certificate handling self-test: the downloads folder and
/// a recent certificate in it, the `.cloudflared` directory (both as `Debug`
/// writes them), and the installed certificate.
pub fn certificate_handling_report(
    downloads_dir: &Option<String>,
    recent_location: &Option<String>,
    cloudflared_dir: &Option<String>,
    dir_exists: bool,
    cert: &Option<CertRead>,
) -> (res: String)
    ensures
        res@ == handling_report(opt_text(*downloads_dir), opt_text(*recent_location),
            opt_text(*cloudflared_dir), dir_exists, *cert),
{
    let a = downloads_part_exec(downloads_dir, recent_location);
    let b = directory_part_exec(cloudflared_dir, dir_exists);
    let c = certificate_part_exec(cloudflared_dir.is_some(), cert);
    let mut out = cat3("🧪 Testing Automatic Certificate Handling System:\n\n", a.as_str(), b.as_str());
    out.append(c.as_str());
    out.append("\n✅ Test complete. The automatic certificate handling system is ready.");
    out
}

} // verus!
