//! The dialogs and notifications shown to the user: what they say and which
//! buttons they offer.

use vstd::prelude::*;
use crate::error::{opt_view, MindLinkError};
use crate::json::Json;
use crate::logging::{format_rfc3339, in_utc_range, now_millis, rfc3339_text};
use crate::text::{cat2, cat3, cat4, opt_text, owned, views};

verus! {

broadcast use vstd::string::group_string_axioms;

/// The kinds of dialog.
pub enum DialogType {
    Error,
    Warning,
    Info,
    Question,
}

/// A dialog to show.
pub struct DialogConfig {
    pub title: String,
    pub message: String,
    pub dialog_type: DialogType,
    pub show_details: bool,
    pub technical_details: Option<String>,
    pub suggested_action: Option<String>,
    pub buttons: Vec<DialogButton>,
}

/// A button of a dialog.
pub struct DialogButton {
    pub id: String,
    pub label: String,
    pub is_default: bool,
    pub is_cancel: bool,
}

impl DialogButton {
    /// A button with exactly these fields.
    pub open spec fn is(self, id: Seq<char>, label: Seq<char>, is_default: bool, is_cancel: bool) -> bool {
        self.id@ == id && self.label@ == label && self.is_default == is_default && self.is_cancel == is_cancel
    }
}

impl Default for DialogButton {
    /// The default button: OK.
    fn default() -> (res: Self)
        ensures
            res.is("ok"@, "OK"@, true, false),
    {
        DialogButton { id: owned("ok"), label: owned("OK"), is_default: true, is_cancel: false }
    }
}

/// What the user chose in a dialog.
pub struct DialogResult {
    pub button_id: String,
    pub cancelled: bool,
}

fn button(id: &str, label: &str, is_default: bool, is_cancel: bool) -> (res: DialogButton)
    ensures
        res.is(id@, label@, is_default, is_cancel),
{
    DialogButton { id: owned(id), label: owned(label), is_default, is_cancel }
}

/// Whether the buttons are the default Retry and the cancelling Cancel.
pub open spec fn retry_cancel(buttons: Seq<DialogButton>) -> bool {
    buttons.len() == 2 && buttons[0].is("retry"@, "Retry"@, true, false)
        && buttons[1].is("cancel"@, "Cancel"@, false, true)
}

/// Whether the buttons are the single default OK.
pub open spec fn ok_only(buttons: Seq<DialogButton>) -> bool {
    buttons.len() == 1 && buttons[0].is("ok"@, "OK"@, true, false)
}

/// The title of an error shown in `context`: `<context> Error`, or
/// `Application Error` without one.
pub open spec fn error_title(context: Option<Seq<char>>) -> Seq<char> {
    match context {
        Some(c) => c + " Error"@,
        None => "Application Error"@,
    }
}

/// The title of an error shown in `context`.
pub fn error_title_text(context: Option<&str>) -> (res: String)
    ensures
        res@ == error_title(match context { Some(c) => Some(c@), None => None }),
{
    match context {
        Some(c) => cat2(c, " Error"),
        None => owned("Application Error"),
    }
}

/// `<message>`, then the suggested action, then the technical details when
/// they are to be shown.
pub open spec fn dialog_text(config: DialogConfig) -> Seq<char> {
    config.message@
        + match config.suggested_action {
            Some(a) => "\n\nSuggested Action: "@ + a@,
            None => Seq::empty(),
        }
        + if config.show_details {
            match config.technical_details {
                Some(d) => "\n\nTechnical Details:\n"@ + d@,
                None => Seq::empty(),
            }
        } else {
            Seq::empty()
        }
}

/// Builds the dialogs of the application.
pub struct DialogManager;

impl DialogManager {
    /// The dialog for an application error shown in `context`: its message
    /// for the user, its technical description and suggested action, with
    /// Retry and Cancel when the user can retry, else OK.
    pub fn error_dialog(error: &MindLinkError, context: Option<&str>) -> (res: DialogConfig)
        ensures
            res.title@ == error_title(match context { Some(c) => Some(c@), None => None }),
            res.message@ == error.user_text(),
            res.dialog_type is Error,
            res.show_details,
            exists|causes: Seq<String>| #[trigger] error.causes_of(causes)
                && opt_view(res.technical_details) == Some(error.technical_text(views(causes))),
            opt_view(res.suggested_action) == Some(error.advice()),
            error.recoverable() ==> retry_cancel(res.buttons@),
            !error.recoverable() ==> ok_only(res.buttons@),
    {
        let mut buttons: Vec<DialogButton> = Vec::new();
        if error.is_recoverable() {
            buttons.push(button("retry", "Retry", true, false));
            buttons.push(button("cancel", "Cancel", false, true));
        } else {
            buttons.push(DialogButton::default());
        }
        DialogConfig {
            title: error_title_text(context),
            message: error.user_message(),
            dialog_type: DialogType::Error,
            show_details: true,
            technical_details: Some(error.technical_details()),
            suggested_action: error.suggested_action(),
            buttons,
        }
    }

    /// A warning, with details shown when there are some, and OK.
    pub fn warning_dialog(title: &str, message: &str, details: Option<&str>) -> (res: DialogConfig)
        ensures
            res.title@ == title@,
            res.message@ == message@,
            res.dialog_type is Warning,
            res.show_details == (details is Some),
            opt_view(res.technical_details) == match details { Some(d) => Some(d@), None => None },
            res.suggested_action is None,
            ok_only(res.buttons@),
    {
        let mut buttons: Vec<DialogButton> = Vec::new();
        buttons.push(DialogButton::default());
        let technical_details = match details {
            Some(d) => Some(owned(d)),
            None => None,
        };
        DialogConfig {
            title: owned(title),
            message: owned(message),
            dialog_type: DialogType::Warning,
            show_details: details.is_some(),
            technical_details,
            suggested_action: None,
            buttons,
        }
    }

    /// An information, with OK.
    pub fn info_dialog(title: &str, message: &str) -> (res: DialogConfig)
        ensures
            res.title@ == title@,
            res.message@ == message@,
            res.dialog_type is Info,
            !res.show_details,
            res.technical_details is None,
            res.suggested_action is None,
            ok_only(res.buttons@),
    {
        let mut buttons: Vec<DialogButton> = Vec::new();
        buttons.push(DialogButton::default());
        DialogConfig {
            title: owned(title),
            message: owned(message),
            dialog_type: DialogType::Info,
            show_details: false,
            technical_details: None,
            suggested_action: None,
            buttons,
        }
    }

    /// A question with the given buttons.
    pub fn question_dialog(title: &str, message: &str, buttons: Vec<DialogButton>) -> (res: DialogConfig)
        ensures
            res.title@ == title@,
            res.message@ == message@,
            res.dialog_type is Question,
            !res.show_details,
            res.technical_details is None,
            res.suggested_action is None,
            res.buttons@ == buttons@,
    {
        DialogConfig {
            title: owned(title),
            message: owned(message),
            dialog_type: DialogType::Question,
            show_details: false,
            technical_details: None,
            suggested_action: None,
            buttons,
        }
    }

    /// The text shown for a dialog: its message, the suggested action, and
    /// the technical details when they are to be shown.
    pub fn format_dialog_message(config: &DialogConfig) -> (res: String)
        ensures
            res@ == dialog_text(*config),
    {
        let mut message = config.message.clone();
        match &config.suggested_action {
            Some(a) => {
                message.append("\n\nSuggested Action: ");
                message.append(a.as_str());
            },
            None => {},
        }
        if config.show_details {
            match &config.technical_details {
                Some(d) => {
                    message.append("\n\nTechnical Details:\n");
                    message.append(d.as_str());
                },
                None => {},
            }
        }
        message
    }

    /// The answer reported for a dialog once it was shown (its buttons are
    /// not waited for): OK, not cancelled.
    pub fn shown() -> (res: DialogResult)
        ensures
            res.button_id@ == "ok"@,
            !res.cancelled,
    {
        DialogResult { button_id: owned("ok"), cancelled: false }
    }

    /// The dialog for a network failure, reaching `url` if known.
    pub fn network_error_dialog(url: Option<&str>, error: &str) -> (res: DialogConfig)
        ensures
            res.title@ == "Network Connection Error"@,
            res.message@ == match url {
                Some(u) => "Failed to connect to "@ + u@ + ":\n"@ + error@,
                None => "Network connection failed:\n"@ + error@,
            },
            res.dialog_type is Error,
            res.show_details,
            opt_view(res.technical_details) == Some(
                "This error usually indicates:\n• Internet connection is down\n• Firewall is blocking the connection\n• The remote service is temporarily unavailable\n• Proxy settings need to be configured"@),
            opt_view(res.suggested_action) == Some(
                "Check your internet connection and try again. If the problem persists, check your firewall settings."@),
            retry_cancel(res.buttons@),
    {
        let message = match url {
            Some(u) => cat4("Failed to connect to ", u, ":\n", error),
            None => cat2("Network connection failed:\n", error),
        };
        let mut buttons: Vec<DialogButton> = Vec::new();
        buttons.push(button("retry", "Retry", true, false));
        buttons.push(button("cancel", "Cancel", false, true));
        DialogConfig {
            title: owned("Network Connection Error"),
            message,
            dialog_type: DialogType::Error,
            show_details: true,
            technical_details: Some(owned(
                "This error usually indicates:\n• Internet connection is down\n• Firewall is blocking the connection\n• The remote service is temporarily unavailable\n• Proxy settings need to be configured",
            )),
            suggested_action: Some(owned(
                "Check your internet connection and try again. If the problem persists, check your firewall settings.",
            )),
            buttons,
        }
    }

    /// The dialog for a helper binary that failed to run, installed at
    /// `binary_path` if it is installed.
    pub fn binary_error_dialog(binary_name: &str, binary_path: Option<&str>, error: &str) -> (res: DialogConfig)
        ensures
            res.title@ == binary_name@ + " Error"@,
            res.message@ == "Failed to run "@ + binary_name@ + ":\n"@ + error@,
            res.dialog_type is Error,
            res.show_details,
            opt_view(res.technical_details) == Some(match binary_path {
                Some(p) => "Binary location: "@ + p@
                    + "\n\nThis error usually indicates:\n• The binary file is missing or corrupted\n• Insufficient permissions to execute the file\n• Missing system dependencies\n• Incompatible binary version"@,
                None => "Binary location: Not found\n\nThis error usually indicates:\n• The binary has not been installed\n• The binary is not in the expected location\n• The installation process was interrupted"@,
            }),
            opt_view(res.suggested_action) == Some(if binary_path is Some {
                "Try reinstalling the binary or check file permissions."@
            } else {
                "Please install the required binary through the application settings."@
            }),
            res.buttons@.len() == 2,
            res.buttons@[0].is("install"@, "Install/Reinstall"@, true, false),
            res.buttons@[1].is("cancel"@, "Cancel"@, false, true),
    {
        let details = match binary_path {
            Some(p) => cat3(
                "Binary location: ",
                p,
                "\n\nThis error usually indicates:\n• The binary file is missing or corrupted\n• Insufficient permissions to execute the file\n• Missing system dependencies\n• Incompatible binary version",
            ),
            None => owned(
                "Binary location: Not found\n\nThis error usually indicates:\n• The binary has not been installed\n• The binary is not in the expected location\n• The installation process was interrupted",
            ),
        };
        let action = if binary_path.is_some() {
            owned("Try reinstalling the binary or check file permissions.")
        } else {
            owned("Please install the required binary through the application settings.")
        };
        let mut buttons: Vec<DialogButton> = Vec::new();
        buttons.push(button("install", "Install/Reinstall", true, false));
        buttons.push(button("cancel", "Cancel", false, true));
        DialogConfig {
            title: cat2(binary_name, " Error"),
            message: cat4("Failed to run ", binary_name, ":\n", error),
            dialog_type: DialogType::Error,
            show_details: true,
            technical_details: Some(details),
            suggested_action: Some(action),
            buttons,
        }
    }

    /// The notification sent to the frontend: its title, message, kind and
    /// time (RFC 3339 text).
    pub fn notification_payload(title: &str, message: &str, kind: &str, timestamp: &str) -> (res: Json)
        ensures
            res matches Json::Object(e) && e@.len() == 4
                && e@[0].0@ == "title"@ && e@[0].1.text() == Some(title@)
                && e@[1].0@ == "message"@ && e@[1].1.text() == Some(message@)
                && e@[2].0@ == "type"@ && e@[2].1.text() == Some(kind@)
                && e@[3].0@ == "timestamp"@ && e@[3].1.text() == Some(timestamp@),
    {
        let mut v: Vec<(String, Json)> = Vec::new();
        v.push((owned("title"), Json::text_value(title)));
        v.push((owned("message"), Json::text_value(message)));
        v.push((owned("type"), Json::text_value(kind)));
        v.push((owned("timestamp"), Json::text_value(timestamp)));
        Json::Object(v)
    }

    /// The notification sent to the frontend now: its title, message and
    /// kind, stamped with the current time in RFC 3339.  `None` when the
    /// clock cannot be read.
    pub fn notification_now(title: &str, message: &str, kind: &str) -> (res: Option<Json>)
        ensures
            res matches Some(j) ==> exists|ms: int| 0 <= ms && in_utc_range(ms) && (j matches Json::Object(e)
                && e@.len() == 4
                && e@[0].0@ == "title"@ && e@[0].1.text() == Some(title@)
                && e@[1].0@ == "message"@ && e@[1].1.text() == Some(message@)
                && e@[2].0@ == "type"@ && e@[2].1.text() == Some(kind@)
                && e@[3].0@ == "timestamp"@ && e@[3].1.text() == Some(rfc3339_text(ms))),
    {
        let now = match now_millis() {
            Some(t) => t,
            None => return None,
        };
        let stamp = match format_rfc3339(now) {
            Some(t) => t,
            None => String::new(),
        };
        let res = Self::notification_payload(title, message, kind, stamp.as_str());
        assert(in_utc_range(now as int) && stamp@ == rfc3339_text(now as int));
        Some(res)
    }

    /// The notification of an application error shown in `context`: its
    /// title and the error's message for the user.
    pub fn error_notification(error: &MindLinkError, context: Option<&str>) -> (res: (String, String))
        ensures
            res.0@ == error_title(match context { Some(c) => Some(c@), None => None }),
            res.1@ == error.user_text(),
    {
        (error_title_text(context), error.user_message())
    }
}

} // verus!
