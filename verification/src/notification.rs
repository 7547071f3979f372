//! Growl/GNTP notifications: how the client is set up, where its icon is
//! looked for, and what registering and sending report. The network work
//! itself is done by the caller with the `gntp` client.

use vstd::prelude::*;
use crate::config::{paths_view, strings_view};
use crate::display::{lines_view, styled, StyledLine, StyledLineView, TermColor};
use crate::ini::opt_view;
use crate::text::{decimal, render_u64};

verus! {

/// The name (and display name) of the one notification type that is
/// registered with the Growl server and used for every notification.
pub open spec fn alert_type_name() -> Seq<char> {
    "Memory Alert"@
}

/// The notification types registered with the Growl server.
pub open spec fn registered_type_names() -> Seq<Seq<char>> {
    seq![alert_type_name()]
}

/// The notification type's name.
pub fn alert_type() -> (name: String)
    ensures
        name@ == alert_type_name(),
{
    String::from_str("Memory Alert")
}

/// Every notification is sent under a type that was registered.
pub proof fn law_sent_type_is_registered()
    ensures
        registered_type_names().contains(alert_type_name()),
{
    assert(registered_type_names()[0] == alert_type_name());
}

/// Whether the client is given the password: only a non-empty one is sent.
pub fn uses_password(password: &str) -> (b: bool)
    ensures
        b == (password@.len() > 0),
{
    !password.is_empty()
}

/// Where the icon is looked for, in order: the path as given, then under
/// the executable's directory, then under the working directory (each where
/// it is known).
pub open spec fn icon_search(icon_path: Seq<char>, exe_dir: Option<Seq<char>>, cwd: Option<Seq<char>>) -> Seq<
    Seq<Seq<char>>,
> {
    let e: Seq<Seq<Seq<char>>> = match exe_dir {
        Some(d) => seq![seq![d, icon_path]],
        None => Seq::empty(),
    };
    let c: Seq<Seq<Seq<char>>> = match cwd {
        Some(d) => seq![seq![d, icon_path]],
        None => Seq::empty(),
    };
    seq![seq![icon_path]] + e + c
}

/// Where the icon is looked for (see `icon_search`).
pub fn icon_search_paths(icon_path: &str, exe_dir: &Option<String>, cwd: &Option<String>) -> (paths: Vec<
    Vec<String>,
>)
    ensures
        paths_view(paths@) == icon_search(icon_path@, opt_view(*exe_dir), opt_view(*cwd)),
{
    let mut paths: Vec<Vec<String>> = Vec::new();
    let mut own: Vec<String> = Vec::new();
    own.push(String::from_str(icon_path));
    assert(strings_view(own@) =~= seq![icon_path@]);
    paths.push(own);
    match exe_dir {
        Some(d) => {
            let mut p: Vec<String> = Vec::new();
            p.push(d.clone());
            p.push(String::from_str(icon_path));
            assert(strings_view(p@) =~= seq![d@, icon_path@]);
            paths.push(p);
        },
        None => {},
    }
    match cwd {
        Some(d) => {
            let mut p: Vec<String> = Vec::new();
            p.push(d.clone());
            p.push(String::from_str(icon_path));
            assert(strings_view(p@) =~= seq![d@, icon_path@]);
            paths.push(p);
        },
        None => {},
    }
    assert(paths_view(paths@) =~~= icon_search(icon_path@, opt_view(*exe_dir), opt_view(*cwd)));
    paths
}

/// The line printed when the notifier is set up.
pub fn checking_line() -> (line: StyledLine)
    ensures
        line@ == styled("\n📬 Checking notification libraries..."@, None, false),
{
    StyledLine::new(String::from_str("\n📬 Checking notification libraries..."), None, false)
}

/// The line printed after the icon was looked for.
pub open spec fn icon_line(found: bool, icon_path: Seq<char>) -> StyledLineView {
    if found {
        styled("  🖼️  Icon loaded: "@ + icon_path, Some(TermColor::Green), false)
    } else {
        styled("  ⚠️  Icon not found: "@ + icon_path, Some(TermColor::Yellow), false)
    }
}

/// The line printed after the icon was looked for.
pub fn icon_report(found: bool, icon_path: &str) -> (line: StyledLine)
    ensures
        line@ == icon_line(found, icon_path@),
{
    if found {
        StyledLine::new(String::from_str("  🖼️  Icon loaded: ").concat(icon_path), Some(TermColor::Green), false)
    } else {
        StyledLine::new(
            String::from_str("  ⚠️  Icon not found: ").concat(icon_path),
            Some(TermColor::Yellow),
            false,
        )
    }
}

/// The hint that names the Growl server.
pub open spec fn server_hint(prefix: Seq<char>, host: Seq<char>, port: u16) -> Seq<char> {
    prefix + "💡 Make sure Growl is running on "@ + host + ":"@ + decimal(port as nat)
}

/// The hint that names the Growl server, after `prefix`.
fn render_server_hint(prefix: &str, host: &str, port: u16) -> (s: String)
    ensures
        s@ == server_hint(prefix@, host@, port),
{
    String::from_str(prefix).concat("💡 Make sure Growl is running on ").concat(host).concat(":").concat(
        render_u64(port as u64).as_str(),
    )
}

/// What registering with the Growl server reports, given the registration
/// error (rendered) where it failed: notifications are enabled exactly when
/// it succeeded.
pub open spec fn registration_lines(error: Option<Seq<char>>, host: Seq<char>, port: u16) -> Seq<
    StyledLineView,
> {
    match error {
        None => seq![styled("  ✅ GNTP found - Growl notifications enabled"@, Some(TermColor::Green), false)],
        Some(e) => seq![
            styled("  ⚠️  GNTP initialization failed: "@ + e, Some(TermColor::Yellow), false),
            styled(server_hint("  "@, host, port), Some(TermColor::Yellow), false),
        ],
    }
}

/// What registering reports: whether notifications are enabled, and the
/// lines to print (see `registration_lines`).
pub fn registration_report(error: &Option<String>, host: &str, port: u16) -> (r: (bool, Vec<StyledLine>))
    ensures
        r.0 == error is None,
        lines_view(r.1@) == registration_lines(opt_view(*error), host@, port),
{
    let mut lines: Vec<StyledLine> = Vec::new();
    match error {
        None => {
            lines.push(StyledLine::new(
                String::from_str("  ✅ GNTP found - Growl notifications enabled"),
                Some(TermColor::Green),
                false,
            ));
        },
        Some(e) => {
            lines.push(StyledLine::new(
                String::from_str("  ⚠️  GNTP initialization failed: ").concat(e.as_str()),
                Some(TermColor::Yellow),
                false,
            ));
            proof { reveal_strlit("  "); }
            lines.push(StyledLine::new(render_server_hint("  ", host, port), Some(TermColor::Yellow), false));
        },
    }
    assert(lines_view(lines@) =~= registration_lines(opt_view(*error), host@, port));
    (error.is_none(), lines)
}

/// The line printed before a notification is sent.
pub fn sending_line() -> (line: StyledLine)
    ensures
        line@ == styled("\n📤 Sending notifications..."@, None, false),
{
    StyledLine::new(String::from_str("\n📤 Sending notifications..."), None, false)
}

/// What sending a notification reports, given the sending error (rendered)
/// where it failed.
pub open spec fn delivery_lines(error: Option<Seq<char>>, host: Seq<char>, port: u16) -> Seq<StyledLineView> {
    match error {
        None => seq![
            styled("📬 ✅ Growl notification sent to "@ + host + ":"@ + decimal(port as nat),
                Some(TermColor::Green), false),
        ],
        Some(e) => seq![
            styled("❌ Growl notification error: "@ + e, Some(TermColor::Red), false),
            styled(server_hint(""@, host, port), Some(TermColor::Yellow), false),
        ],
    }
}

/// What sending reports: whether the notification was delivered, and the
/// lines to print (see `delivery_lines`).
pub fn delivery_report(error: &Option<String>, host: &str, port: u16) -> (r: (bool, Vec<StyledLine>))
    ensures
        r.0 == error is None,
        lines_view(r.1@) == delivery_lines(opt_view(*error), host@, port),
{
    let mut lines: Vec<StyledLine> = Vec::new();
    match error {
        None => {
            lines.push(StyledLine::new(
                String::from_str("📬 ✅ Growl notification sent to ").concat(host).concat(":").concat(
                    render_u64(port as u64).as_str(),
                ),
                Some(TermColor::Green),
                false,
            ));
        },
        Some(e) => {
            lines.push(StyledLine::new(
                String::from_str("❌ Growl notification error: ").concat(e.as_str()),
                Some(TermColor::Red),
                false,
            ));
            lines.push(StyledLine::new(render_server_hint("", host, port), Some(TermColor::Yellow), false));
        },
    }
    assert(lines_view(lines@) =~= delivery_lines(opt_view(*error), host@, port));
    (error.is_none(), lines)
}

} // verus!
