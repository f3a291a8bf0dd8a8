//! License / machine / user status values and their colored "pill" rendering.

use vstd::prelude::*;
use owo_colors::OwoColorize;
use crate::text::{concat, concat3, upper_eq, upper_seq};

verus! {

/// A resource status as keygen.sh reports it.
#[derive(Debug, Clone, Copy, PartialEq, Eq, Structural)]
pub enum Status {
    Active,
    Expiring,
    Expired,
    Suspended,
    Banned,
    Revoked,
    Inactive,
    Unknown,
}

/// The status named by `s`, ignoring ASCII letter case.
pub open spec fn parse_spec(s: Seq<char>) -> Status {
    let u = upper_seq(s);
    if u == "ACTIVE"@ {
        Status::Active
    } else if u == "EXPIRING"@ {
        Status::Expiring
    } else if u == "EXPIRED"@ {
        Status::Expired
    } else if u == "SUSPENDED"@ {
        Status::Suspended
    } else if u == "BANNED"@ {
        Status::Banned
    } else if u == "REVOKED"@ {
        Status::Revoked
    } else if u == "INACTIVE"@ {
        Status::Inactive
    } else {
        Status::Unknown
    }
}

/// The escape sequence that selects foreground color `code`.
pub open spec fn ansi_fg(code: Seq<char>) -> Seq<char> {
    seq!['\u{1b}', '['] + code + seq!['m']
}

/// The escape sequence that restores the default foreground color.
pub open spec fn ansi_fg_reset() -> Seq<char> {
    seq!['\u{1b}', '[', '3', '9', 'm']
}

/// `text` painted with foreground color `code`.
pub open spec fn painted(code: Seq<char>, text: Seq<char>) -> Seq<char> {
    ansi_fg(code) + text + ansi_fg_reset()
}

/// The ANSI foreground color code of a status dot.
pub open spec fn dot_color(s: Status) -> Seq<char> {
    match s {
        Status::Active => seq!['3', '2'],
        Status::Expiring => seq!['3', '3'],
        Status::Expired | Status::Suspended => seq!['9', '3'],
        Status::Banned | Status::Revoked => seq!['3', '1'],
        Status::Inactive | Status::Unknown => seq!['9', '0'],
    }
}

/// The dot every pill starts with.
pub open spec fn dot() -> Seq<char> {
    seq!['\u{25cf}']
}

/// `● LABEL` with the dot painted in the status color.
pub open spec fn pill_spec(s: Status, label: Seq<char>) -> Seq<char> {
    painted(dot_color(s), dot()) + seq![' '] + label
}

/// `owo_colors::OwoColorize::green`, rendered: the text between the escape
/// sequences `ESC[32m` and `ESC[39m`.
#[verifier::external_body]
fn paint_green(text: &str) -> (r: String)
    ensures
        r@ == painted(seq!['3', '2'], text@),
{
    format!("{}", text.green())
}

/// `owo_colors::OwoColorize::yellow`, rendered: the text between `ESC[33m`
/// and `ESC[39m`.
#[verifier::external_body]
fn paint_yellow(text: &str) -> (r: String)
    ensures
        r@ == painted(seq!['3', '3'], text@),
{
    format!("{}", text.yellow())
}

/// `owo_colors::OwoColorize::bright_yellow`, rendered: the text between
/// `ESC[93m` and `ESC[39m`.
#[verifier::external_body]
fn paint_bright_yellow(text: &str) -> (r: String)
    ensures
        r@ == painted(seq!['9', '3'], text@),
{
    format!("{}", text.bright_yellow())
}

/// `owo_colors::OwoColorize::red`, rendered: the text between `ESC[31m` and
/// `ESC[39m`.
#[verifier::external_body]
fn paint_red(text: &str) -> (r: String)
    ensures
        r@ == painted(seq!['3', '1'], text@),
{
    format!("{}", text.red())
}

/// `owo_colors::OwoColorize::bright_black`, rendered: the text between
/// `ESC[90m` and `ESC[39m`.
#[verifier::external_body]
fn paint_bright_black(text: &str) -> (r: String)
    ensures
        r@ == painted(seq!['9', '0'], text@),
{
    format!("{}", text.bright_black())
}

impl Status {
    /// Parse a status, ignoring ASCII letter case; anything unrecognised is
    /// [`Status::Unknown`].
    pub fn parse(s: &str) -> (r: Status)
        ensures
            r == parse_spec(s@),
    {
        if upper_eq(s, "ACTIVE") {
            Status::Active
        } else if upper_eq(s, "EXPIRING") {
            Status::Expiring
        } else if upper_eq(s, "EXPIRED") {
            Status::Expired
        } else if upper_eq(s, "SUSPENDED") {
            Status::Suspended
        } else if upper_eq(s, "BANNED") {
            Status::Banned
        } else if upper_eq(s, "REVOKED") {
            Status::Revoked
        } else if upper_eq(s, "INACTIVE") {
            Status::Inactive
        } else {
            Status::Unknown
        }
    }

    /// Render `● LABEL` with the dot colored by status: green when active,
    /// yellow when expiring, bright yellow when expired or suspended, red when
    /// banned or revoked, grey otherwise.
    pub fn pill(self, label: &str) -> (r: String)
        ensures
            r@ == pill_spec(self, label@),
    {
        let d = "\u{25cf}";
        proof {
            reveal_strlit("\u{25cf}");
            reveal_strlit(" ");
        }
        let painted_dot = match self {
            Status::Active => paint_green(d),
            Status::Expiring => paint_yellow(d),
            Status::Expired | Status::Suspended => paint_bright_yellow(d),
            Status::Banned | Status::Revoked => paint_red(d),
            Status::Inactive | Status::Unknown => paint_bright_black(d),
        };
        concat3(painted_dot.as_str(), " ", label)
    }

    /// The pill, or the plain `● LABEL` when colors are off.
    pub fn pill_colored(self, label: &str, use_color: bool) -> (r: String)
        ensures
            r@ == if use_color {
                pill_spec(self, label@)
            } else {
                dot() + seq![' '] + label@
            },
    {
        if use_color {
            self.pill(label)
        } else {
            proof {
                reveal_strlit("\u{25cf} ");
            }
            concat("\u{25cf} ", label)
        }
    }
}

proof fn lemma_pill_parts(s: Status, label: Seq<char>)
    ensures
        pill_spec(s, label) == ansi_fg(dot_color(s)) + dot() + ansi_fg_reset() + seq![' '] + label,
        dot_color(s).len() == 2,
        pill_spec(s, label)[2] == dot_color(s)[0],
        pill_spec(s, label)[3] == dot_color(s)[1],
{
    assert(pill_spec(s, label) =~= ansi_fg(dot_color(s)) + dot() + ansi_fg_reset() + seq![' '] + label);
}

/// A pill is the dot in the status color followed by a space and the label:
/// the color's escape sequence, `●`, the reset sequence, ` `, then the label,
/// so without the escape sequences it reads `● LABEL`. Expired and
/// suspended, banned and revoked, inactive and unknown share a pill; the
/// five colors give five different pills for the same label.
pub proof fn pill_shows_status_color(label: Seq<char>)
    ensures
        forall|s: Status|
            #[trigger] pill_spec(s, label) == ansi_fg(dot_color(s)) + dot() + ansi_fg_reset() + seq![' ']
                + label,
        pill_spec(Status::Expired, label) == pill_spec(Status::Suspended, label),
        pill_spec(Status::Banned, label) == pill_spec(Status::Revoked, label),
        pill_spec(Status::Inactive, label) == pill_spec(Status::Unknown, label),
        pill_spec(Status::Active, label) != pill_spec(Status::Expiring, label),
        pill_spec(Status::Active, label) != pill_spec(Status::Expired, label),
        pill_spec(Status::Active, label) != pill_spec(Status::Banned, label),
        pill_spec(Status::Active, label) != pill_spec(Status::Inactive, label),
        pill_spec(Status::Expiring, label) != pill_spec(Status::Expired, label),
        pill_spec(Status::Expiring, label) != pill_spec(Status::Banned, label),
        pill_spec(Status::Expiring, label) != pill_spec(Status::Inactive, label),
        pill_spec(Status::Expired, label) != pill_spec(Status::Banned, label),
        pill_spec(Status::Expired, label) != pill_spec(Status::Inactive, label),
        pill_spec(Status::Banned, label) != pill_spec(Status::Inactive, label),
{
    assert forall|s: Status|
        #[trigger] pill_spec(s, label) == ansi_fg(dot_color(s)) + dot() + ansi_fg_reset() + seq![' '] + label by {
        lemma_pill_parts(s, label);
    }
    lemma_pill_parts(Status::Active, label);
    lemma_pill_parts(Status::Expiring, label);
    lemma_pill_parts(Status::Expired, label);
    lemma_pill_parts(Status::Banned, label);
    lemma_pill_parts(Status::Inactive, label);
}

/// The upper-case name keygen.sh reports a status under.
pub open spec fn status_name(s: Status) -> Seq<char> {
    match s {
        Status::Active => "ACTIVE"@,
        Status::Expiring => "EXPIRING"@,
        Status::Expired => "EXPIRED"@,
        Status::Suspended => "SUSPENDED"@,
        Status::Banned => "BANNED"@,
        Status::Revoked => "REVOKED"@,
        Status::Inactive => "INACTIVE"@,
        Status::Unknown => "UNKNOWN"@,
    }
}

/// Parsing reads every status back from its name, in any ASCII letter case:
/// a text whose upper-case form is the name of `s` parses as `s`.
pub proof fn parse_reads_status_names(s: Status, text: Seq<char>)
    requires
        upper_seq(text) == status_name(s),
    ensures
        parse_spec(text) == s,
{
    reveal_strlit("ACTIVE");
    reveal_strlit("EXPIRING");
    reveal_strlit("EXPIRED");
    reveal_strlit("SUSPENDED");
    reveal_strlit("BANNED");
    reveal_strlit("REVOKED");
    reveal_strlit("INACTIVE");
    reveal_strlit("UNKNOWN");
    assert("ACTIVE"@ != "EXPIRING"@) by { assert("ACTIVE"@[0] != "EXPIRING"@[0] || "ACTIVE"@.len() != "EXPIRING"@.len()); }
    assert("ACTIVE"@ != "EXPIRED"@) by { assert("ACTIVE"@[0] != "EXPIRED"@[0] || "ACTIVE"@.len() != "EXPIRED"@.len()); }
    assert("ACTIVE"@ != "SUSPENDED"@) by { assert("ACTIVE"@[0] != "SUSPENDED"@[0] || "ACTIVE"@.len() != "SUSPENDED"@.len()); }
    assert("ACTIVE"@ != "BANNED"@) by { assert("ACTIVE"@[0] != "BANNED"@[0] || "ACTIVE"@.len() != "BANNED"@.len()); }
    assert("ACTIVE"@ != "REVOKED"@) by { assert("ACTIVE"@[0] != "REVOKED"@[0] || "ACTIVE"@.len() != "REVOKED"@.len()); }
    assert("ACTIVE"@ != "INACTIVE"@) by { assert("ACTIVE"@[0] != "INACTIVE"@[0] || "ACTIVE"@.len() != "INACTIVE"@.len()); }
    assert("ACTIVE"@ != "UNKNOWN"@) by { assert("ACTIVE"@[0] != "UNKNOWN"@[0] || "ACTIVE"@.len() != "UNKNOWN"@.len()); }
    assert("EXPIRING"@ != "SUSPENDED"@) by { assert("EXPIRING"@[0] != "SUSPENDED"@[0] || "EXPIRING"@.len() != "SUSPENDED"@.len()); }
    assert("EXPIRING"@ != "REVOKED"@) by { assert("EXPIRING"@[0] != "REVOKED"@[0] || "EXPIRING"@.len() != "REVOKED"@.len()); }
    assert("EXPIRING"@ != "INACTIVE"@) by { assert("EXPIRING"@[0] != "INACTIVE"@[0] || "EXPIRING"@.len() != "INACTIVE"@.len()); }
    assert("EXPIRING"@ != "UNKNOWN"@) by { assert("EXPIRING"@[0] != "UNKNOWN"@[0] || "EXPIRING"@.len() != "UNKNOWN"@.len()); }
    assert("EXPIRED"@ != "EXPIRING"@) by { assert("EXPIRED"@[0] != "EXPIRING"@[0] || "EXPIRED"@.len() != "EXPIRING"@.len()); }
    assert("EXPIRED"@ != "SUSPENDED"@) by { assert("EXPIRED"@[0] != "SUSPENDED"@[0] || "EXPIRED"@.len() != "SUSPENDED"@.len()); }
    assert("EXPIRED"@ != "REVOKED"@) by { assert("EXPIRED"@[0] != "REVOKED"@[0] || "EXPIRED"@.len() != "REVOKED"@.len()); }
    assert("EXPIRED"@ != "INACTIVE"@) by { assert("EXPIRED"@[0] != "INACTIVE"@[0] || "EXPIRED"@.len() != "INACTIVE"@.len()); }
    assert("EXPIRED"@ != "UNKNOWN"@) by { assert("EXPIRED"@[0] != "UNKNOWN"@[0] || "EXPIRED"@.len() != "UNKNOWN"@.len()); }
    assert("SUSPENDED"@ != "UNKNOWN"@) by { assert("SUSPENDED"@[0] != "UNKNOWN"@[0] || "SUSPENDED"@.len() != "UNKNOWN"@.len()); }
    assert("BANNED"@ != "EXPIRING"@) by { assert("BANNED"@[0] != "EXPIRING"@[0] || "BANNED"@.len() != "EXPIRING"@.len()); }
    assert("BANNED"@ != "EXPIRED"@) by { assert("BANNED"@[0] != "EXPIRED"@[0] || "BANNED"@.len() != "EXPIRED"@.len()); }
    assert("BANNED"@ != "SUSPENDED"@) by { assert("BANNED"@[0] != "SUSPENDED"@[0] || "BANNED"@.len() != "SUSPENDED"@.len()); }
    assert("BANNED"@ != "REVOKED"@) by { assert("BANNED"@[0] != "REVOKED"@[0] || "BANNED"@.len() != "REVOKED"@.len()); }
    assert("BANNED"@ != "INACTIVE"@) by { assert("BANNED"@[0] != "INACTIVE"@[0] || "BANNED"@.len() != "INACTIVE"@.len()); }
    assert("BANNED"@ != "UNKNOWN"@) by { assert("BANNED"@[0] != "UNKNOWN"@[0] || "BANNED"@.len() != "UNKNOWN"@.len()); }
    assert("REVOKED"@ != "SUSPENDED"@) by { assert("REVOKED"@[0] != "SUSPENDED"@[0] || "REVOKED"@.len() != "SUSPENDED"@.len()); }
    assert("REVOKED"@ != "UNKNOWN"@) by { assert("REVOKED"@[0] != "UNKNOWN"@[0] || "REVOKED"@.len() != "UNKNOWN"@.len()); }
    assert("INACTIVE"@ != "SUSPENDED"@) by { assert("INACTIVE"@[0] != "SUSPENDED"@[0] || "INACTIVE"@.len() != "SUSPENDED"@.len()); }
    assert("INACTIVE"@ != "REVOKED"@) by { assert("INACTIVE"@[0] != "REVOKED"@[0] || "INACTIVE"@.len() != "REVOKED"@.len()); }
    assert("INACTIVE"@ != "UNKNOWN"@) by { assert("INACTIVE"@[0] != "UNKNOWN"@[0] || "INACTIVE"@.len() != "UNKNOWN"@.len()); }
}

/// Banned and revoked statuses are painted red (`ESC[31m`), active ones
/// green (`ESC[32m`): the pill of a parsed name starts with that color.
pub proof fn pill_colors_of_names(text: Seq<char>, label: Seq<char>)
    ensures
        upper_seq(text) == "BANNED"@ || upper_seq(text) == "REVOKED"@ ==> pill_spec(parse_spec(text), label)
            == seq!['\u{1b}', '[', '3', '1', 'm', '\u{25cf}', '\u{1b}', '[', '3', '9', 'm', ' '] + label,
        upper_seq(text) == "ACTIVE"@ ==> pill_spec(parse_spec(text), label)
            == seq!['\u{1b}', '[', '3', '2', 'm', '\u{25cf}', '\u{1b}', '[', '3', '9', 'm', ' '] + label,
{
    if upper_seq(text) == "BANNED"@ {
        parse_reads_status_names(Status::Banned, text);
        assert(pill_spec(Status::Banned, label) =~= seq!['\u{1b}', '[', '3', '1', 'm', '\u{25cf}', '\u{1b}', '[', '3', '9', 'm', ' '] + label);
    }
    if upper_seq(text) == "REVOKED"@ {
        parse_reads_status_names(Status::Revoked, text);
        assert(pill_spec(Status::Revoked, label) =~= seq!['\u{1b}', '[', '3', '1', 'm', '\u{25cf}', '\u{1b}', '[', '3', '9', 'm', ' '] + label);
    }
    if upper_seq(text) == "ACTIVE"@ {
        parse_reads_status_names(Status::Active, text);
        assert(pill_spec(Status::Active, label) =~= seq!['\u{1b}', '[', '3', '2', 'm', '\u{25cf}', '\u{1b}', '[', '3', '9', 'm', ' '] + label);
    }
}

} // verus!
