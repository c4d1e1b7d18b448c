//! The label that names the invoking terminal in outbound requests.
//!
//! The label is computed from a snapshot of ten environment variables, at
//! most once, and then kept: [`ClientIdentity`] holds it, and
//! [`user_agent`] computes it on first use.

use vstd::prelude::*;
use vstd::string::*;
use crate::text::{blank, contains, has_substring, is_blank, text_of};

verus! {

/// What the process environment says about the terminal: for each variable
/// its value, or `None` where it is not set.
#[derive(Debug, Clone)]
pub struct TerminalEnv {
    /// `TERM_PROGRAM`
    pub term_program: Option<String>,
    /// `TERM_PROGRAM_VERSION`
    pub term_program_version: Option<String>,
    /// `WEZTERM_VERSION`
    pub wezterm_version: Option<String>,
    /// `KITTY_WINDOW_ID`
    pub kitty_window_id: Option<String>,
    /// `TERM`
    pub term: Option<String>,
    /// `ALACRITTY_SOCKET`
    pub alacritty_socket: Option<String>,
    /// `KONSOLE_VERSION`
    pub konsole_version: Option<String>,
    /// `GNOME_TERMINAL_SCREEN`
    pub gnome_terminal_screen: Option<String>,
    /// `VTE_VERSION`
    pub vte_version: Option<String>,
    /// `WT_SESSION`
    pub wt_session: Option<String>,
}

/// `name`, followed by a slash and the version where one is set and not
/// blank.
pub open spec fn versioned(name: Seq<char>, version: Option<Seq<char>>) -> Seq<char> {
    match version {
        Some(v) => if is_blank(v) {
            name
        } else {
            name + "/"@ + v
        },
        None => name,
    }
}

impl TerminalEnv {
    /// The label of the terminal that this environment describes. The first
    /// rule that applies decides.
    pub open spec fn detected(&self) -> Seq<char> {
        if self.term_program is Some && !is_blank(self.term_program->0@) {
            versioned(self.term_program->0@, text_of(self.term_program_version))
        } else if self.wezterm_version is Some {
            versioned("WezTerm"@, text_of(self.wezterm_version))
        } else if self.kitty_window_id is Some || (self.term is Some && has_substring(
            self.term->0@,
            "kitty"@,
        )) {
            "kitty"@
        } else if self.alacritty_socket is Some || (self.term is Some && self.term->0@
            == "alacritty"@) {
            "Alacritty"@
        } else if self.konsole_version is Some {
            versioned("Konsole"@, text_of(self.konsole_version))
        } else if self.gnome_terminal_screen is Some {
            "gnome-terminal"@
        } else if self.vte_version is Some {
            versioned("VTE"@, text_of(self.vte_version))
        } else if self.wt_session is Some {
            "WindowsTerminal"@
        } else {
            match self.term {
                Some(t) => t@,
                None => "unknown"@,
            }
        }
    }

    /// An environment in which none of the variables is set.
    pub fn empty() -> (r: Self)
        ensures
            r.term_program is None,
            r.term_program_version is None,
            r.wezterm_version is None,
            r.kitty_window_id is None,
            r.term is None,
            r.alacritty_socket is None,
            r.konsole_version is None,
            r.gnome_terminal_screen is None,
            r.vte_version is None,
            r.wt_session is None,
    {
        TerminalEnv {
            term_program: None,
            term_program_version: None,
            wezterm_version: None,
            kitty_window_id: None,
            term: None,
            alacritty_socket: None,
            konsole_version: None,
            gnome_terminal_screen: None,
            vte_version: None,
            wt_session: None,
        }
    }
}

/// `name`, followed by a slash and the version where one is set and not
/// blank.
fn with_version(name: &str, version: &Option<String>) -> (r: String)
    ensures
        r@ == versioned(name@, text_of(*version)),
{
    let mut label = name.to_owned();
    match version {
        Some(v) => {
            if !blank(v.as_str()) {
                label.append("/");
                label.append(v.as_str());
            }
        },
        None => {},
    }
    label
}

/// Whether `TERM` is set and holds `needle`.
fn term_contains(term: &Option<String>, needle: &str) -> (r: bool)
    ensures
        r == (term is Some && has_substring(term->0@, needle@)),
{
    match term {
        Some(t) => contains(t.as_str(), needle),
        None => false,
    }
}

/// Whether `TERM` is set to exactly `name`.
fn term_is(term: &Option<String>, name: &str) -> (r: bool)
    ensures
        r == (term is Some && term->0@ == name@),
{
    match term {
        Some(t) => *t == name.to_owned(),
        None => false,
    }
}

/// The label of the terminal that `env` describes.
pub fn detect_terminal(env: &TerminalEnv) -> (r: String)
    ensures
        r@ == env.detected(),
{
    if let Some(tp) = &env.term_program {
        if !blank(tp.as_str()) {
            return with_version(tp.as_str(), &env.term_program_version);
        }
    }
    if env.wezterm_version.is_some() {
        return with_version("WezTerm", &env.wezterm_version);
    }
    if env.kitty_window_id.is_some() || term_contains(&env.term, "kitty") {
        return "kitty".to_owned();
    }
    if env.alacritty_socket.is_some() || term_is(&env.term, "alacritty") {
        return "Alacritty".to_owned();
    }
    if env.konsole_version.is_some() {
        return with_version("Konsole", &env.konsole_version);
    }
    if env.gnome_terminal_screen.is_some() {
        return "gnome-terminal".to_owned();
    }
    if env.vte_version.is_some() {
        return with_version("VTE", &env.vte_version);
    }
    if env.wt_session.is_some() {
        return "WindowsTerminal".to_owned();
    }
    match &env.term {
        Some(t) => t.clone(),
        None => "unknown".to_owned(),
    }
}

/// The terminal's label, once it has been computed. It starts out empty, is
/// filled by the first call of [`user_agent`], and never changes after that.
#[derive(Debug)]
pub struct ClientIdentity {
    label: Option<String>,
}

impl View for ClientIdentity {
    type V = Option<Seq<char>>;

    closed spec fn view(&self) -> Option<Seq<char>> {
        text_of(self.label)
    }
}

impl ClientIdentity {
    /// What a call of [`user_agent`] answers in this state: the label that is
    /// kept, or, where none is kept yet, the one that `env` gives.
    pub open spec fn answer(&self, env: &TerminalEnv) -> Seq<char> {
        match self@ {
            Some(label) => label,
            None => env.detected(),
        }
    }

    /// A state in which no label has been computed yet.
    pub fn new() -> (r: Self)
        ensures
            r@ is None,
    {
        ClientIdentity { label: None }
    }

    /// The label that is kept, if any.
    pub fn get(&self) -> (r: Option<String>)
        ensures
            text_of(r) == self@,
    {
        match &self.label {
            Some(l) => Some(l.clone()),
            None => None,
        }
    }
}

/// The label of the invoking terminal. The first call computes it from `env`
/// and keeps it; every later call answers what was kept and does not look at
/// `env`.
pub fn user_agent(identity: &mut ClientIdentity, env: &TerminalEnv) -> (r: String)
    ensures
        r@ == old(identity).answer(env),
        final(identity)@ == Some(r@),
{
    if let Some(l) = &identity.label {
        return l.clone();
    }
    let label = detect_terminal(env);
    identity.label = Some(label.clone());
    label
}

/// Once a label has been computed, every later call answers that same
/// label: in an unchanged environment, and also where the environment has
/// changed in the meantime.
pub proof fn lemma_identity_is_frozen(
    before: ClientIdentity,
    after: ClientIdentity,
    first: TerminalEnv,
    later: TerminalEnv,
)
    requires
        after@ == Some(before.answer(&first)),
    ensures
        after.answer(&later) == before.answer(&first),
{
}

} // verus!
