//! The watcher's settings and the player filter built from them.

use vstd::prelude::*;
use vstd::string::*;

use crate::text::{contains, str_contains};

verus! {

/// What `str::to_lowercase` returns for a text: its lower-case form by the
/// Unicode case mapping.
pub uninterp spec fn unicode_lowercase(text: Seq<char>) -> Seq<char>;

/// Calls `str::to_lowercase`: the result is the lower-case form of the text
/// by the Unicode case mapping, the same for the same text.
#[verifier::external_body]
fn to_lowercase(text: &str) -> (out: String)
    ensures
        out@ == unicode_lowercase(text@),
{
    text.to_lowercase()
}

/// Each text of `list` in lower case, in the same order.
pub open spec fn lowercased(list: Seq<Seq<char>>) -> Seq<Seq<char>> {
    Seq::new(list.len(), |i: int| unicode_lowercase(list[i]))
}

/// The port used when none is configured.
pub fn default_port() -> (port: u16)
    ensures
        port == 5600,
{
    5600
}

/// The host used when none is configured.
pub fn default_host() -> (host: String)
    ensures
        host@ == "localhost"@,
{
    "localhost".to_owned()
}

/// The poll interval, in seconds, used when none is configured.
pub fn default_poll_time() -> (seconds: u64)
    ensures
        seconds == 5,
{
    5
}

/// The options given on the command line; an absent option leaves the choice
/// to the configuration file.
#[derive(Debug)]
pub struct Cli {
    pub config: Option<String>,
    pub host: Option<String>,
    pub port: Option<u16>,
    pub poll_interval: Option<u64>,
    pub include_players: Vec<String>,
    pub exclude_players: Vec<String>,
}

/// The options read from the configuration file.
#[derive(Debug)]
pub struct Toml {
    pub port: u16,
    pub host: String,
    pub poll_time: u64,
    pub include_players: Vec<String>,
    pub exclude_players: Vec<String>,
}

impl Default for Toml {
    /// The options of an empty configuration file.
    fn default() -> (out: Toml)
        ensures
            out.port == 5600,
            out.host@ == "localhost"@,
            out.poll_time == 5,
            out.include_players@.len() == 0,
            out.exclude_players@.len() == 0,
    {
        Toml {
            port: default_port(),
            host: default_host(),
            poll_time: default_poll_time(),
            include_players: Vec::new(),
            exclude_players: Vec::new(),
        }
    }
}

impl Toml {
    /// The options in force for the file: those read from it, or the
    /// defaults where it could not be read.
    pub fn new(read: Option<Toml>) -> (out: Toml)
        ensures
            match read {
                Some(file) => out == file,
                None => out.port == 5600 && out.host@ == "localhost"@ && out.poll_time == 5
                    && out.include_players@.len() == 0 && out.exclude_players@.len() == 0,
            },
    {
        match read {
            Some(file) => file,
            None => Toml::default(),
        }
    }
}

/// The settings in force. `poll_interval` is in whole seconds; both filter
/// lists are in lower case.
#[derive(Debug)]
pub struct Config {
    pub host: String,
    pub port: u16,
    pub poll_interval: u64,
    pub include_players: Vec<String>,
    pub exclude_players: Vec<String>,
}

/// Appends to `out` the lower-case form of each text of `list`.
fn extend_lowercased(out: &mut Vec<String>, list: &Vec<String>)
    ensures
        final(out).deep_view() == old(out).deep_view() + lowercased(list.deep_view()),
{
    let ghost before = out.deep_view();
    let mut i: usize = 0;
    while i < list.len()
        invariant
            i <= list.len(),
            out@.len() == before.len() + i,
            forall|k: int| 0 <= k < before.len() ==> out@[k]@ == before[k],
            forall|k: int| 0 <= k < i ==> out@[before.len() + k]@ == unicode_lowercase(list@[k]@),
        decreases list.len() - i,
    {
        out.push(to_lowercase(list[i].as_str()));
        i += 1;
    }
    proof {
        assert(out.deep_view() =~= before + lowercased(list.deep_view()));
    }
}

impl Config {
    /// Merges the command line with the configuration file. A value given on
    /// the command line wins; the filters of both are kept, those of the
    /// command line first, all in lower case.
    pub fn new(cli: Cli, file: Toml) -> (config: Config)
        ensures
            config.host@ == (match cli.host {
                Some(host) => host@,
                None => file.host@,
            }),
            config.port == (match cli.port {
                Some(port) => port,
                None => file.port,
            }),
            config.poll_interval == (match cli.poll_interval {
                Some(seconds) => seconds,
                None => file.poll_time,
            }),
            config.include_players.deep_view() == lowercased(cli.include_players.deep_view())
                + lowercased(file.include_players.deep_view()),
            config.exclude_players.deep_view() == lowercased(cli.exclude_players.deep_view())
                + lowercased(file.exclude_players.deep_view()),
    {
        let mut include_players: Vec<String> = Vec::new();
        extend_lowercased(&mut include_players, &cli.include_players);
        extend_lowercased(&mut include_players, &file.include_players);
        let mut exclude_players: Vec<String> = Vec::new();
        extend_lowercased(&mut exclude_players, &cli.exclude_players);
        extend_lowercased(&mut exclude_players, &file.exclude_players);
        proof {
            assert(Seq::<Seq<char>>::empty() + lowercased(cli.include_players.deep_view())
                =~= lowercased(cli.include_players.deep_view()));
            assert(Seq::<Seq<char>>::empty() + lowercased(cli.exclude_players.deep_view())
                =~= lowercased(cli.exclude_players.deep_view()));
        }
        Config {
            host: match cli.host {
                Some(host) => host,
                None => file.host,
            },
            port: match cli.port {
                Some(port) => port,
                None => file.port,
            },
            poll_interval: match cli.poll_interval {
                Some(seconds) => seconds,
                None => file.poll_time,
            },
            include_players,
            exclude_players,
        }
    }

    /// Whether some filter of `filters` occurs in `name`.
    pub open spec fn any_filter_occurs(filters: Seq<Seq<char>>, name: Seq<char>) -> bool {
        exists|i: int| 0 <= i < filters.len() && contains(name, #[trigger] filters[i])
    }

    /// Whether a player of this name, given in lower case, is reported.
    /// With include filters, only a player whose name holds one of them is;
    /// the exclude filters are then not consulted. Without include filters,
    /// every player is but those whose name holds an exclude filter.
    pub open spec fn reports_name(&self, name: Seq<char>) -> bool {
        if self.include_players@.len() > 0 {
            Self::any_filter_occurs(self.include_players.deep_view(), name)
        } else {
            !Self::any_filter_occurs(self.exclude_players.deep_view(), name)
        }
    }

    /// Whether a player of this name is reported: whether its name in lower
    /// case is.
    pub open spec fn reports(&self, player: Seq<char>) -> bool {
        self.reports_name(unicode_lowercase(player))
    }

    /// Tells whether the media of the player whose name in lower case is
    /// `name` is to be reported.
    pub fn report_lowercase_player(&self, name: &str) -> (reported: bool)
        ensures
            reported == self.reports_name(name@),
    {
        if self.include_players.len() > 0 {
            any_filter_in(&self.include_players, name)
        } else {
            !any_filter_in(&self.exclude_players, name)
        }
    }

    /// Tells whether the media of `player` is to be reported.
    pub fn report_player(&self, player: &str) -> (reported: bool)
        ensures
            reported == self.reports(player@),
    {
        let name = to_lowercase(player);
        self.report_lowercase_player(name.as_str())
    }
}

/// Tells whether some text of `filters` occurs in `name`.
pub fn any_filter_in(filters: &Vec<String>, name: &str) -> (found: bool)
    ensures
        found == Config::any_filter_occurs(filters.deep_view(), name@),
{
    let mut i: usize = 0;
    while i < filters.len()
        invariant
            i <= filters.len(),
            forall|k: int| 0 <= k < i ==> !contains(name@, filters@[k]@),
        decreases filters.len() - i,
    {
        if str_contains(name, filters[i].as_str()) {
            proof {
                assert(filters.deep_view()[i as int] == filters@[i as int]@);
            }
            return true;
        }
        i += 1;
    }
    proof {
        assert forall|k: int| 0 <= k < filters.deep_view().len() implies !contains(
            name@,
            #[trigger] filters.deep_view()[k],
        ) by {
            assert(filters.deep_view()[k] == filters@[k]@);
        }
    }
    false
}

/// With filters to take players in, the filters to leave players out do
/// not matter: two settings with the same filters of the first kind report
/// the same players.
pub proof fn lemma_include_overrides_exclude(a: Config, b: Config, player: Seq<char>)
    requires
        a.include_players.deep_view() == b.include_players.deep_view(),
        a.include_players@.len() > 0,
    ensures
        a.reports(player) == b.reports(player),
{
    assert(a.include_players.deep_view().len() == b.include_players.deep_view().len());
}

/// Without any filter every player is reported.
pub proof fn lemma_no_filter_reports_all(config: Config, player: Seq<char>)
    requires
        config.include_players@.len() == 0,
        config.exclude_players@.len() == 0,
    ensures
        config.reports(player),
{
}

} // verus!
