//! Recognising a running game from what a process exposes: its
//! environment, its command line and its start time.

pub mod cache;
pub mod scanner;

use vstd::prelude::*;
use crate::constants;
use crate::text;

verus! {

/// What the scanner reads of one process in a snapshot: plain values,
/// handed over by whoever took the snapshot.
pub struct ProcessRecord {
    /// Process name, as the OS reports it.
    pub name: String,
    /// Environment entries, each of the shape `KEY=value`.
    pub environ: Vec<String>,
    /// Command-line arguments.
    pub cmd: Vec<String>,
    /// Start timestamp in seconds.
    pub start_time: i64,
}

/// A process offering several plausible game-executable paths cannot be
/// attributed safely; it is reported rather than guessed at.
#[derive(Debug, Clone, Copy, PartialEq, Eq)]
pub enum ScanError {
    AmbiguousPath,
}

/// An environment entry carrying the app id.
pub open spec fn is_appid_entry(e: Seq<char>) -> bool {
    text::starts_with_spec(e, constants::appid_env_key_spec())
}

/// The first environment entry carrying the app id, if any.
pub open spec fn first_appid_entry(env: Seq<Seq<char>>) -> Option<Seq<char>>
    decreases env.len(),
{
    if env.len() == 0 {
        None
    } else if is_appid_entry(env.first()) {
        Some(env.first())
    } else {
        first_appid_entry(env.drop_first())
    }
}

/// The id encoded in one entry: the digits after the last `'='`, or the
/// sentinel when they are missing, malformed or out of range.
pub open spec fn appid_of_entry(e: Seq<char>) -> u32 {
    match text::parsed_digits(text::after_last_eq_spec(e)) {
        Some(v) => if v <= u32::MAX {
            v as u32
        } else {
            constants::NO_APPID
        },
        None => constants::NO_APPID,
    }
}

/// The app id an environment announces: read from its first app-id
/// entry, the sentinel when there is none.
pub open spec fn appid_of(env: Seq<Seq<char>>) -> u32 {
    match first_appid_entry(env) {
        Some(e) => appid_of_entry(e),
        None => constants::NO_APPID,
    }
}

/// A command-line argument that plausibly names the game executable:
/// it contains the game-directory fragment and ends in the executable
/// suffix.
pub open spec fn is_path_candidate(c: Seq<char>) -> bool {
    text::contains_spec(c, constants::game_path_fragment_spec())
        && text::ends_with_spec(c, constants::exe_suffix_spec())
}

/// The plausible executable paths among a command line's arguments, in
/// order.
pub open spec fn path_candidates(cmd: Seq<Seq<char>>) -> Seq<Seq<char>> {
    cmd.filter(|c: Seq<char>| is_path_candidate(c))
}

/// Capabilities of a process running a game under the compatibility
/// layer.
pub trait SteamProcess {
    /// The environment entries, as sequences of characters.
    spec fn environ_view(&self) -> Seq<Seq<char>>;

    /// The command-line arguments, as sequences of characters.
    spec fn cmd_view(&self) -> Seq<Seq<char>>;

    /// Returns the game's app id, read from the app-id environment
    /// entry; a process without one (or with an unreadable value)
    /// yields the sentinel id, never a failure.
    fn steam_appid(&self) -> (id: u32)
        ensures
            id == appid_of(self.environ_view()),
    ;

    /// Returns the path of the game executable: `None` when no argument
    /// qualifies, the path when exactly one does, and an error when
    /// several do — an ambiguous process is never guessed at.
    fn steam_path(&self) -> (r: Result<Option<String>, ScanError>)
        ensures
            path_candidates(self.cmd_view()).len() == 0 ==> r == Ok::<Option<String>, ScanError>(None),
            path_candidates(self.cmd_view()).len() == 1 ==> (r matches Ok(p)
                && p matches Some(q) && q@ == path_candidates(self.cmd_view())[0]),
            path_candidates(self.cmd_view()).len() > 1 ==> r == Err::<Option<String>, ScanError>(ScanError::AmbiguousPath),
    ;
}

/// Skipping entries that do not carry the app id does not change which
/// entry is found first.
proof fn lemma_first_appid_skip(env: Seq<Seq<char>>, i: int)
    requires
        0 <= i <= env.len(),
        forall|j: int| 0 <= j < i ==> !is_appid_entry(#[trigger] env[j]),
    ensures
        first_appid_entry(env) == first_appid_entry(env.skip(i)),
    decreases i,
{
    if i > 0 {
        assert(!is_appid_entry(env.first()));
        let rest = env.drop_first();
        assert(forall|j: int| 0 <= j < i - 1 ==> !is_appid_entry(#[trigger] rest[j]));
        lemma_first_appid_skip(rest, i - 1);
        assert(rest.skip(i - 1) =~= env.skip(i));
    } else {
        assert(env.skip(0) =~= env);
    }
}

impl SteamProcess for ProcessRecord {
    open spec fn environ_view(&self) -> Seq<Seq<char>> {
        self.environ@.map_values(|e: String| e@)
    }

    open spec fn cmd_view(&self) -> Seq<Seq<char>> {
        self.cmd@.map_values(|e: String| e@)
    }

    fn steam_appid(&self) -> (id: u32) {
        let ghost env = self.environ_view();
        let n = self.environ.len();
        let mut i: usize = 0;
        while i < n
            invariant
                n == self.environ@.len(),
                env == self.environ_view(),
                0 <= i <= n,
                forall|j: int| 0 <= j < i ==> !is_appid_entry(#[trigger] env[j]),
            decreases n - i,
        {
            let entry = &self.environ[i];
            if text::str_starts_with(entry.as_str(), constants::appid_env_key()) {
                proof {
                    lemma_first_appid_skip(env, i as int);
                    assert(env.skip(i as int).first() == env[i as int]);
                    assert(is_appid_entry(env[i as int]));
                    assert(first_appid_entry(env) == Some(env[i as int]));
                }
                let digits = text::after_last_eq(entry.as_str());
                return match text::parse_u32_digits(digits) {
                    Some(v) => v,
                    None => constants::NO_APPID,
                };
            }
            i = i + 1;
        }
        proof {
            lemma_first_appid_skip(env, n as int);
            assert(env.skip(n as int) =~= Seq::empty());
        }
        constants::NO_APPID
    }

    fn steam_path(&self) -> (r: Result<Option<String>, ScanError>) {
        let ghost cmdv = self.cmd_view();
        let ghost pred = |c: Seq<char>| is_path_candidate(c);
        let n = self.cmd.len();
        let mut first: Option<String> = None;
        let mut count: usize = 0;
        let mut i: usize = 0;
        proof {
            assert(cmdv.subrange(0, 0) =~= Seq::empty());
            reveal(Seq::filter);
        }
        while i < n
            invariant
                n == self.cmd@.len(),
                cmdv == self.cmd_view(),
                pred == (|c: Seq<char>| is_path_candidate(c)),
                0 <= i <= n,
                count <= i,
                count == cmdv.subrange(0, i as int).filter(pred).len(),
                count == 0 <==> first is None,
                count >= 1 ==> (first matches Some(p)
                    && p@ == cmdv.subrange(0, i as int).filter(pred)[0]),
            decreases n - i,
        {
            let arg = &self.cmd[i];
            let is_cand = text::str_contains(arg.as_str(), constants::game_path_fragment())
                && text::str_ends_with(arg.as_str(), constants::exe_suffix());
            proof {
                let pre = cmdv.subrange(0, i as int);
                let post = cmdv.subrange(0, i + 1);
                assert(post.drop_last() =~= pre);
                assert(post.last() == cmdv[i as int]);
                reveal(Seq::filter);
                assert(post.filter(pred) == if pred(cmdv[i as int]) {
                    pre.filter(pred).push(cmdv[i as int])
                } else {
                    pre.filter(pred)
                });
                assert(is_cand == pred(cmdv[i as int]));
            }
            if is_cand {
                if count == 0 {
                    first = Some(arg.clone());
                    proof {
                        assert(cmdv.subrange(0, i + 1).filter(pred)[0] == cmdv[i as int]);
                    }
                }
                count = count + 1;
            }
            i = i + 1;
        }
        proof {
            assert(cmdv.subrange(0, n as int) =~= cmdv);
        }
        if count == 0 {
            Ok(None)
        } else if count == 1 {
            Ok(first)
        } else {
            Err(ScanError::AmbiguousPath)
        }
    }
}

/// One recognised running game, as shown to the presence backend.
#[derive(Debug, Clone, PartialEq, Eq)]
pub struct SteamApp {
    /// Stable numeric identifier of the game.
    pub app_id: u32,
    /// Resolved path of the game's native executable (diagnostic only).
    pub path: String,
    /// Process start timestamp in seconds.
    pub running_since: i64,
}

/// Mathematical view of a reported game.
pub ghost struct SteamAppView {
    pub app_id: u32,
    pub path: Seq<char>,
    pub running_since: i64,
}

impl View for SteamApp {
    type V = SteamAppView;

    open spec fn view(&self) -> SteamAppView {
        SteamAppView {
            app_id: self.app_id,
            path: self.path@,
            running_since: self.running_since,
        }
    }
}

/// The public store page URL for an app id.
pub open spec fn store_url_spec(id: u32) -> Seq<char> {
    constants::store_url_prefix_spec() + text::dec_rep(id as int) + "/"@
}

/// The poster image URL for an app id.
pub open spec fn poster_url_spec(id: u32) -> Seq<char> {
    constants::poster_url_prefix_spec() + text::dec_rep(id as int)
        + constants::poster_url_suffix_spec()
}

impl SteamApp {
    /// Gets the url to the poster image of the game.
    pub fn get_large_poster_url(&self) -> (r: String)
        ensures
            r@ == poster_url_spec(self.app_id),
    {
        let mut s = String::from_str(constants::poster_url_prefix());
        let digits = text::fmt_u32(self.app_id);
        s.append(digits.as_str());
        s.append(constants::poster_url_suffix());
        s
    }

    /// Gets the steam url to the game's store page.
    pub fn get_steam_url(&self) -> (r: String)
        ensures
            r@ == store_url_spec(self.app_id),
    {
        let mut s = String::from_str(constants::store_url_prefix());
        let digits = text::fmt_u32(self.app_id);
        s.append(digits.as_str());
        s.append("/");
        s
    }
}

} // verus!
