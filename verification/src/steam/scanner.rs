//! The process scanner: a pure function of a process snapshot.
//!
//! The snapshot itself is taken by the surrounding application (the OS
//! process-enumeration primitive is a capability, not logic); scanning
//! it — filtering by launcher name, reading the app id, choosing the
//! executable path — is verified here.

use vstd::prelude::*;
use crate::constants;
use crate::steam::{ProcessRecord, ScanError, SteamApp, SteamAppView, SteamProcess};
use crate::steam::{appid_of, first_appid_entry, path_candidates};
use crate::text;

verus! {

/// A process whose name equals the launcher's, ignoring ASCII case.
pub open spec fn launcher_matches(p: ProcessRecord) -> bool {
    text::eq_ignore_case_spec(p.name@, constants::launcher_name_spec())
}

/// The game a single process stands for, when it stands for one:
/// exactly one command-line argument must qualify as the executable
/// path.  Zero candidates mean "not a game", several mean "ambiguous";
/// both yield `None` and the process is skipped.
pub open spec fn app_of(p: ProcessRecord) -> Option<SteamAppView> {
    let cands = path_candidates(p.cmd_view());
    if cands.len() == 1 {
        Some(SteamAppView {
            app_id: appid_of(p.environ_view()),
            path: cands[0],
            running_since: p.start_time,
        })
    } else {
        None
    }
}

/// The games a snapshot yields, in the snapshot's order: one entry per
/// launcher-named process that determines exactly one executable path.
pub open spec fn scan_spec(procs: Seq<ProcessRecord>) -> Seq<SteamAppView>
    decreases procs.len(),
{
    if procs.len() == 0 {
        Seq::empty()
    } else {
        let rest = scan_spec(procs.drop_last());
        let p = procs.last();
        if launcher_matches(p) {
            match app_of(p) {
                Some(a) => rest.push(a),
                None => rest,
            }
        } else {
            rest
        }
    }
}

/// Gets all running games found in the snapshot.
pub fn get_running_steam_games(snapshot: &Vec<ProcessRecord>) -> (r: Vec<SteamApp>)
    ensures
        r@.map_values(|a: SteamApp| a@) == scan_spec(snapshot@),
{
    let n = snapshot.len();
    let mut games: Vec<SteamApp> = Vec::new();
    let mut i: usize = 0;
    proof {
        assert(snapshot@.subrange(0, 0) =~= Seq::empty());
        assert(games@.map_values(|a: SteamApp| a@) =~= Seq::empty());
    }
    while i < n
        invariant
            n == snapshot@.len(),
            0 <= i <= n,
            games@.map_values(|a: SteamApp| a@) == scan_spec(snapshot@.subrange(0, i as int)),
        decreases n - i,
    {
        let p = &snapshot[i];
        proof {
            assert(snapshot@.subrange(0, i + 1).drop_last() =~= snapshot@.subrange(0, i as int));
            assert(snapshot@.subrange(0, i + 1).last() == snapshot@[i as int]);
        }
        if text::str_eq_ignore_ascii_case(p.name.as_str(), constants::launcher_name()) {
            match p.steam_path() {
                Ok(Some(path)) => {
                    let app = SteamApp {
                        app_id: p.steam_appid(),
                        path,
                        running_since: p.start_time,
                    };
                    proof {
                        assert(app_of(snapshot@[i as int]) == Some(app@));
                    }
                    games.push(app);
                    proof {
                        assert(games@.map_values(|a: SteamApp| a@)
                            =~= scan_spec(snapshot@.subrange(0, i + 1)));
                    }
                }
                Ok(None) => {
                    proof {
                        assert(app_of(snapshot@[i as int]) is None);
                    }
                }
                Err(_) => {
                    proof {
                        assert(app_of(snapshot@[i as int]) is None);
                    }
                }
            }
        }
        i = i + 1;
    }
    proof {
        assert(snapshot@.subrange(0, n as int) =~= snapshot@);
    }
    games
}

/// Gets all running games; the `Result` mirrors the scanner's
/// interface, and scanning a snapshot itself cannot fail.
pub fn get_games(snapshot: &Vec<ProcessRecord>) -> (r: Result<Vec<SteamApp>, ScanError>)
    ensures
        r matches Ok(v) && v@.map_values(|a: SteamApp| a@) == scan_spec(snapshot@),
{
    Ok(get_running_steam_games(snapshot))
}

/// Everything the scanner reports stems from a process whose name
/// matches the launcher's, case-insensitively, and that determined
/// exactly one executable path.
pub proof fn lemma_scan_only_launchers(procs: Seq<ProcessRecord>, k: int)
    requires
        0 <= k < scan_spec(procs).len(),
    ensures
        exists|j: int| 0 <= j < procs.len() && launcher_matches(#[trigger] procs[j])
            && app_of(procs[j]) == Some(scan_spec(procs)[k]),
    decreases procs.len(),
{
    let p = procs.last();
    let rest = scan_spec(procs.drop_last());
    if k < rest.len() {
        lemma_scan_only_launchers(procs.drop_last(), k);
        let j = choose|j: int| 0 <= j < procs.drop_last().len()
            && launcher_matches(#[trigger] procs.drop_last()[j])
            && app_of(procs.drop_last()[j]) == Some(rest[k]);
        assert(procs.drop_last()[j] == procs[j]);
        assert(launcher_matches(procs[j]) && app_of(procs[j]) == Some(scan_spec(procs)[k]));
    } else {
        assert(launcher_matches(p) && app_of(p) == Some(scan_spec(procs)[k])) by {
            assert(scan_spec(procs)[k] == scan_spec(procs).last());
        }
        assert(procs[procs.len() - 1] == p);
    }
}

/// A process with several plausible executable paths is never reported:
/// no arbitrary pick is made silently.
pub proof fn lemma_scan_skips_ambiguous(p: ProcessRecord)
    requires
        path_candidates(p.cmd_view()).len() != 1,
    ensures
        app_of(p) is None,
{
}

/// A process without the app-id environment entry yields the sentinel
/// id rather than failing.
pub proof fn lemma_missing_appid_yields_sentinel(env: Seq<Seq<char>>)
    requires
        first_appid_entry(env) is None,
    ensures
        appid_of(env) == constants::NO_APPID,
{
}

} // verus!
