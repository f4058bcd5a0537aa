use vstd::prelude::*;

use crate::error::Error;
use crate::paths::{join, resolve};
use crate::vdf::{lines, values, values_for_key};

verus! {

/// The operating system the launcher runs on.
#[derive(Debug, Clone, Copy, PartialEq, Eq, Structural)]
pub enum Host {
    Linux,
    Windows,
    Other,
}

/// The decimal digit for `d < 10`.
pub open spec fn digit(d: nat) -> char {
    if d == 0 { '0' } else if d == 1 { '1' } else if d == 2 { '2' } else if d == 3 { '3' }
    else if d == 4 { '4' } else if d == 5 { '5' } else if d == 6 { '6' } else if d == 7 { '7' }
    else if d == 8 { '8' } else { '9' }
}

/// The decimal notation of `n`, without leading zeros.
pub open spec fn decimal(n: nat) -> Seq<char>
    decreases n,
{
    if n < 10 {
        seq![digit(n)]
    } else {
        decimal(n / 10) + seq![digit(n % 10)]
    }
}

fn digit_str(d: u64) -> (r: &'static str)
    requires
        d < 10,
    ensures
        r@ == seq![digit(d as nat)],
{
    proof {
        reveal_strlit("0");
        reveal_strlit("1");
        reveal_strlit("2");
        reveal_strlit("3");
        reveal_strlit("4");
        reveal_strlit("5");
        reveal_strlit("6");
        reveal_strlit("7");
        reveal_strlit("8");
        reveal_strlit("9");
    }
    if d == 0 { "0" } else if d == 1 { "1" } else if d == 2 { "2" } else if d == 3 { "3" }
    else if d == 4 { "4" } else if d == 5 { "5" } else if d == 6 { "6" } else if d == 7 { "7" }
    else if d == 8 { "8" } else { "9" }
}

/// `n` written in decimal.
pub fn decimal_string(n: u64) -> (r: String)
    ensures
        r@ == decimal(n as nat),
    decreases n,
{
    if n < 10 {
        String::from_str(digit_str(n))
    } else {
        let mut s = decimal_string(n / 10);
        s.append(digit_str(n % 10));
        s
    }
}

/// The file name of the manifest of app `id` within a library.
pub open spec fn manifest_name(id: nat) -> Seq<char> {
    "appmanifest_"@ + decimal(id) + ".acf"@
}

/// The file name of the manifest of app `id` within a library.
pub fn app_manifest_name(id: u64) -> (r: String)
    ensures
        r@ == manifest_name(id as nat),
{
    proof {
        reveal_strlit("appmanifest_");
        reveal_strlit(".acf");
    }
    let mut s = String::from_str("appmanifest_");
    let d = decimal_string(id);
    s.append(d.as_str());
    s.append(".acf");
    s
}

/// The platform's root directory for the home directory `home` on `host`.
pub open spec fn root_of(host: Host, home: Option<Seq<char>>) -> Result<Seq<char>, Error> {
    if host != Host::Linux {
        Err(Error::UnsupportedPlatform)
    } else {
        match home {
            Some(h) => Ok(join(join(h, ".steam"@), "steam"@)),
            None => Err(Error::NotFound),
        }
    }
}

/// The platform's root directory, given the host and the user's home
/// directory (`None` where it cannot be determined).
pub fn steam_root(host: Host, home: Option<&str>) -> (r: Result<String, Error>)
    ensures
        match (r, root_of(host, match home { Some(h) => Some(h@), None => None })) {
            (Ok(p), Ok(q)) => p@ == q,
            (Err(e), Err(f)) => e == f,
            _ => false,
        },
{
    proof {
        reveal_strlit(".steam");
        reveal_strlit("steam");
    }
    if host != Host::Linux {
        return Err(Error::UnsupportedPlatform);
    }
    match home {
        Some(h) => {
            let p = resolve(h, ".steam");
            Ok(resolve(p.as_str(), "steam"))
        },
        None => Err(Error::NotFound),
    }
}

/// Where the library-folders manifest lies under the platform root.
pub open spec fn library_manifest(root: Seq<char>) -> Seq<char> {
    join(join(root, "steamapps"@), "libraryfolders.vdf"@)
}

/// Where the library-folders manifest lies under the platform root `root`.
pub fn library_manifest_path(root: &str) -> (r: String)
    ensures
        r@ == library_manifest(root@),
{
    proof {
        reveal_strlit("steamapps");
        reveal_strlit("libraryfolders.vdf");
    }
    let p = resolve(root, "steamapps");
    resolve(p.as_str(), "libraryfolders.vdf")
}

/// The apps directory of each library path.
pub open spec fn apps_dirs(paths: Seq<Seq<char>>) -> Seq<Seq<char>> {
    paths.map_values(|p: Seq<char>| join(p, "steamapps"@))
}

/// The view of each string of `v`.
pub open spec fn views(v: Seq<String>) -> Seq<Seq<char>> {
    v.map_values(|s: String| s@)
}

/// The apps directory of every library that the library-folders manifest
/// `text` names in a `path` line, in line order, whether or not it exists.
pub fn library_candidates(text: &str) -> (r: Vec<String>)
    ensures
        views(r@) == apps_dirs(values(lines(text@), "path"@)),
{
    proof {
        reveal_strlit("path");
        reveal_strlit("steamapps");
    }
    let found = values_for_key(text, "path");
    let ghost vs = values(lines(text@), "path"@);
    let mut out: Vec<String> = Vec::new();
    let mut i: usize = 0;
    while i < found.len()
        invariant
            i <= found@.len(),
            found@.len() == vs.len(),
            forall|j: int| 0 <= j < found@.len() ==> (#[trigger] found@[j])@ == vs[j],
            views(out@) == apps_dirs(vs.take(i as int)),
        decreases found@.len() - i,
    {
        let p = resolve(found[i], "steamapps");
        let ghost before = out@;
        proof {
            assert(vs.take(i + 1) =~= vs.take(i as int).push(vs[i as int]));
            assert(apps_dirs(vs.take(i + 1)) =~= apps_dirs(vs.take(i as int)).push(p@));
        }
        out.push(p);
        proof {
            assert(out@ =~= before.push(p));
            assert(views(out@) =~= views(before).push(p@));
        }
        i = i + 1;
    }
    proof {
        assert(vs.take(i as int) =~= vs);
    }
    out
}

/// The libraries found by the library-folders manifest, given its text where
/// it is present as a file: `NotFound` where it is not.
pub fn find_steam_libraries(manifest: Option<&str>) -> (r: Result<Vec<String>, Error>)
    ensures
        manifest is None ==> r == Err::<Vec<String>, Error>(Error::NotFound),
        manifest matches Some(t) ==> (r matches Ok(v) && views(v@) == apps_dirs(
            values(lines(t@), "path"@),
        )),
{
    match manifest {
        Some(t) => Ok(library_candidates(t)),
        None => Err(Error::NotFound),
    }
}

/// The candidates whose flag is set, in their order.
pub open spec fn kept(cands: Seq<Seq<char>>, is_dir: Seq<bool>) -> Seq<Seq<char>>
    decreases cands.len(),
{
    if cands.len() == 0 {
        seq![]
    } else {
        kept(cands.drop_last(), is_dir.take(cands.len() - 1)) + if is_dir[cands.len() - 1] {
            seq![cands.last()]
        } else {
            seq![]
        }
    }
}

/// The number of set flags.
pub open spec fn count_set(flags: Seq<bool>) -> nat
    decreases flags.len(),
{
    if flags.len() == 0 {
        0
    } else {
        count_set(flags.drop_last()) + if flags.last() { 1nat } else { 0nat }
    }
}

/// Keeps the library candidates that exist as directories (`is_dir[i]` tells
/// of `candidates[i]`), in their order; `NoLibrariesFound` where none does.
pub fn find_libraries_from_manifest(candidates: &Vec<String>, is_dir: &Vec<bool>) -> (r: Result<
    Vec<String>,
    Error,
>)
    requires
        candidates@.len() == is_dir@.len(),
    ensures
        kept(views(candidates@), is_dir@).len() == 0 ==> r == Err::<Vec<String>, Error>(
            Error::NoLibrariesFound,
        ),
        kept(views(candidates@), is_dir@).len() > 0 ==> (r matches Ok(v) && views(v@) == kept(
            views(candidates@),
            is_dir@,
        )),
{
    let mut out: Vec<String> = Vec::new();
    let mut i: usize = 0;
    while i < candidates.len()
        invariant
            i <= candidates@.len() == is_dir@.len(),
            views(out@) == kept(views(candidates@).take(i as int), is_dir@.take(i as int)),
        decreases candidates@.len() - i,
    {
        let ghost c = views(candidates@);
        proof {
            let ci = c.take(i + 1);
            assert(ci.drop_last() =~= c.take(i as int));
            assert(is_dir@.take(i + 1).take(i as int) =~= is_dir@.take(i as int));
            assert(ci.last() == candidates@[i as int]@);
        }
        if is_dir[i] {
            out.push(candidates[i].clone());
        }
        proof {
            assert(views(out@) =~= kept(c.take(i + 1), is_dir@.take(i + 1)));
        }
        i = i + 1;
    }
    proof {
        assert(views(candidates@).take(i as int) =~= views(candidates@));
        assert(is_dir@.take(i as int) =~= is_dir@);
    }
    if out.len() == 0 {
        Err(Error::NoLibrariesFound)
    } else {
        Ok(out)
    }
}

/// Of a library-folders manifest's candidates, those that exist are kept:
/// as many as there are set flags, each of them a candidate whose flag is set.
pub proof fn library_selection_keeps_valid(cands: Seq<Seq<char>>, is_dir: Seq<bool>)
    requires
        cands.len() == is_dir.len(),
    ensures
        kept(cands, is_dir).len() == count_set(is_dir),
        forall|p: Seq<char>| #[trigger]
            kept(cands, is_dir).contains(p) ==> exists|j: int|
                0 <= j < cands.len() && is_dir[j] && cands[j] == p,
    decreases cands.len(),
{
    if cands.len() > 0 {
        let n = cands.len() - 1;
        assert(is_dir.take(n as int) =~= is_dir.drop_last());
        library_selection_keeps_valid(cands.drop_last(), is_dir.take(n as int));
        assert forall|p: Seq<char>| #[trigger]
            kept(cands, is_dir).contains(p) implies exists|j: int|
                0 <= j < cands.len() && is_dir[j] && cands[j] == p by {
            let prev = kept(cands.drop_last(), is_dir.take(n as int));
            let k = choose|k: int| 0 <= k < kept(cands, is_dir).len() && kept(cands, is_dir)[k] == p;
            if k < prev.len() {
                assert(prev[k] == p);
                assert(prev.contains(p));
                let j = choose|j: int|
                    0 <= j < cands.drop_last().len() && is_dir.take(n as int)[j]
                        && cands.drop_last()[j] == p;
                assert(is_dir[j] && cands[j] == p);
            } else {
                assert(is_dir[n as int] && cands[n as int] == p);
            }
        }
    }
}

/// The installation directory that the app manifest `text` of `library`
/// names: its first `installdir` value, under the library's `common` directory.
pub open spec fn install_candidate(library: Seq<char>, text: Seq<char>) -> Option<Seq<char>> {
    let vs = values(lines(text), "installdir"@);
    if vs.len() > 0 {
        Some(join(join(library, "common"@), vs[0]))
    } else {
        None
    }
}

/// The installation directory named by the app manifest `text` found in
/// `library_root`; `ManifestFieldMissing` where it has no `installdir` entry.
pub fn parse_app_manifest(library_root: &str, text: &str) -> (r: Result<String, Error>)
    ensures
        install_candidate(library_root@, text@) is None ==> r == Err::<String, Error>(
            Error::ManifestFieldMissing,
        ),
        install_candidate(library_root@, text@) matches Some(p) ==> (r matches Ok(q) && q@ == p),
{
    proof {
        reveal_strlit("installdir");
        reveal_strlit("common");
    }
    let found = values_for_key(text, "installdir");
    if found.len() == 0 {
        return Err(Error::ManifestFieldMissing);
    }
    let common = resolve(library_root, "common");
    Ok(resolve(common.as_str(), found[0]))
}

/// The view of each optional string of `v`.
pub open spec fn opt_views(v: Seq<Option<String>>) -> Seq<Option<Seq<char>>> {
    v.map_values(|o: Option<String>| match o {
        Some(s) => Some(s@),
        None => None,
    })
}

/// The outcome of looking through the libraries from the `i`-th on: the first
/// one whose app manifest is present decides.
pub open spec fn lookup(
    libs: Seq<Seq<char>>,
    manifests: Seq<Option<Seq<char>>>,
    dir_ok: Seq<bool>,
    i: int,
) -> Result<Option<Seq<char>>, Error>
    decreases libs.len() - i,
{
    if i < 0 || i >= libs.len() {
        Ok(None)
    } else {
        match manifests[i] {
            None => lookup(libs, manifests, dir_ok, i + 1),
            Some(t) => match install_candidate(libs[i], t) {
                None => Err(Error::ManifestFieldMissing),
                Some(p) => if dir_ok[i] {
                    Ok(Some(p))
                } else {
                    Err(Error::InvalidInstallation)
                },
            },
        }
    }
}

/// The result of a lookup, viewed.
pub open spec fn result_view(r: Result<Option<String>, Error>) -> Result<Option<Seq<char>>, Error> {
    match r {
        Ok(Some(s)) => Ok(Some(s@)),
        Ok(None) => Ok(None),
        Err(e) => Err(e),
    }
}

/// Finds a game's installation directory among `libraries`, in their order.
/// `manifests[i]` is the text of the game's app manifest in `libraries[i]`
/// where that file exists; `install_dir_ok[i]` tells whether the directory it
/// names is an existing directory. The first library with a manifest decides:
/// its installation directory, or `ManifestFieldMissing` or
/// `InvalidInstallation`; `Ok(None)` where no library has one.
pub fn find_game_by_id(
    libraries: &Vec<String>,
    manifests: &Vec<Option<String>>,
    install_dir_ok: &Vec<bool>,
) -> (r: Result<Option<String>, Error>)
    requires
        libraries@.len() == manifests@.len(),
        libraries@.len() == install_dir_ok@.len(),
    ensures
        result_view(r) == lookup(views(libraries@), opt_views(manifests@), install_dir_ok@, 0),
{
    let ghost libs = views(libraries@);
    let ghost mans = opt_views(manifests@);
    let mut i: usize = 0;
    while i < libraries.len()
        invariant
            i <= libraries@.len() == manifests@.len() == install_dir_ok@.len(),
            libs == views(libraries@),
            mans == opt_views(manifests@),
            lookup(libs, mans, install_dir_ok@, 0) == lookup(libs, mans, install_dir_ok@, i as int),
        decreases libraries@.len() - i,
    {
        if let Some(text) = &manifests[i] {
            let found = parse_app_manifest(libraries[i].as_str(), text.as_str());
            return match found {
                Ok(p) => if install_dir_ok[i] {
                    Ok(Some(p))
                } else {
                    Err(Error::InvalidInstallation)
                },
                Err(e) => Err(e),
            };
        }
        i = i + 1;
    }
    Ok(None)
}

/// No library holding the game's manifest means "not found", not an error;
/// otherwise the first library, in order, that holds one decides the outcome.
pub proof fn lookup_first_match(
    libs: Seq<Seq<char>>,
    manifests: Seq<Option<Seq<char>>>,
    dir_ok: Seq<bool>,
)
    requires
        libs.len() == manifests.len() == dir_ok.len(),
    ensures
        (forall|j: int| 0 <= j < libs.len() ==> manifests[j] is None) ==> lookup(
            libs,
            manifests,
            dir_ok,
            0,
        ) == Ok::<Option<Seq<char>>, Error>(None),
        forall|k: int, t: Seq<char>, p: Seq<char>|
            0 <= k < libs.len() && manifests[k] == Some(t) && dir_ok[k] && install_candidate(
                libs[k],
                t,
            ) == Some(p) && (forall|j: int| 0 <= j < k ==> manifests[j] is None) ==> lookup(
                libs,
                manifests,
                dir_ok,
                0,
            ) == Ok::<Option<Seq<char>>, Error>(Some(p)),
{
    if forall|j: int| 0 <= j < libs.len() ==> manifests[j] is None {
        lemma_lookup_skips(libs, manifests, dir_ok, 0, libs.len() as int);
    }
    assert forall|k: int, t: Seq<char>, p: Seq<char>|
        0 <= k < libs.len() && manifests[k] == Some(t) && dir_ok[k] && install_candidate(
            libs[k],
            t,
        ) == Some(p) && (forall|j: int| 0 <= j < k ==> manifests[j] is None) implies lookup(
            libs,
            manifests,
            dir_ok,
            0,
        ) == Ok::<Option<Seq<char>>, Error>(Some(p)) by {
        lemma_lookup_skips(libs, manifests, dir_ok, 0, k);
    }
}

/// Libraries without a manifest from `i` up to `k` do not change the outcome.
proof fn lemma_lookup_skips(
    libs: Seq<Seq<char>>,
    manifests: Seq<Option<Seq<char>>>,
    dir_ok: Seq<bool>,
    i: int,
    k: int,
)
    requires
        0 <= i <= k <= libs.len() == manifests.len(),
        forall|j: int| i <= j < k ==> manifests[j] is None,
    ensures
        lookup(libs, manifests, dir_ok, i) == lookup(libs, manifests, dir_ok, k),
    decreases k - i,
{
    if i < k {
        lemma_lookup_skips(libs, manifests, dir_ok, i + 1, k);
    }
}

} // verus!
