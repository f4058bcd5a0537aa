use vstd::prelude::*;

use crate::error::Error;
use crate::paths::{join, resolve};
use crate::steam_apps::{decimal, decimal_string, Host};
use crate::vdf::{matches_at, trim, trim_bounds};

verus! {

/// Which platform an installation was built for.
#[derive(Debug, Clone, Copy, PartialEq, Eq, Structural)]
pub enum PlatformVariant {
    NativeBuild,
    ForeignBuild,
}

/// Whether `p` starts `s`.
pub open spec fn has_prefix(s: Seq<char>, p: Seq<char>) -> bool {
    p.len() <= s.len() && s.subrange(0, p.len() as int) == p
}

/// Whether `p` ends `s`.
pub open spec fn has_suffix(s: Seq<char>, p: Seq<char>) -> bool {
    p.len() <= s.len() && s.subrange(s.len() - p.len(), s.len() as int) == p
}

/// The runtime libraries that are linked into the scratch directory in bulk.
pub open spec fn core_library(name: Seq<char>) -> bool {
    has_suffix(name, ".dll"@) && (has_prefix(name, "mscorlib"@) || has_prefix(name, "Mono."@)
        || has_prefix(name, "FNA"@) || has_prefix(name, "System."@))
}

fn starts_with(s: &str, p: &str) -> (r: bool)
    ensures
        r == has_prefix(s@, p@),
{
    let n = s.unicode_len();
    let k = p.unicode_len();
    k <= n && matches_at(s, 0, p)
}

fn ends_with(s: &str, p: &str) -> (r: bool)
    ensures
        r == has_suffix(s@, p@),
{
    let n = s.unicode_len();
    let k = p.unicode_len();
    k <= n && matches_at(s, n - k, p)
}

/// Whether the file `name` is one of the runtime libraries that are linked in bulk.
pub fn is_core_library(name: &str) -> (r: bool)
    ensures
        r == core_library(name@),
{
    ends_with(name, ".dll") && (starts_with(name, "mscorlib") || starts_with(name, "Mono.")
        || starts_with(name, "FNA") || starts_with(name, "System."))
}

/// The file whose presence marks a native build.
pub fn native_marker() -> (r: &'static str)
    ensures
        r@ == "Crystal Project.bin.x86_64"@,
{
    "Crystal Project.bin.x86_64"
}

/// The file whose presence marks a foreign build.
pub fn foreign_marker() -> (r: &'static str)
    ensures
        r@ == "steam_api64.dll"@,
{
    "steam_api64.dll"
}

/// Classifies an installation by its markers; the native marker wins.
pub fn classify(has_native_marker: bool, has_foreign_marker: bool) -> (r: Result<
    PlatformVariant,
    Error,
>)
    ensures
        has_native_marker ==> r == Ok::<PlatformVariant, Error>(PlatformVariant::NativeBuild),
        !has_native_marker && has_foreign_marker ==> r == Ok::<PlatformVariant, Error>(
            PlatformVariant::ForeignBuild,
        ),
        !has_native_marker && !has_foreign_marker ==> r == Err::<PlatformVariant, Error>(
            Error::UnrecognizedInstallation,
        ),
{
    if has_native_marker {
        Ok(PlatformVariant::NativeBuild)
    } else if has_foreign_marker {
        Ok(PlatformVariant::ForeignBuild)
    } else {
        Err(Error::UnrecognizedInstallation)
    }
}

/// `path` if it exists, else `MissingSource`.
pub fn resolve_chk(dir: &str, name: &str, exists: bool) -> (r: Result<String, Error>)
    ensures
        exists ==> (r matches Ok(p) && p@ == join(dir@, name@)),
        !exists ==> r == Err::<String, Error>(Error::MissingSource),
{
    if !exists {
        return Err(Error::MissingSource);
    }
    Ok(resolve(dir, name))
}

/// The path handed on by the path-translation helper, given what it printed:
/// trimmed, with a `\` appended where the path is a directory.
pub open spec fn translated(output: Seq<char>, is_dir: bool) -> Seq<char> {
    if is_dir {
        trim(output) + "\\"@
    } else {
        trim(output)
    }
}

/// Turns the output of the path-translation helper into the path to pass on.
pub fn winepath(output: &str, is_dir: bool) -> (r: String)
    ensures
        r@ == translated(output@, is_dir),
{
    proof {
        reveal_strlit("\\");
    }
    let (a, b) = trim_bounds(output, 0, output.unicode_len());
    proof {
        assert(output@.subrange(0, output@.len() as int) =~= output@);
    }
    let mut s = String::from_str(output.substring_char(a, b));
    if is_dir {
        s.append("\\");
    }
    s
}

/// One step of assembling the scratch directory.
#[derive(Debug, Clone, PartialEq, Eq)]
pub enum FsOp {
    /// Create the directory and its missing parents.
    CreateDir(String),
    /// Link `dest` to the existing `src`, as a directory link where `dir` is set.
    Link { src: String, dest: String, dir: bool },
    /// Link every entry of `src_dir` (only the core libraries, where
    /// `core_only` is set) under the same name into `dest_dir`.
    LinkEntries { src_dir: String, dest_dir: String, core_only: bool },
    /// Copy the existing file `src` to `dest`.
    Copy { src: String, dest: String },
    /// Write `contents` to the file `path`.
    WriteFile { path: String, contents: String },
    /// Fail unless `path` exists.
    Check(String),
}

/// An assembly step, over views.
pub enum OpView {
    CreateDir(Seq<char>),
    Link(Seq<char>, Seq<char>, bool),
    LinkEntries(Seq<char>, Seq<char>, bool),
    Copy(Seq<char>, Seq<char>),
    WriteFile(Seq<char>, Seq<char>),
    Check(Seq<char>),
}

/// The view of an assembly step.
pub open spec fn op_view(op: FsOp) -> OpView {
    match op {
        FsOp::CreateDir(p) => OpView::CreateDir(p@),
        FsOp::Link { src, dest, dir } => OpView::Link(src@, dest@, dir),
        FsOp::LinkEntries { src_dir, dest_dir, core_only } => OpView::LinkEntries(
            src_dir@,
            dest_dir@,
            core_only,
        ),
        FsOp::Copy { src, dest } => OpView::Copy(src@, dest@),
        FsOp::WriteFile { path, contents } => OpView::WriteFile(path@, contents@),
        FsOp::Check(p) => OpView::Check(p@),
    }
}

/// The views of a list of steps.
pub open spec fn ops_view(ops: Seq<FsOp>) -> Seq<OpView> {
    ops.map_values(|op: FsOp| op_view(op))
}

/// The path that a step needs to exist before it runs, if any.
pub open spec fn source_of(op: OpView) -> Option<Seq<char>> {
    match op {
        OpView::Link(src, _, _) => Some(src),
        OpView::LinkEntries(src, _, _) => Some(src),
        OpView::Copy(src, _) => Some(src),
        OpView::Check(p) => Some(p),
        _ => None,
    }
}

/// The path that `op` needs to exist before it runs, if any.
pub fn required_source(op: &FsOp) -> (r: Option<&String>)
    ensures
        match (r, source_of(op_view(*op))) {
            (Some(p), Some(q)) => p@ == q,
            (None, None) => true,
            _ => false,
        },
{
    match op {
        FsOp::Link { src, .. } => Some(src),
        FsOp::LinkEntries { src_dir, .. } => Some(src_dir),
        FsOp::Copy { src, .. } => Some(src),
        FsOp::Check(p) => Some(p),
        _ => None,
    }
}

/// Decides whether `op` may run, given whether its source exists: a step
/// whose source is absent fails with `MissingSource` and must create nothing.
pub fn check_source(op: &FsOp, source_exists: bool) -> (r: Result<(), Error>)
    ensures
        r is Err <==> (source_of(op_view(*op)) is Some && !source_exists),
        r is Err ==> r == Err::<(), Error>(Error::MissingSource),
{
    match required_source(op) {
        Some(_) => if source_exists {
            Ok(())
        } else {
            Err(Error::MissingSource)
        },
        None => Ok(()),
    }
}

/// Links `name` of `src_dir` under the same name into `dest_dir`.
pub fn symlink(src_dir: &str, dest_dir: &str, name: &str) -> (r: FsOp)
    ensures
        op_view(r) == OpView::Link(join(src_dir@, name@), join(dest_dir@, name@), false),
{
    FsOp::Link { src: resolve(src_dir, name), dest: resolve(dest_dir, name), dir: false }
}

/// Links the directory `name` of `src_dir` under the same name into `dest_dir`.
pub fn symlink_dir(src_dir: &str, dest_dir: &str, name: &str) -> (r: FsOp)
    ensures
        op_view(r) == OpView::Link(join(src_dir@, name@), join(dest_dir@, name@), true),
{
    FsOp::Link { src: resolve(src_dir, name), dest: resolve(dest_dir, name), dir: true }
}

/// A link from `d/n` to `s/n`, as a view.
pub open spec fn link_v(s: Seq<char>, d: Seq<char>, n: Seq<char>) -> OpView {
    OpView::Link(join(s, n), join(d, n), false)
}

/// The steps that prepare a native build: the game's entry executable is
/// linked as the bootstrap executable, next to the runtime it needs.
pub open spec fn linux_ops(temp: Seq<char>, base: Seq<char>, game: Seq<char>, id: nat) -> Seq<
    OpView,
> {
    let boot = join(base, "lib/bootstrap"@);
    seq![
        OpView::Link(join(game, "Crystal Project.bin.x86_64"@), join(temp, "MelodiaBootstrap.bin.x86_64"@), false),
        OpView::Link(join(game, "lib64"@), join(temp, "lib64"@), true),
        link_v(game, temp, "monoconfig"@),
        link_v(game, temp, "monomachineconfig"@),
        OpView::LinkEntries(game, temp, true),
        link_v(boot, temp, "MelodiaBootstrap.exe"@),
        link_v(boot, temp, "MelodiaBootstrap.pdb"@),
        link_v(boot, temp, "MelodiaBootstrap.exe.config"@),
        OpView::WriteFile(join(temp, "steam_appid.txt"@), decimal(id)),
        OpView::Check(join(base, "lib/patcher"@)),
        OpView::Check(join(temp, "MelodiaBootstrap.bin.x86_64"@)),
    ]
}

/// Appends `op` to `ops`.
fn push_op(ops: &mut Vec<FsOp>, op: FsOp)
    ensures
        ops_view(final(ops)@) == ops_view(old(ops)@).push(op_view(op)),
{
    let ghost before = ops@;
    ops.push(op);
    proof {
        assert(ops_view(ops@) =~= ops_view(before).push(op_view(op)));
    }
}

/// The steps that prepare a foreign build; under the compatibility layer the
/// bootstrap executable is copied rather than linked.
pub open spec fn windows_ops(
    temp: Seq<char>,
    base: Seq<char>,
    game: Seq<char>,
    id: nat,
    compat: bool,
) -> Seq<OpView> {
    let boot = join(base, "lib/bootstrap"@);
    let patcher = join(temp, "patcher"@);
    let exe = "MelodiaBootstrap.exe"@;
    seq![
        OpView::CreateDir(patcher),
        link_v(game, patcher, "FAudio.dll"@),
        link_v(game, patcher, "FNA.dll"@),
        link_v(game, patcher, "FNA3D.dll"@),
        link_v(game, patcher, "libtheorafile.dll"@),
        link_v(game, patcher, "SDL2.dll"@),
        OpView::LinkEntries(join(base, "lib/patcher"@), patcher, false),
        OpView::LinkEntries(game, temp, true),
        link_v(game, temp, "steam_api64.dll"@),
        if compat { OpView::Copy(join(boot, exe), join(temp, exe)) } else { link_v(boot, temp, exe) },
        link_v(boot, temp, "MelodiaBootstrap.pdb"@),
        link_v(boot, temp, "MelodiaBootstrap.exe.config"@),
        OpView::WriteFile(join(temp, "steam_appid.txt"@), decimal(id)),
        OpView::Check(join(temp, exe)),
    ]
}

/// How to assemble the scratch directory and what to launch from it.
#[derive(Debug, Clone, PartialEq, Eq)]
pub struct LaunchPlan {
    /// The assembly steps, in order.
    pub ops: Vec<FsOp>,
    /// Whether the bootstrap runs under the compatibility layer.
    pub compat: bool,
    /// The bootstrap executable.
    pub bin: String,
    /// The directory that holds the patcher and its dependencies.
    pub patcher_dir: String,
    /// The game's installation directory.
    pub game_dir: String,
    /// The launcher's own directory.
    pub base_dir: String,
    /// The scratch directory.
    pub temp_dir: String,
}

/// Plans the launch of a native build.
pub fn launch_game_linux(temp_dir: &str, base_dir: &str, game_dir: &str, app_id: u64) -> (r:
    LaunchPlan)
    ensures
        ops_view(r.ops@) == linux_ops(temp_dir@, base_dir@, game_dir@, app_id as nat),
        !r.compat,
        r.bin@ == join(temp_dir@, "MelodiaBootstrap.bin.x86_64"@),
        r.patcher_dir@ == join(base_dir@, "lib/patcher"@),
        r.game_dir@ == game_dir@,
        r.base_dir@ == base_dir@,
        r.temp_dir@ == temp_dir@,
{
    let mut ops: Vec<FsOp> = Vec::new();
    let boot = resolve(base_dir, "lib/bootstrap");
    let boot = boot.as_str();
    push_op(
        &mut ops,
        FsOp::Link {
            src: resolve(game_dir, "Crystal Project.bin.x86_64"),
            dest: resolve(temp_dir, "MelodiaBootstrap.bin.x86_64"),
            dir: false,
        },
    );
    push_op(&mut ops, symlink_dir(game_dir, temp_dir, "lib64"));
    push_op(&mut ops, symlink(game_dir, temp_dir, "monoconfig"));
    push_op(&mut ops, symlink(game_dir, temp_dir, "monomachineconfig"));
    push_op(
        &mut ops,
        FsOp::LinkEntries {
            src_dir: String::from_str(game_dir),
            dest_dir: String::from_str(temp_dir),
            core_only: true,
        },
    );
    push_op(&mut ops, symlink(boot, temp_dir, "MelodiaBootstrap.exe"));
    push_op(&mut ops, symlink(boot, temp_dir, "MelodiaBootstrap.pdb"));
    push_op(&mut ops, symlink(boot, temp_dir, "MelodiaBootstrap.exe.config"));
    push_op(
        &mut ops,
        FsOp::WriteFile {
            path: resolve(temp_dir, "steam_appid.txt"),
            contents: decimal_string(app_id),
        },
    );
    let patcher_dir = resolve(base_dir, "lib/patcher");
    push_op(&mut ops, FsOp::Check(patcher_dir.clone()));
    let bin = resolve(temp_dir, "MelodiaBootstrap.bin.x86_64");
    push_op(&mut ops, FsOp::Check(bin.clone()));
    proof {
        assert(ops_view(ops@) =~= linux_ops(temp_dir@, base_dir@, game_dir@, app_id as nat));
    }
    LaunchPlan {
        ops,
        compat: false,
        bin,
        patcher_dir,
        game_dir: String::from_str(game_dir),
        base_dir: String::from_str(base_dir),
        temp_dir: String::from_str(temp_dir),
    }
}

/// Plans the launch of a foreign build, under the compatibility layer where
/// `compat` is set.
pub fn launch_game_windows(
    temp_dir: &str,
    base_dir: &str,
    game_dir: &str,
    app_id: u64,
    compat: bool,
) -> (r: LaunchPlan)
    ensures
        ops_view(r.ops@) == windows_ops(temp_dir@, base_dir@, game_dir@, app_id as nat, compat),
        r.compat == compat,
        r.bin@ == join(temp_dir@, "MelodiaBootstrap.exe"@),
        r.patcher_dir@ == join(temp_dir@, "patcher"@),
        r.game_dir@ == game_dir@,
        r.base_dir@ == base_dir@,
        r.temp_dir@ == temp_dir@,
{
    let mut ops: Vec<FsOp> = Vec::new();
    let patcher_dir = resolve(temp_dir, "patcher");
    let patcher = patcher_dir.as_str();
    push_op(&mut ops, FsOp::CreateDir(patcher_dir.clone()));
    push_op(&mut ops, symlink(game_dir, patcher, "FAudio.dll"));
    push_op(&mut ops, symlink(game_dir, patcher, "FNA.dll"));
    push_op(&mut ops, symlink(game_dir, patcher, "FNA3D.dll"));
    push_op(&mut ops, symlink(game_dir, patcher, "libtheorafile.dll"));
    push_op(&mut ops, symlink(game_dir, patcher, "SDL2.dll"));
    push_op(
        &mut ops,
        FsOp::LinkEntries {
            src_dir: resolve(base_dir, "lib/patcher"),
            dest_dir: patcher_dir.clone(),
            core_only: false,
        },
    );
    push_op(
        &mut ops,
        FsOp::LinkEntries {
            src_dir: String::from_str(game_dir),
            dest_dir: String::from_str(temp_dir),
            core_only: true,
        },
    );
    push_op(&mut ops, symlink(game_dir, temp_dir, "steam_api64.dll"));
    let boot = resolve(base_dir, "lib/bootstrap");
    let boot = boot.as_str();
    if compat {
        push_op(
            &mut ops,
            FsOp::Copy {
                src: resolve(boot, "MelodiaBootstrap.exe"),
                dest: resolve(temp_dir, "MelodiaBootstrap.exe"),
            },
        );
    } else {
        push_op(&mut ops, symlink(boot, temp_dir, "MelodiaBootstrap.exe"));
    }
    push_op(&mut ops, symlink(boot, temp_dir, "MelodiaBootstrap.pdb"));
    push_op(&mut ops, symlink(boot, temp_dir, "MelodiaBootstrap.exe.config"));
    push_op(
        &mut ops,
        FsOp::WriteFile {
            path: resolve(temp_dir, "steam_appid.txt"),
            contents: decimal_string(app_id),
        },
    );
    let bin = resolve(temp_dir, "MelodiaBootstrap.exe");
    push_op(&mut ops, FsOp::Check(bin.clone()));
    proof {
        assert(ops_view(ops@) =~= windows_ops(
            temp_dir@,
            base_dir@,
            game_dir@,
            app_id as nat,
            compat,
        ));
    }
    LaunchPlan {
        ops,
        compat,
        bin,
        patcher_dir,
        game_dir: String::from_str(game_dir),
        base_dir: String::from_str(base_dir),
        temp_dir: String::from_str(temp_dir),
    }
}

/// Plans the launch of the game installed in `game_dir` on `host`, given which
/// build markers it holds: `UnrecognizedInstallation` where it holds neither,
/// `UnsupportedCombination` where the host cannot run that build.
pub fn launch_game(
    host: Host,
    temp_dir: &str,
    base_dir: &str,
    game_dir: &str,
    app_id: u64,
    has_native_marker: bool,
    has_foreign_marker: bool,
) -> (r: Result<LaunchPlan, Error>)
    ensures
        !has_native_marker && !has_foreign_marker ==> r == Err::<LaunchPlan, Error>(
            Error::UnrecognizedInstallation,
        ),
        has_native_marker && host != Host::Linux ==> r == Err::<LaunchPlan, Error>(
            Error::UnsupportedCombination,
        ),
        !has_native_marker && has_foreign_marker && host == Host::Other ==> r == Err::<
            LaunchPlan,
            Error,
        >(Error::UnsupportedCombination),
        has_native_marker && host == Host::Linux ==> (r matches Ok(p) && ops_view(p.ops@)
            == linux_ops(temp_dir@, base_dir@, game_dir@, app_id as nat) && !p.compat
            && p.bin@ == join(temp_dir@, "MelodiaBootstrap.bin.x86_64"@) && p.patcher_dir@ == join(
            base_dir@,
            "lib/patcher"@,
        ) && p.game_dir@ == game_dir@ && p.base_dir@ == base_dir@ && p.temp_dir@ == temp_dir@),
        !has_native_marker && has_foreign_marker && host != Host::Other ==> (r matches Ok(p)
            && p.compat == (host == Host::Linux) && ops_view(p.ops@) == windows_ops(
            temp_dir@,
            base_dir@,
            game_dir@,
            app_id as nat,
            host == Host::Linux,
        ) && p.bin@ == join(temp_dir@, "MelodiaBootstrap.exe"@) && p.patcher_dir@ == join(
            temp_dir@,
            "patcher"@,
        ) && p.game_dir@ == game_dir@ && p.base_dir@ == base_dir@ && p.temp_dir@ == temp_dir@),
{
    let variant = classify(has_native_marker, has_foreign_marker)?;
    match variant {
        PlatformVariant::NativeBuild => if host == Host::Linux {
            Ok(launch_game_linux(temp_dir, base_dir, game_dir, app_id))
        } else {
            Err(Error::UnsupportedCombination)
        },
        PlatformVariant::ForeignBuild => match host {
            Host::Other => Err(Error::UnsupportedCombination),
            Host::Linux => Ok(launch_game_windows(temp_dir, base_dir, game_dir, app_id, true)),
            Host::Windows => Ok(launch_game_windows(temp_dir, base_dir, game_dir, app_id, false)),
        },
    }
}

/// The paths that go into the argument chain, in order: the bootstrap
/// executable (under the compatibility layer only), then the game, patcher,
/// game, launcher and scratch directories.
pub open spec fn arg_paths(plan: LaunchPlan) -> Seq<Seq<char>> {
    (if plan.compat { seq![plan.bin@] } else { seq![] }) + seq![
        plan.game_dir@,
        plan.patcher_dir@,
        plan.game_dir@,
        plan.base_dir@,
        plan.temp_dir@,
    ]
}

/// The token that tells the bootstrap which program comes next.
pub open spec fn selector() -> Seq<char> {
    "MelodiaPatcher"@
}

/// The argument chain built from the translated paths `tr` and the user's
/// arguments: the bootstrap's inputs, the selector, the patcher's inputs,
/// then the user's arguments as they are.
pub open spec fn chain(compat: bool, tr: Seq<Seq<char>>, user: Seq<Seq<char>>) -> Seq<Seq<char>> {
    let k: int = if compat { 3 } else { 2 };
    tr.take(k) + seq![selector()] + tr.skip(k) + user
}

/// The paths of the argument chain of `plan`, to be translated before use.
pub fn translation_inputs(plan: &LaunchPlan) -> (r: Vec<String>)
    ensures
        crate::steam_apps::views(r@) == arg_paths(*plan),
{
    let mut out: Vec<String> = Vec::new();
    if plan.compat {
        out.push(plan.bin.clone());
    }
    out.push(plan.game_dir.clone());
    out.push(plan.patcher_dir.clone());
    out.push(plan.game_dir.clone());
    out.push(plan.base_dir.clone());
    out.push(plan.temp_dir.clone());
    proof {
        assert(crate::steam_apps::views(out@) =~= arg_paths(*plan));
    }
    out
}

/// The process to start once the scratch directory is assembled.
#[derive(Debug, Clone, PartialEq, Eq)]
pub struct LaunchCommand {
    /// Whether the compatibility layer's background server is started first,
    /// and the compatibility layer's quiet mode set.
    pub start_server: bool,
    /// The program to run.
    pub program: String,
    /// Its arguments.
    pub args: Vec<String>,
    /// Its working directory.
    pub cwd: String,
}

/// The command that runs `plan`, given its argument paths as translated
/// (`translated[i]` for the `i`-th of `translation_inputs`) and the user's arguments.
pub fn launch_bin(plan: &LaunchPlan, translated: &Vec<String>, user_args: &Vec<String>) -> (r:
    LaunchCommand)
    requires
        translated@.len() == arg_paths(*plan).len(),
    ensures
        r.start_server == plan.compat,
        r.program@ == (if plan.compat { "wine"@ } else { plan.bin@ }),
        crate::steam_apps::views(r.args@) == chain(
            plan.compat,
            crate::steam_apps::views(translated@),
            crate::steam_apps::views(user_args@),
        ),
        r.cwd@ == plan.temp_dir@,
{
    proof {
        reveal_strlit("MelodiaPatcher");
        reveal_strlit("wine");
    }
    let k: usize = if plan.compat { 3 } else { 2 };
    let mut args: Vec<String> = Vec::new();
    let mut i: usize = 0;
    let ghost tr = crate::steam_apps::views(translated@);
    let ghost user = crate::steam_apps::views(user_args@);
    while i < translated.len()
        invariant
            k <= translated@.len(),
            tr == crate::steam_apps::views(translated@),
            i <= translated@.len(),
            i < k ==> crate::steam_apps::views(args@) == tr.take(i as int),
            i >= k ==> crate::steam_apps::views(args@) == tr.take(k as int) + seq![selector()]
                + tr.subrange(k as int, i as int),
        decreases translated@.len() - i,
    {
        let ghost before = args@;
        args.push(translated[i].clone());
        proof {
            assert(crate::steam_apps::views(args@) =~= crate::steam_apps::views(before).push(
                tr[i as int],
            ));
            assert(tr.take(i + 1) =~= tr.take(i as int).push(tr[i as int]));
            if i >= k {
                assert(tr.subrange(k as int, i + 1) =~= tr.subrange(k as int, i as int).push(
                    tr[i as int],
                ));
            }
        }
        i = i + 1;
        if i == k {
            let ghost before = args@;
            args.push(String::from_str("MelodiaPatcher"));
            proof {
                assert(crate::steam_apps::views(args@) =~= crate::steam_apps::views(before).push(
                    selector(),
                ));
                assert(tr.subrange(k as int, k as int) =~= seq![]);
                assert(crate::steam_apps::views(args@) =~= tr.take(k as int) + seq![selector()]
                    + tr.subrange(k as int, i as int));
            }
        }
    }
    let mut j: usize = 0;
    let ghost head = crate::steam_apps::views(args@);
    proof {
        assert(tr.subrange(k as int, tr.len() as int) =~= tr.skip(k as int));
    }
    while j < user_args.len()
        invariant
            j <= user_args@.len(),
            user == crate::steam_apps::views(user_args@),
            crate::steam_apps::views(args@) == head + user.take(j as int),
        decreases user_args@.len() - j,
    {
        let ghost before = args@;
        args.push(user_args[j].clone());
        proof {
            assert(crate::steam_apps::views(args@) =~= crate::steam_apps::views(before).push(
                user[j as int],
            ));
            assert(user.take(j + 1) =~= user.take(j as int).push(user[j as int]));
            assert(head + user.take(j + 1) =~= (head + user.take(j as int)).push(user[j as int]));
        }
        j = j + 1;
    }
    proof {
        assert(user.take(j as int) =~= user);
    }
    let program = if plan.compat {
        String::from_str("wine")
    } else {
        plan.bin.clone()
    };
    LaunchCommand { start_server: plan.compat, program, args, cwd: plan.temp_dir.clone() }
}

/// The argument chain puts each translated path where its hop expects it: the
/// bootstrap's inputs first, the selector right after them, the patcher's
/// inputs next, and the user's arguments last and unchanged.
pub proof fn chain_layout(compat: bool, tr: Seq<Seq<char>>, user: Seq<Seq<char>>)
    requires
        tr.len() == if compat { 6int } else { 5int },
    ensures
        ({
            let k: int = if compat { 3 } else { 2 };
            let c = chain(compat, tr, user);
            &&& c.len() == tr.len() + 1 + user.len()
            &&& forall|i: int| 0 <= i < k ==> c[i] == tr[i]
            &&& c[k] == selector()
            &&& forall|i: int| k <= i < tr.len() ==> c[i + 1] == tr[i]
            &&& forall|j: int| 0 <= j < user.len() ==> c[tr.len() + 1 + j] == user[j]
        }),
{
}

/// A native build is prepared with links alone: no step copies a file, the
/// game's native marker is linked into the scratch directory, and so are the
/// game's core runtime libraries.
pub proof fn native_plan_links_only(temp: Seq<char>, base: Seq<char>, game: Seq<char>, id: nat)
    ensures
        forall|i: int| 0 <= i < linux_ops(temp, base, game, id).len() ==> !(#[trigger] linux_ops(
            temp,
            base,
            game,
            id,
        )[i] is Copy),
        linux_ops(temp, base, game, id).contains(
            OpView::Link(
                join(game, "Crystal Project.bin.x86_64"@),
                join(temp, "MelodiaBootstrap.bin.x86_64"@),
                false,
            ),
        ),
        linux_ops(temp, base, game, id).contains(OpView::LinkEntries(game, temp, true)),
{
    let ops = linux_ops(temp, base, game, id);
    assert(ops[0] == OpView::Link(
        join(game, "Crystal Project.bin.x86_64"@),
        join(temp, "MelodiaBootstrap.bin.x86_64"@),
        false,
    ));
    assert(ops[4] == OpView::LinkEntries(game, temp, true));
}

} // verus!
