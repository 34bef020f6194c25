//! Git repositories of a project, worked with through the system's `gh` and
//! `git` on the host (the files are bind-mounted into the containers).

use vstd::prelude::*;

use crate::config::{GithubRepo, SiteConfig};
use crate::order::{sort_ranked, sort_stable, Ranked};
use crate::paths::{join, join_seq};
use crate::text::{
    chars_of, dec_seq, find, find_seq, has_suffix, last_field, last_field_vec, leading_word,
    leading_word_vec, push_dec, string_of, strip_suffix_or_keep, subvec, trim, trim_vec,
    vec_ends_with, vec_eq_str, ws_fields, ws_fields_seq, parse_uint_spec, lines_seq, lines_vec, vv,
    split_seq, split_vec, CharClass,
};

verus! {

broadcast use vstd::string::group_string_axioms;

/// State of `gh`: installed and logged in.
#[derive(Debug)]
pub struct GhStatus {
    pub installed: bool,
    pub authenticated: bool,
    pub user: Option<String>,
}

/// The word after the first occurrence of `marker` in `txt`, if there is one
/// and it is not empty.
pub open spec fn word_after(txt: Seq<char>, marker: Seq<char>) -> Option<Seq<char>> {
    match find_seq(txt, marker) {
        Some(i) => {
            let w = leading_word(txt.skip(i + marker.len()));
            if w.len() > 0 {
                Some(w)
            } else {
                None
            }
        },
        None => None,
    }
}

/// The user of `gh auth status`: the word after `account ` (current format),
/// else the word after ` as ` (older format).
pub open spec fn parse_user_seq(txt: Seq<char>) -> Option<Seq<char>> {
    match word_after(txt, "account "@) {
        Some(w) => Some(w),
        None => word_after(txt, " as "@),
    }
}

fn word_after_exec(v: &Vec<char>, marker: &str) -> (r: Option<Vec<char>>)
    ensures
        match r {
            Some(w) => word_after(v@, marker@) == Some(w@),
            None => word_after(v@, marker@) is None,
        },
{
    let m = chars_of(marker);
    match find(v, &m) {
        Some(i) => {
            assert(crate::text::occurs_at(v@, m@, i as int));
            assert(i + m@.len() <= v@.len());
            assert(i + m.len() <= v.len());
            let w = leading_word_vec(v, i + m.len());
            if w.len() > 0 {
                Some(w)
            } else {
                None
            }
        },
        None => None,
    }
}

/// Reads the user name from the output of `gh auth status`.
pub fn parse_user(txt: &str) -> (r: Option<String>)
    ensures
        match r {
            Some(u) => parse_user_seq(txt@) == Some(u@),
            None => parse_user_seq(txt@) is None,
        },
{
    let v = chars_of(txt);
    match word_after_exec(&v, "account ") {
        Some(w) => Some(string_of(&w)),
        None => match word_after_exec(&v, " as ") {
            Some(w) => Some(string_of(&w)),
            None => None,
        },
    }
}

/// Folder inside `public/` for a path relative to it.
pub fn dest_abs(site: &SiteConfig, rel_path: &str) -> (r: String)
    ensures
        r@ == join_seq(join_seq(join_seq(site.path@, "app"@), "public"@), rel_path@),
{
    let public = site.public_dir();
    join(public.as_str(), rel_path)
}

/// State of a branch against its remote, to decide whether a direct pull
/// (deploy) is possible without opening the editor.
#[derive(Debug)]
pub struct BranchStatus {
    pub current: String,
    pub target: String,
    pub has_remote: bool,
    pub ahead: u32,
    pub behind: u32,
    pub dirty: bool,
    pub can_pull: bool,
    pub message: String,
}

/// The message shown for a branch state.
pub open spec fn summary_message(
    has_remote: bool,
    ahead: u32,
    behind: u32,
    dirty: bool,
    remote_ref: Seq<char>,
    fetch_err: Seq<char>,
) -> Seq<char> {
    if !has_remote {
        "No existe "@ + remote_ref + " o falló el fetch: "@ + fetch_err
    } else if dirty {
        "Hay cambios locales sin commitear: haz pull desde el editor para resolverlos."@
    } else if behind == 0 {
        "Al día con el remoto — no hay nada que traer."@
    } else {
        let extra = if ahead > 0 {
            " (ojo: "@ + dec_seq(ahead as nat)
                + " commit(s) local(es) por delante, el pull hará merge)"@
        } else {
            Seq::<char>::empty()
        };
        dec_seq(behind as nat) + " commit(s) por traer, puedes hacer pull"@ + extra + "."@
    }
}

/// Decides whether a clean pull is possible (there is a remote, something to
/// bring and no local changes) and writes the readable summary.
pub fn summarize(
    has_remote: bool,
    ahead: u32,
    behind: u32,
    dirty: bool,
    remote_ref: &str,
    fetch_err: &str,
) -> (r: (bool, String))
    ensures
        r.0 == (has_remote && behind > 0 && !dirty),
        r.1@ == summary_message(has_remote, ahead, behind, dirty, remote_ref@, fetch_err@),
{
    let can_pull = has_remote && behind > 0 && !dirty;
    let message = if !has_remote {
        String::from_str("No existe ").concat(remote_ref).concat(" o falló el fetch: ").concat(
            fetch_err,
        )
    } else if dirty {
        String::from_str(
            "Hay cambios locales sin commitear: haz pull desde el editor para resolverlos.",
        )
    } else if behind == 0 {
        String::from_str("Al día con el remoto — no hay nada que traer.")
    } else {
        let extra = if ahead > 0 {
            let mut e = String::from_str(" (ojo: ");
            push_dec(&mut e, ahead as u64);
            e.concat(" commit(s) local(es) por delante, el pull hará merge)")
        } else {
            String::new()
        };
        let mut m = String::new();
        push_dec(&mut m, behind as u64);
        assert(m@ =~= dec_seq(behind as nat));
        m.concat(" commit(s) por traer, puedes hacer pull").concat(extra.as_str()).concat(".")
    };
    (can_pull, message)
}

/// The two counts of `git rev-list --left-right --count` (`ahead`, `behind`):
/// its first two whitespace-separated fields, each `0` when missing or not a
/// number.
pub open spec fn count_field(fields: Seq<Seq<char>>, i: int) -> nat {
    if i < fields.len() {
        match parse_uint_spec(fields[i], 10, 0xffff_ffff) {
            Some(n) => n,
            None => 0,
        }
    } else {
        0
    }
}

fn count_at(v: &Vec<char>, ranges: &Vec<(usize, usize)>, i: usize) -> (r: u32)
    requires
        crate::text::ranges_match(v@, ranges@, ws_fields_seq(v@)),
    ensures
        r as nat == count_field(ws_fields_seq(v@), i as int),
{
    if i < ranges.len() {
        let (a, b) = ranges[i];
        let f = subvec(v, a, b);
        match crate::text::parse_dec(&f, 0xffff_ffff) {
            Some(n) => n as u32,
            None => 0,
        }
    } else {
        0
    }
}

/// Parses the output of `git rev-list --left-right --count HEAD...origin/x`.
pub fn parse_ahead_behind(counts: &str) -> (r: (u32, u32))
    ensures
        r.0 as nat == count_field(ws_fields_seq(counts@), 0),
        r.1 as nat == count_field(ws_fields_seq(counts@), 1),
{
    let v = chars_of(counts);
    let ranges = ws_fields(&v);
    (count_at(&v, &ranges, 0), count_at(&v, &ranges, 1))
}

/// Folders where the build runs: the configured ones, each trimmed and without
/// surrounding `/`, or the repo root (an empty path) when none is configured.
pub open spec fn build_subdirs_seq(dirs: Seq<String>) -> Seq<Seq<char>> {
    if dirs.len() == 0 {
        seq![Seq::<char>::empty()]
    } else {
        dirs.map_values(|d: String| trim(trim(d@, CharClass::Whitespace), CharClass::Is('/')))
    }
}

/// Folders of a repo where the build command runs.
pub fn build_subdirs(build_dirs: &Vec<String>) -> (r: Vec<String>)
    ensures
        r@.len() == build_subdirs_seq(build_dirs@).len(),
        forall|i: int| 0 <= i < r@.len() ==> (#[trigger] r@[i])@ == build_subdirs_seq(build_dirs@)[i],
{
    let mut out: Vec<String> = Vec::new();
    if build_dirs.len() == 0 {
        out.push(String::new());
        return out;
    }
    let mut i: usize = 0;
    while i < build_dirs.len()
        invariant
            i <= build_dirs.len(),
            build_dirs@.len() > 0,
            out@.len() == i,
            forall|j: int| 0 <= j < i ==> (#[trigger] out@[j])@ == build_subdirs_seq(build_dirs@)[j],
        decreases build_dirs.len() - i,
    {
        let v = chars_of(build_dirs[i].as_str());
        let t = trim_vec(&v, CharClass::Whitespace);
        let u = trim_vec(&t, CharClass::Is('/'));
        out.push(string_of(&u));
        i += 1;
    }
    out
}

/// Relative path proposed for a repo: `wp-content/{themes|plugins|mu-plugins}/{name}`,
/// where `name` is the repo's last path segment without `.git`.
pub open spec fn propose_path_seq(kind: Seq<char>, repo: Seq<char>) -> Seq<char> {
    let name = strip_suffix_or_keep(last_field(repo, '/'), ".git"@);
    let sub = if kind == "theme"@ {
        "themes"@
    } else if kind == "plugin"@ {
        "plugins"@
    } else if kind == "muplugin"@ {
        "mu-plugins"@
    } else {
        "plugins"@
    };
    "wp-content/"@ + sub + "/"@ + name
}

/// Proposes a relative path from the repo name and its kind.
pub fn propose_path(kind: &str, repo: &str) -> (r: String)
    ensures
        r@ == propose_path_seq(kind@, repo@),
{
    let rv = chars_of(repo);
    let last = last_field_vec(&rv, '/');
    let git = chars_of(".git");
    let name = if vec_ends_with(&last, &git) {
        subvec(&last, 0, last.len() - git.len())
    } else {
        last
    };
    let kv = chars_of(kind);
    let sub = if vec_eq_str(&kv, "theme") {
        "themes"
    } else if vec_eq_str(&kv, "plugin") {
        "plugins"
    } else if vec_eq_str(&kv, "muplugin") {
        "mu-plugins"
    } else {
        "plugins"
    };
    let ns = string_of(&name);
    String::from_str("wp-content/").concat(sub).concat("/").concat(ns.as_str())
}

/// A git repository found on disk under `wp-content/`.
#[derive(Debug)]
pub struct DetectedRepo {
    /// Path relative to `public/`.
    pub path: String,
    /// Folder name (last segment).
    pub name: String,
    /// URL of the `origin` remote, if any.
    pub remote: Option<String>,
    /// Current branch.
    pub branch: Option<String>,
    /// Already in the project's `github.repos`.
    pub registered: bool,
}

/// The state of `gh`, from whether `gh --version` succeeded and, when it did,
/// whether `gh auth status` succeeded and what it printed (stdout then
/// stderr).
pub fn gh_status(installed: bool, auth_ok: bool, auth_text: &str) -> (r: GhStatus)
    ensures
        r.installed == installed,
        r.authenticated == (installed && auth_ok),
        match r.user {
            Some(u) => installed && auth_ok && parse_user_seq(auth_text@) == Some(u@),
            None => !(installed && auth_ok) || parse_user_seq(auth_text@) is None,
        },
{
    if !installed {
        return GhStatus { installed: false, authenticated: false, user: None };
    }
    if auth_ok {
        GhStatus { installed: true, authenticated: true, user: parse_user(auth_text) }
    } else {
        GhStatus { installed: true, authenticated: false, user: None }
    }
}

/// The `gh` arguments that clone `repo` into `dest`, on `branch` when one is
/// given (passed on to git after `--`).
pub fn clone_args(repo: &str, dest: &str, branch: &str) -> (r: Vec<String>)
    ensures
        r@.len() == (if branch@.len() == 0 {
            4int
        } else {
            7int
        }),
        r@[0]@ == "repo"@,
        r@[1]@ == "clone"@,
        r@[2]@ == repo@,
        r@[3]@ == dest@,
        branch@.len() > 0 ==> r@[4]@ == "--"@ && r@[5]@ == "-b"@ && r@[6]@ == branch@,
{
    let mut args = vec![
        String::from_str("repo"),
        String::from_str("clone"),
        String::from_str(repo),
        String::from_str(dest),
    ];
    if branch.unicode_len() > 0 {
        args.push(String::from_str("--"));
        args.push(String::from_str("-b"));
        args.push(String::from_str(branch));
    }
    args
}

/// The `git` arguments of a pull in `dir`, from `origin`'s `branch` when one
/// is given.
pub fn pull_args(dir: &str, branch: &str) -> (r: Vec<String>)
    ensures
        r@.len() == (if branch@.len() == 0 {
            3int
        } else {
            5int
        }),
        r@[0]@ == "-C"@,
        r@[1]@ == dir@,
        r@[2]@ == "pull"@,
        branch@.len() > 0 ==> r@[3]@ == "origin"@ && r@[4]@ == branch@,
{
    let mut args = vec![String::from_str("-C"), String::from_str(dir), String::from_str("pull")];
    if branch.unicode_len() > 0 {
        args.push(String::from_str("origin"));
        args.push(String::from_str(branch));
    }
    args
}

/// The branch compared: the one asked for (trimmed), or the current one when
/// none is; the current one is `HEAD` when git could not tell it.
pub fn compared_branches(current: Option<&str>, target: &str) -> (r: (String, String))
    ensures
        r.0@ == match current {
            Some(c) => c@,
            None => "HEAD"@,
        },
        r.1@ == (if trim(target@, CharClass::Whitespace).len() == 0 {
            r.0@
        } else {
            trim(target@, CharClass::Whitespace)
        }),
{
    let cur = match current {
        Some(c) => String::from_str(c),
        None => String::from_str("HEAD"),
    };
    let t = trim_vec(&chars_of(target), CharClass::Whitespace);
    let tgt = if t.len() == 0 {
        String::from_str(cur.as_str())
    } else {
        string_of(&t)
    };
    (cur, tgt)
}

/// The revision range compared: `HEAD...origin/{target}`.
pub fn rev_list_args(target: &str) -> (r: Vec<String>)
    ensures
        r@.len() == 4,
        r@[0]@ == "rev-list"@,
        r@[1]@ == "--left-right"@,
        r@[2]@ == "--count"@,
        r@[3]@ == "HEAD...origin/"@ + target@,
{
    vec![
        String::from_str("rev-list"),
        String::from_str("--left-right"),
        String::from_str("--count"),
        String::from_str("HEAD...origin/").concat(target),
    ]
}

/// The state of a branch from what git printed: `status --porcelain` (dirty
/// when it holds something besides whitespace), whether the `rev-list`
/// comparison succeeded and its counts, and the fetch's output.
pub fn branch_status_from(
    current: String,
    target: String,
    fetch_out: &str,
    porcelain: &str,
    compared: bool,
    counts: &str,
) -> (r: BranchStatus)
    ensures
        r.current@ == current@,
        r.target@ == target@,
        r.has_remote == compared,
        r.dirty == (trim(porcelain@, CharClass::Whitespace).len() > 0),
        compared ==> r.ahead as nat == count_field(ws_fields_seq(counts@), 0) && r.behind as nat
            == count_field(ws_fields_seq(counts@), 1),
        !compared ==> r.ahead == 0 && r.behind == 0,
        r.can_pull == (r.has_remote && r.behind > 0 && !r.dirty),
        r.message@ == summary_message(
            r.has_remote,
            r.ahead,
            r.behind,
            r.dirty,
            "origin/"@ + target@,
            trim(fetch_out@, CharClass::Whitespace),
        ),
{
    let dirty = trim_vec(&chars_of(porcelain), CharClass::Whitespace).len() > 0;
    let remote_ref = String::from_str("origin/").concat(target.as_str());
    let (ahead, behind) = if compared {
        parse_ahead_behind(counts)
    } else {
        (0, 0)
    };
    let fetch = string_of(&trim_vec(&chars_of(fetch_out), CharClass::Whitespace));
    let (can_pull, message) = summarize(compared, ahead, behind, dirty, remote_ref.as_str(), fetch.as_str());
    BranchStatus { current, target, has_remote: compared, ahead, behind, dirty, can_pull, message }
}

// ---------------------------------------------------------------------------
// Deploy
// ---------------------------------------------------------------------------

/// The first progress line of a deploy.
pub fn deploy_header(rel_path: &str, branch: &str) -> (r: String)
    ensures
        r@ == "▶ Deploy de "@ + rel_path@ + (if branch@.len() == 0 {
            Seq::<char>::empty()
        } else {
            " (rama "@ + branch@ + ")"@
        }) + "…"@,
{
    let head = String::from_str("▶ Deploy de ").concat(rel_path);
    let with_branch = if branch.unicode_len() == 0 {
        head
    } else {
        head.concat(" (rama ").concat(branch).concat(")")
    };
    let r = with_branch.concat("…");
    proof {
        if branch@.len() == 0 {
            assert(r@ =~= "▶ Deploy de "@ + rel_path@ + Seq::<char>::empty() + "…"@);
        }
    }
    r
}

/// The `git` arguments of the fast-forward-only pull, from `origin`'s
/// `branch` when one is given.
pub fn deploy_pull_args(branch: &str) -> (r: Vec<String>)
    ensures
        r@.len() == (if branch@.len() == 0 {
            2int
        } else {
            4int
        }),
        r@[0]@ == "pull"@,
        r@[1]@ == "--ff-only"@,
        branch@.len() > 0 ==> r@[2]@ == "origin"@ && r@[3]@ == branch@,
{
    let mut args = vec![String::from_str("pull"), String::from_str("--ff-only")];
    if branch.unicode_len() > 0 {
        args.push(String::from_str("origin"));
        args.push(String::from_str(branch));
    }
    args
}

/// The error when the checkout of the deploy's branch failed.
pub fn checkout_failure(branch: &str, out: &str) -> (r: String)
    ensures
        r@ == "no se pudo hacer checkout de «"@ + branch@ + "» (¿cambios sin commitear?):\n"@ + trim(
            out@,
            CharClass::Whitespace,
        ),
{
    String::from_str("no se pudo hacer checkout de «").concat(branch).concat(
        "» (¿cambios sin commitear?):\n",
    ).concat(string_of(&trim_vec(&chars_of(out), CharClass::Whitespace)).as_str())
}

/// The error when the pull cannot fast-forward.
pub fn pull_failure(out: &str) -> (r: String)
    ensures
        r@ == "git pull --ff-only falló (la rama diverge del remoto): resuélvelo desde el editor.\n"@
            + trim(out@, CharClass::Whitespace),
{
    String::from_str(
        "git pull --ff-only falló (la rama diverge del remoto): resuélvelo desde el editor.\n",
    ).concat(string_of(&trim_vec(&chars_of(out), CharClass::Whitespace)).as_str())
}

/// The build command to run, trimmed; none when it is missing or blank.
pub fn build_command(build_cmd: Option<&str>) -> (r: Option<String>)
    ensures
        match build_cmd {
            Some(c) => if trim(c@, CharClass::Whitespace).len() > 0 {
                r matches Some(x) && x@ == trim(c@, CharClass::Whitespace)
            } else {
                r is None
            },
            None => r is None,
        },
{
    match build_cmd {
        Some(c) => {
            let t = trim_vec(&chars_of(c), CharClass::Whitespace);
            if t.len() > 0 {
                Some(string_of(&t))
            } else {
                None
            }
        },
        None => None,
    }
}

/// How a build folder is named in messages: `raíz` for the repo root.
pub fn build_label(sub: &str) -> (r: String)
    ensures
        r@ == (if sub@.len() == 0 {
            "raíz"@
        } else {
            sub@
        }),
{
    if sub.unicode_len() == 0 {
        String::from_str("raíz")
    } else {
        String::from_str(sub)
    }
}

/// Where the build runs: the repo folder, or the given folder inside it.
pub fn build_workdir(repo_dir: &str, sub: &str) -> (r: String)
    ensures
        r@ == (if sub@.len() == 0 {
            repo_dir@
        } else {
            join_seq(repo_dir@, sub@)
        }),
{
    if sub.unicode_len() == 0 {
        String::from_str(repo_dir)
    } else {
        join(repo_dir, sub)
    }
}

/// `{:?}` of an optional exit code: `Some(n)` or `None`.
pub open spec fn code_debug(code: Option<i32>) -> Seq<char> {
    match code {
        Some(n) => "Some("@ + crate::text::int_text(n as int) + ")"@,
        None => "None"@,
    }
}

/// The error when the deployed folder is not a git repository.
pub fn not_a_repo_message(rel_path: &str) -> (r: String)
    ensures
        r@ == rel_path@ + " no es un repo git"@,
{
    String::from_str(rel_path).concat(" no es un repo git")
}

/// The progress line before checking out the deploy's branch.
pub fn checkout_line(branch: &str) -> (r: String)
    ensures
        r@ == "Cambiando a la rama "@ + branch@ + "…"@,
{
    String::from_str("Cambiando a la rama ").concat(branch).concat("…")
}

/// The progress line before the fast-forward pull.
pub const PULL_LINE: &'static str = "git pull --ff-only…";

/// The error when a configured build folder does not exist in the repo.
pub fn missing_build_dir_message(sub: &str) -> (r: String)
    ensures
        r@ == "la carpeta de build «"@ + sub@ + "» no existe en el repo"@,
{
    String::from_str("la carpeta de build «").concat(sub).concat("» no existe en el repo")
}

/// The progress line before a build runs in `label`.
pub fn build_start_line(label: &str, cmd: &str) -> (r: String)
    ensures
        r@ == "Ejecutando build en "@ + label@ + ": "@ + cmd@,
{
    String::from_str("Ejecutando build en ").concat(label).concat(": ").concat(cmd)
}

/// What a build printed, as progress lines: the lines of its output then
/// its error output (read as one text), each indented by two spaces.
pub open spec fn build_output_seq(output: Seq<char>) -> Seq<Seq<char>> {
    lines_seq(output).map_values(|l: Seq<char>| "  "@ + l)
}

pub fn build_output_lines(stdout: &str, stderr: &str) -> (r: Vec<String>)
    ensures
        r@.map_values(|s: String| s@) == build_output_seq(stdout@ + stderr@),
{
    let all = String::from_str(stdout).concat(stderr);
    let lines = lines_vec(&chars_of(all.as_str()));
    let ghost ls = vv(lines@);
    let mut r: Vec<String> = Vec::new();
    let mut i: usize = 0;
    while i < lines.len()
        invariant
            i <= lines.len(),
            ls == vv(lines@),
            ls == lines_seq(stdout@ + stderr@),
            r@.map_values(|s: String| s@) == ls.take(i as int).map_values(|l: Seq<char>| "  "@ + l),
        decreases lines.len() - i,
    {
        let ghost before = r@.map_values(|s: String| s@);
        r.push(String::from_str("  ").concat(string_of(&lines[i]).as_str()));
        assert(ls[i as int] == lines@[i as int]@);
        assert(r@.map_values(|s: String| s@) =~= before.push("  "@ + ls[i as int]));
        assert(ls.take(i as int + 1) =~= ls.take(i as int).push(ls[i as int]));
        assert(r@.map_values(|s: String| s@) =~= ls.take(i as int + 1).map_values(|l: Seq<char>| "  "@ + l));
        i += 1;
    }
    assert(ls.take(lines.len() as int) =~= ls);
    r
}

/// The progress line after a build succeeded in `label`.
pub fn build_done_line(label: &str) -> (r: String)
    ensures
        r@ == "✓ Build en "@ + label@ + " completado."@,
{
    String::from_str("✓ Build en ").concat(label).concat(" completado.")
}

/// The closing line of a deploy.
pub fn deploy_done_line(rel_path: &str) -> (r: String)
    ensures
        r@ == "✓ Deploy de "@ + rel_path@ + " listo."@,
{
    String::from_str("✓ Deploy de ").concat(rel_path).concat(" listo.")
}

/// The build folders given as one comma-separated text (as the desktop
/// widget sends them): each trimmed and without surrounding `/`, empty ones
/// dropped.
pub open spec fn csv_dirs(parts: Seq<Seq<char>>) -> Seq<Seq<char>>
    decreases parts.len(),
{
    if parts.len() == 0 {
        Seq::empty()
    } else {
        let rest = csv_dirs(parts.drop_last());
        let d = trim(trim(parts.last(), CharClass::Whitespace), CharClass::Is('/'));
        if d.len() == 0 {
            rest
        } else {
            rest.push(d)
        }
    }
}

pub fn build_dirs_from_csv(csv: &str) -> (r: Vec<String>)
    ensures
        r@.map_values(|s: String| s@) == csv_dirs(split_seq(csv@, CharClass::Is(','))),
{
    let parts = split_vec(&chars_of(csv), CharClass::Is(','));
    let ghost ps = vv(parts@);
    let mut r: Vec<String> = Vec::new();
    let mut i: usize = 0;
    assert(ps.take(0) =~= Seq::<Seq<char>>::empty());
    while i < parts.len()
        invariant
            i <= parts.len(),
            ps == vv(parts@),
            ps == split_seq(csv@, CharClass::Is(',')),
            r@.map_values(|s: String| s@) == csv_dirs(ps.take(i as int)),
        decreases parts.len() - i,
    {
        assert(ps.take(i as int + 1).drop_last() =~= ps.take(i as int));
        assert(ps.take(i as int + 1).last() == parts@[i as int]@);
        let d = trim_vec(&trim_vec(&parts[i], CharClass::Whitespace), CharClass::Is('/'));
        if d.len() > 0 {
            let ghost before = r@.map_values(|s: String| s@);
            r.push(string_of(&d));
            assert(r@.map_values(|s: String| s@) =~= before.push(d@));
        }
        i += 1;
    }
    assert(ps.take(parts.len() as int) =~= ps);
    r
}

/// What a deploy does, in order; the caller stops at the first step that
/// fails.
#[derive(Debug, Clone, Copy, PartialEq, Eq, Structural)]
pub enum DeployStep {
    /// `git checkout` of the configured branch.
    Checkout,
    /// `git pull --ff-only` (from `origin` and the branch, when one is set).
    Pull,
    /// The build command in the `i`-th build folder (`build_subdirs`).
    Build(usize),
}

/// The steps of a deploy: the checkout only when a branch is set (not
/// blank), then the pull, then one build per build folder when there is a
/// build command (not blank).
pub open spec fn deploy_steps(branch: Seq<char>, build_cmd: Option<Seq<char>>, dirs: Seq<String>) -> Seq<DeployStep> {
    (if trim(branch, CharClass::Whitespace).len() > 0 {
        seq![DeployStep::Checkout]
    } else {
        Seq::empty()
    }) + seq![DeployStep::Pull] + (if build_cmd matches Some(c) && trim(c, CharClass::Whitespace).len() > 0 {
        Seq::new(build_subdirs_seq(dirs).len(), |i: int| DeployStep::Build(i as usize))
    } else {
        Seq::empty()
    })
}

/// The plan of a deploy of a repo set to `branch`, `build_cmd` and
/// `build_dirs`.
pub fn deploy_plan(branch: &str, build_cmd: Option<&str>, build_dirs: &Vec<String>) -> (r: Vec<DeployStep>)
    ensures
        r@ == deploy_steps(branch@, crate::dumplog::opt_view(build_cmd), build_dirs@),
{
    let mut r: Vec<DeployStep> = Vec::new();
    let b = trim_vec(&chars_of(branch), CharClass::Whitespace);
    if b.len() > 0 {
        r.push(DeployStep::Checkout);
    }
    r.push(DeployStep::Pull);
    let ghost head = r@;
    if build_command(build_cmd).is_some() {
        let subs = build_subdirs(build_dirs);
        let n = subs.len();
        let mut i: usize = 0;
        while i < n
            invariant
                i <= n,
                n == build_subdirs_seq(build_dirs@).len(),
                r@ == head + Seq::new(i as nat, |k: int| DeployStep::Build(k as usize)),
            decreases n - i,
        {
            r.push(DeployStep::Build(i));
            assert(r@ =~= head + Seq::new((i + 1) as nat, |k: int| DeployStep::Build(k as usize)));
            i += 1;
        }
        assert(r@ =~= deploy_steps(branch@, crate::dumplog::opt_view(build_cmd), build_dirs@));
    } else {
        assert(r@ =~= deploy_steps(branch@, crate::dumplog::opt_view(build_cmd), build_dirs@));
    }
    r
}

/// The error when the build failed in `label`.
pub fn build_failure(label: &str, code: Option<i32>) -> (r: String)
    ensures
        r@ == "el build falló en «"@ + label@ + "» (código "@ + code_debug(code)
            + "); revisa la salida y abre el editor."@,
{
    let c = match code {
        Some(n) => String::from_str("Some(").concat(crate::text::int_string(n as i64).as_str()).concat(")"),
        None => String::from_str("None"),
    };
    String::from_str("el build falló en «").concat(label).concat("» (código ").concat(c.as_str()).concat(
        "); revisa la salida y abre el editor.",
    )
}

// ---------------------------------------------------------------------------
// Build folders, scanning and workspaces
// ---------------------------------------------------------------------------

impl Ranked for String {
    /// Text order.
    open spec fn ranks_before(&self, other: &Self) -> bool {
        crate::text::seq_lt(self@, other@)
    }

    fn goes_before(&self, other: &Self) -> (r: bool) {
        crate::text::vec_lt(&chars_of(self.as_str()), &chars_of(other.as_str()))
    }
}

/// A first-level folder of a repo that can hold a build: not `node_modules`,
/// `.git` or `vendor`, and with a `package.json`.
pub open spec fn build_candidate(name: Seq<char>, has_package: bool) -> bool {
    has_package && name != "node_modules"@ && name != ".git"@ && name != "vendor"@
}

pub open spec fn candidates_of(dirs: Seq<(Seq<char>, bool)>) -> Seq<Seq<char>>
    decreases dirs.len(),
{
    if dirs.len() == 0 {
        Seq::empty()
    } else {
        let rest = candidates_of(dirs.drop_last());
        if build_candidate(dirs.last().0, dirs.last().1) {
            rest.push(dirs.last().0)
        } else {
            rest
        }
    }
}

/// The folders offered for the build, sorted: the root (an empty path) when
/// it has a `package.json`, and each candidate first-level folder (`dirs`:
/// name and whether it has a `package.json`).
pub fn build_dir_candidates(root_has_package: bool, dirs: &Vec<(String, bool)>) -> (r: Vec<String>)
    ensures
        exists|found: Seq<String>|
            #![trigger found.len()]
            found.map_values(|s: String| s@) == (if root_has_package {
                seq![Seq::<char>::empty()]
            } else {
                Seq::<Seq<char>>::empty()
            }) + candidates_of(dirs@.map_values(|d: (String, bool)| (d.0@, d.1))) && r@ == sort_ranked(
                found,
            ),
{
    let ghost dv = dirs@.map_values(|d: (String, bool)| (d.0@, d.1));
    let mut out: Vec<String> = Vec::new();
    if root_has_package {
        out.push(String::new());
    }
    let ghost head = out@.map_values(|s: String| s@);
    assert(head =~= (if root_has_package {
        seq![Seq::<char>::empty()]
    } else {
        Seq::<Seq<char>>::empty()
    }));
    let mut i: usize = 0;
    assert(dv.take(0) =~= Seq::<(Seq<char>, bool)>::empty());
    assert(head + candidates_of(dv.take(0)) =~= head);
    while i < dirs.len()
        invariant
            i <= dirs.len(),
            dv == dirs@.map_values(|d: (String, bool)| (d.0@, d.1)),
            out@.map_values(|s: String| s@) == head + candidates_of(dv.take(i as int)),
        decreases dirs.len() - i,
    {
        assert(dv.take(i as int + 1).drop_last() =~= dv.take(i as int));
        assert(dv.take(i as int + 1).last() == (dirs@[i as int].0@, dirs@[i as int].1));
        let name = chars_of(dirs[i].0.as_str());
        let ok = dirs[i].1 && !vec_eq_str(&name, "node_modules") && !vec_eq_str(&name, ".git")
            && !vec_eq_str(&name, "vendor");
        if ok {
            let ghost before = out@.map_values(|s: String| s@);
            out.push(String::from_str(dirs[i].0.as_str()));
            assert(out@.map_values(|s: String| s@) =~= before.push(dirs@[i as int].0@));
            assert(head + candidates_of(dv.take(i as int)).push(dirs@[i as int].0@) =~= (head
                + candidates_of(dv.take(i as int))).push(dirs@[i as int].0@));
        }
        i += 1;
    }
    assert(dv.take(dirs.len() as int) =~= dv);
    sort_stable(out)
}

impl Ranked for DetectedRepo {
    /// By path.
    open spec fn ranks_before(&self, other: &Self) -> bool {
        crate::text::seq_lt(self.path@, other.path@)
    }

    fn goes_before(&self, other: &Self) -> (r: bool) {
        crate::text::vec_lt(&chars_of(self.path.as_str()), &chars_of(other.path.as_str()))
    }
}

/// A repo found on disk: its path relative to `public/`, its folder name,
/// and what git said of its remote and branch.
#[derive(Debug)]
pub struct FoundRepo {
    pub path: String,
    pub name: String,
    pub remote: Option<String>,
    pub branch: Option<String>,
}

/// Whether some registered repo has the path `p`.
pub open spec fn registered_path(repos: Seq<GithubRepo>, p: Seq<char>) -> bool {
    exists|i: int| 0 <= i < repos.len() && (#[trigger] repos[i]).path@ == p
}

/// The repos found under `wp-content/`, marked when the project already
/// registers their path, sorted by path.
pub fn detected_repos(found: Vec<FoundRepo>, registered: &Vec<GithubRepo>) -> (r: Vec<DetectedRepo>)
    ensures
        exists|marked: Seq<DetectedRepo>|
            #![trigger marked.len()]
            marked.len() == found@.len() && (forall|i: int|
                0 <= i < found@.len() ==> (#[trigger] marked[i]).path == found@[i].path
                    && marked[i].name == found@[i].name && marked[i].remote == found@[i].remote
                    && marked[i].branch == found@[i].branch && marked[i].registered
                    == registered_path(registered@, found@[i].path@)) && r@ == sort_ranked(marked),
{
    let ghost all = found@;
    let mut rest = found;
    let mut rev: Vec<DetectedRepo> = Vec::new();
    while rest.len() > 0
        invariant
            rest@ == all.take(rest@.len() as int),
            rest@.len() + rev@.len() == all.len(),
            forall|j: int|
                0 <= j < rev@.len() ==> {
                    let k = all.len() - 1 - j;
                    &&& (#[trigger] rev@[j]).path == all[k].path
                    &&& rev@[j].name == all[k].name
                    &&& rev@[j].remote == all[k].remote
                    &&& rev@[j].branch == all[k].branch
                    &&& rev@[j].registered == registered_path(registered@, all[k].path@)
                },
        decreases rest.len(),
    {
        let ghost before = rest@;
        let f = rest.pop().unwrap();
        let ghost k = rest@.len() as int;
        assert(before[k] == f);
        assert(all.take(k + 1)[k] == all[k]);
        assert(rest@ =~= all.take(k));
        let pv = chars_of(f.path.as_str());
        let mut reg = false;
        let mut i: usize = 0;
        while i < registered.len()
            invariant
                i <= registered.len(),
                pv@ == f.path@,
                reg == exists|j: int| 0 <= j < i && (#[trigger] registered@[j]).path@ == pv@,
            decreases registered.len() - i,
        {
            if vec_eq_str(&pv, registered[i].path.as_str()) {
                reg = true;
            }
            i += 1;
        }
        rev.push(DetectedRepo { path: f.path, name: f.name, remote: f.remote, branch: f.branch, registered: reg });
    }
    let mut marked: Vec<DetectedRepo> = Vec::new();
    while rev.len() > 0
        invariant
            marked@.len() + rev@.len() == all.len(),
            forall|j: int|
                0 <= j < rev@.len() ==> {
                    let k = all.len() - 1 - j;
                    &&& (#[trigger] rev@[j]).path == all[k].path
                    &&& rev@[j].name == all[k].name
                    &&& rev@[j].remote == all[k].remote
                    &&& rev@[j].branch == all[k].branch
                    &&& rev@[j].registered == registered_path(registered@, all[k].path@)
                },
            forall|i: int|
                0 <= i < marked@.len() ==> (#[trigger] marked@[i]).path == all[i].path && marked@[i].name
                    == all[i].name && marked@[i].remote == all[i].remote && marked@[i].branch
                    == all[i].branch && marked@[i].registered == registered_path(registered@, all[i].path@),
        decreases rev.len(),
    {
        let ghost j = rev@.len() - 1;
        let d = rev.pop().unwrap();
        marked.push(d);
    }
    let ghost m = marked@;
    sort_stable(marked)
}

/// What is recorded of a repo already on disk: its `origin` (empty when
/// none) and its branch (`main` when git could not tell).
pub fn repo_meta(remote: Option<String>, branch: Option<String>) -> (r: (String, String))
    ensures
        r.0@ == match remote {
            Some(x) => x@,
            None => Seq::<char>::empty(),
        },
        r.1@ == match branch {
            Some(b) => b@,
            None => "main"@,
        },
{
    let rm = match remote {
        Some(x) => x,
        None => String::new(),
    };
    let br = match branch {
        Some(b) => b,
        None => String::from_str("main"),
    };
    (rm, br)
}

/// What a git query printed, trimmed; none when it failed or printed
/// nothing.
pub fn git_answer(ok: bool, stdout: &str) -> (r: Option<String>)
    ensures
        (ok && trim(stdout@, CharClass::Whitespace).len() > 0) ==> (r matches Some(x) && x@ == trim(
            stdout@,
            CharClass::Whitespace,
        )),
        !(ok && trim(stdout@, CharClass::Whitespace).len() > 0) ==> r is None,
{
    if !ok {
        return None;
    }
    let t = trim_vec(&chars_of(stdout), CharClass::Whitespace);
    if t.len() > 0 {
        Some(string_of(&t))
    } else {
        None
    }
}

/// The editors tried, in order, to open a project.
pub open spec fn editor_candidates_seq() -> Seq<Seq<char>> {
    seq!["code"@, "codium"@, "code-insiders"@, "vscodium"@]
}

pub fn editor_candidates() -> (r: Vec<&'static str>)
    ensures
        r@.map_values(|s: &str| s@) == editor_candidates_seq(),
{
    let r = vec!["code", "codium", "code-insiders", "vscodium"];
    assert(r@.map_values(|s: &str| s@) =~= editor_candidates_seq());
    r
}

/// A project name made safe for a file name: alphanumeric characters, `-` and
/// `_` kept, anything else a `-`.
pub open spec fn safe_name_seq(name: Seq<char>) -> Seq<char> {
    name.map_values(
        |c: char|
            if crate::wordpress::unicode_alphanumeric(c) || c == '-' || c == '_' {
                c
            } else {
                '-'
            },
    )
}

/// The project's editor workspace file: `{path}/{safe name}.code-workspace`.
pub fn workspace_file(site: &SiteConfig) -> (r: String)
    ensures
        r@ == join_seq(site.path@, safe_name_seq(site.name@) + ".code-workspace"@),
{
    let v = chars_of(site.name.as_str());
    let mut out: Vec<char> = Vec::new();
    let mut i: usize = 0;
    while i < v.len()
        invariant
            i <= v.len(),
            v@ == site.name@,
            out@ == safe_name_seq(v@.take(i as int)),
        decreases v.len() - i,
    {
        let c = v[i];
        let m = if crate::wordpress::is_alphanumeric(c) || c == '-' || c == '_' {
            c
        } else {
            '-'
        };
        out.push(m);
        assert(safe_name_seq(v@.take(i as int + 1)) =~= safe_name_seq(v@.take(i as int)).push(m));
        i += 1;
    }
    assert(v@.take(v.len() as int) =~= v@);
    let file = string_of(&out).concat(".code-workspace");
    join(site.path.as_str(), file.as_str())
}

/// The folders of the workspace (name, path relative to the project): the
/// public folder, then each repo found under `wp-content/`.
pub fn workspace_folders(site: &SiteConfig, repos: &Vec<DetectedRepo>) -> (r: Vec<(String, String)>)
    ensures
        r@.len() == repos@.len() + 1,
        r@[0].0@ == site.name@ + " (public)"@,
        r@[0].1@ == "app/public"@,
        forall|i: int|
            0 <= i < repos@.len() ==> (#[trigger] r@[i + 1]).0@ == repos@[i].name@ && r@[i + 1].1@
                == join_seq("app/public"@, repos@[i].path@),
{
    let mut r: Vec<(String, String)> = Vec::new();
    r.push((String::from_str(site.name.as_str()).concat(" (public)"), String::from_str("app/public")));
    let mut i: usize = 0;
    while i < repos.len()
        invariant
            i <= repos.len(),
            r@.len() == i + 1,
            r@[0].0@ == site.name@ + " (public)"@,
            r@[0].1@ == "app/public"@,
            forall|j: int|
                0 <= j < i ==> (#[trigger] r@[j + 1]).0@ == repos@[j].name@ && r@[j + 1].1@ == join_seq(
                    "app/public"@,
                    repos@[j].path@,
                ),
        decreases repos.len() - i,
    {
        r.push((String::from_str(repos[i].name.as_str()), join("app/public", repos[i].path.as_str())));
        i += 1;
    }
    r
}

/// Checks that a folder to delete lies inside the project's `wp-content`
/// (`canon`: the folder's canonical path, or its plain path when that could
/// not be had). The error names the relative path given.
pub fn check_removable(canon: &str, wp_content: &str, rel_path: &str) -> (r: Result<(), String>)
    ensures
        crate::paths::path_starts_with(canon@, wp_content@) ==> r is Ok,
        !crate::paths::path_starts_with(canon@, wp_content@) ==> (r matches Err(m) && m@
            == "ruta fuera de wp-content, no se borra: "@ + rel_path@),
{
    if crate::paths::starts_with(canon, wp_content) {
        Ok(())
    } else {
        Err(String::from_str("ruta fuera de wp-content, no se borra: ").concat(rel_path))
    }
}

// ---------------------------------------------------------------------------
// The registered repos of a project
// ---------------------------------------------------------------------------

/// Where a repo is cloned: the path given when it is not blank, else the one
/// proposed from its kind and name.
pub fn clone_target_path(path: Option<&str>, kind: &str, repo: &str) -> (r: String)
    ensures
        r@ == match path {
            Some(p) => if trim(p@, CharClass::Whitespace).len() > 0 {
                p@
            } else {
                propose_path_seq(kind@, repo@)
            },
            None => propose_path_seq(kind@, repo@),
        },
{
    match path {
        Some(p) => {
            if trim_vec(&chars_of(p), CharClass::Whitespace).len() > 0 {
                String::from_str(p)
            } else {
                propose_path(kind, repo)
            }
        },
        None => propose_path(kind, repo),
    }
}

/// Registers a repo at `path` unless one is registered there already (then
/// nothing changes). Returns whether it was added.
pub fn register_repo(repos: &mut Vec<GithubRepo>, repo: String, branch: String, path: String) -> (added: bool)
    ensures
        added == !registered_path(old(repos)@, path@),
        added ==> final(repos)@.len() == old(repos)@.len() + 1 && final(repos)@.take(old(repos)@.len() as int)
            == old(repos)@ && final(repos)@.last().repo == repo && final(repos)@.last().branch == branch
            && final(repos)@.last().path == path && final(repos)@.last().build_cmd is None
            && final(repos)@.last().build_dirs@.len() == 0,
        !added ==> final(repos)@ == old(repos)@,
{
    let pv = chars_of(path.as_str());
    let mut i: usize = 0;
    while i < repos.len()
        invariant
            i <= repos.len(),
            pv@ == path@,
            forall|j: int| 0 <= j < i ==> (#[trigger] repos@[j]).path@ != path@,
        decreases repos.len() - i,
    {
        if vec_eq_str(&pv, repos[i].path.as_str()) {
            return false;
        }
        i += 1;
    }
    let ghost before = repos@;
    repos.push(GithubRepo { repo, branch, path, build_cmd: None, build_dirs: Vec::new() });
    assert(repos@.take(before.len() as int) =~= before);
    true
}

/// The registered repos without those at `path`, in order.
pub open spec fn without_path(repos: Seq<GithubRepo>, path: Seq<char>) -> Seq<GithubRepo>
    decreases repos.len(),
{
    if repos.len() == 0 {
        repos
    } else {
        let rest = without_path(repos.drop_last(), path);
        if repos.last().path@ == path {
            rest
        } else {
            rest.push(repos.last())
        }
    }
}

/// Unregisters the repos at `path`.
pub fn unregister_repo(repos: &mut Vec<GithubRepo>, path: &str)
    ensures
        final(repos)@ == without_path(old(repos)@, path@),
{
    let pv = chars_of(path);
    let ghost all = repos@;
    let mut src: Vec<GithubRepo> = Vec::new();
    std::mem::swap(&mut src, repos);
    let mut rev: Vec<GithubRepo> = Vec::new();
    while src.len() > 0
        invariant
            src@ == all.take(src@.len() as int),
            src@.len() <= all.len(),
            pv@ == path@,
            without_path(all, path@) == without_path(src@, path@) + rev@.reverse(),
        decreases src.len(),
    {
        let ghost before = src@;
        let ghost before_rev = rev@;
        let r = src.pop().unwrap();
        assert(src@ =~= before.drop_last());
        assert(src@ =~= all.take(src@.len() as int));
        if !vec_eq_str(&pv, r.path.as_str()) {
            rev.push(r);
            assert(rev@.reverse() =~= seq![r] + before_rev.reverse());
            assert(without_path(src@, path@).push(r) + before_rev.reverse() =~= without_path(src@, path@)
                + rev@.reverse());
        }
    }
    assert(without_path(src@, path@) =~= Seq::<GithubRepo>::empty());
    while rev.len() > 0
        invariant
            without_path(all, path@) == repos@ + rev@.reverse(),
        decreases rev.len(),
    {
        let ghost before = rev@;
        let r = rev.pop().unwrap();
        assert(before.reverse() =~= seq![r] + rev@.reverse());
        repos.push(r);
    }
    assert(repos@ =~= without_path(all, path@));
}

/// The deploy settings applied to a repo: its branch (when the one given is
/// not blank, trimmed), its build command (trimmed, none when blank) and its
/// build folders (each trimmed and without surrounding `/`); its repo and path
/// kept.
pub open spec fn deploy_applied(
    old: GithubRepo,
    new: GithubRepo,
    branch: Seq<char>,
    build_cmd: Option<Seq<char>>,
    build_dirs: Seq<Seq<char>>,
) -> bool {
    &&& new.repo == old.repo
    &&& new.path == old.path
    &&& if trim(branch, CharClass::Whitespace).len() > 0 {
        new.branch@ == trim(branch, CharClass::Whitespace)
    } else {
        new.branch == old.branch
    }
    &&& match build_cmd {
        Some(c) => if trim(c, CharClass::Whitespace).len() > 0 {
            new.build_cmd matches Some(x) && x@ == trim(c, CharClass::Whitespace)
        } else {
            new.build_cmd is None
        },
        None => new.build_cmd is None,
    }
    &&& new.build_dirs@.len() == build_dirs.len()
    &&& forall|i: int|
        0 <= i < build_dirs.len() ==> (#[trigger] new.build_dirs@[i])@ == trim(
            trim(build_dirs[i], CharClass::Whitespace),
            CharClass::Is('/'),
        )
}

fn apply_deploy(old: GithubRepo, branch: &str, build_cmd: Option<&str>, build_dirs: &Vec<String>) -> (new: GithubRepo)
    ensures
        deploy_applied(
            old,
            new,
            branch@,
            crate::dumplog::opt_view(build_cmd),
            build_dirs@.map_values(|d: String| d@),
        ),
{
    let t = trim_vec(&chars_of(branch), CharClass::Whitespace);
    let cmd = build_command(build_cmd);
    let mut dirs: Vec<String> = Vec::new();
    let mut i: usize = 0;
    while i < build_dirs.len()
        invariant
            i <= build_dirs.len(),
            dirs@.len() == i,
            forall|j: int| 0 <= j < i ==> (#[trigger] dirs@[j])@ == trim(
                trim(build_dirs@[j]@, CharClass::Whitespace),
                CharClass::Is('/'),
            ),
        decreases build_dirs.len() - i,
    {
        let a = trim_vec(&chars_of(build_dirs[i].as_str()), CharClass::Whitespace);
        dirs.push(string_of(&trim_vec(&a, CharClass::Is('/'))));
        i += 1;
    }
    let new_branch = if t.len() > 0 {
        string_of(&t)
    } else {
        old.branch
    };
    GithubRepo { repo: old.repo, branch: new_branch, path: old.path, build_cmd: cmd, build_dirs: dirs }
}

/// The index of the first registered repo at `path`.
pub open spec fn first_at(repos: Seq<GithubRepo>, path: Seq<char>, k: int) -> bool {
    &&& 0 <= k < repos.len()
    &&& repos[k].path@ == path
    &&& forall|j: int| 0 <= j < k ==> (#[trigger] repos[j]).path@ != path
}

fn find_repo(repos: &Vec<GithubRepo>, path: &str) -> (r: Option<usize>)
    ensures
        match r {
            Some(k) => first_at(repos@, path@, k as int),
            None => !registered_path(repos@, path@),
        },
{
    let pv = chars_of(path);
    let mut k: usize = 0;
    while k < repos.len()
        invariant
            k <= repos.len(),
            pv@ == path@,
            forall|j: int| 0 <= j < k ==> (#[trigger] repos@[j]).path@ != path@,
        decreases repos.len() - k,
    {
        if vec_eq_str(&pv, repos[k].path.as_str()) {
            return Some(k);
        }
        k += 1;
    }
    None
}

/// Stores the deploy settings of the first repo registered at `path`; fails
/// when none is.
pub fn set_deploy(repos: &mut Vec<GithubRepo>, path: &str, branch: &str, build_cmd: Option<&str>, build_dirs: &Vec<String>) -> (r: Result<(), String>)
    ensures
        !registered_path(old(repos)@, path@) ==> (r matches Err(m) && m@
            == "el repo no está registrado; regístralo primero"@ && final(repos)@ == old(repos)@),
        registered_path(old(repos)@, path@) ==> (r is Ok && exists|k: int|
            #[trigger] first_at(old(repos)@, path@, k) && final(repos)@ == old(repos)@.update(k, final(repos)@[k])
                && deploy_applied(
                old(repos)@[k],
                final(repos)@[k],
                branch@,
                crate::dumplog::opt_view(build_cmd),
                build_dirs@.map_values(|d: String| d@),
            )),
{
    match find_repo(repos, path) {
        None => Err(String::from_str("el repo no está registrado; regístralo primero")),
        Some(k) => {
            let ghost before = repos@;
            let old_repo = repos.remove(k);
            let new_repo = apply_deploy(old_repo, branch, build_cmd, build_dirs);
            repos.insert(k, new_repo);
            proof {
                assert(repos@ =~= before.update(k as int, repos@[k as int]));
                assert(first_at(before, path@, k as int));
            }
            Ok(())
        },
    }
}

/// The report of pulling every registered repo: for each, a header with its
/// path and repo, then what the pull printed (or its error); a notice when
/// none is registered.
pub open spec fn pull_all_seq(results: Seq<(Seq<char>, Seq<char>, Seq<char>)>) -> Seq<char>
    decreases results.len(),
{
    if results.len() == 0 {
        Seq::<char>::empty()
    } else {
        let (path, repo, text) = results.last();
        pull_all_seq(results.drop_last()) + "== "@ + path + " ("@ + repo + ") ==\n"@ + text + "\n"@
    }
}

pub fn pull_all_report(results: &Vec<(String, String, String)>) -> (r: String)
    ensures
        results@.len() == 0 ==> r@ == "No hay repos registrados."@,
        results@.len() > 0 ==> r@ == pull_all_seq(results@.map_values(|x: (String, String, String)| (x.0@, x.1@, x.2@))),
{
    if results.len() == 0 {
        return String::from_str("No hay repos registrados.");
    }
    let ghost all = results@.map_values(|x: (String, String, String)| (x.0@, x.1@, x.2@));
    let mut out = String::new();
    let mut i: usize = 0;
    assert(all.take(0) =~= Seq::<(Seq<char>, Seq<char>, Seq<char>)>::empty());
    while i < results.len()
        invariant
            i <= results.len(),
            all == results@.map_values(|x: (String, String, String)| (x.0@, x.1@, x.2@)),
            out@ == pull_all_seq(all.take(i as int)),
        decreases results.len() - i,
    {
        assert(all.take(i as int + 1).drop_last() =~= all.take(i as int));
        assert(all.take(i as int + 1).last() == (results@[i as int].0@, results@[i as int].1@, results@[i as int].2@));
        let (p, rp, t) = &results[i];
        out = out.concat("== ").concat(p.as_str()).concat(" (").concat(rp.as_str()).concat(") ==\n").concat(
            t.as_str(),
        ).concat("\n");
        i += 1;
    }
    assert(all.take(results.len() as int) =~= all);
    out
}

} // verus!
