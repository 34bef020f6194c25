//! Worktree projects: trying a branch of a theme or plugin in isolation
//! without duplicating the whole WordPress.
//!
//! A worktree project is an ordinary `SiteConfig` with `worktree_of` set. It
//! shares the parent's `public` folder and overlays only the target repo (a
//! `git worktree` in `{path}/wt/{basename}`) and its own `wp-config.php`.

use vstd::prelude::*;

use crate::config::{
    DbService, GithubConfig, NginxService, PhpService, Services, SiteConfig, WorktreeInfo,
};
use crate::slots::is_free_slot;
use crate::wordpress::{db_name_for_slug, db_name_seq};
use crate::text::{
    ascii_slug, ascii_slug_vec, chars_of, dns_safe, has_class, has_prefix, trim, trim_vec,
    vec_contains, vec_eq, vec_has_class, contains_seq, ws_fields, ws_fields_seq, string_of,
    subvec, lemma_ascii_slug_dns_safe, CharClass,
};

verus! {

broadcast use vstd::string::group_string_axioms;

/// Why `branch` is not a valid git branch name, or `None` when it is. Covers
/// the cases that break in practice (a whole pasted command, spaces, quotes);
/// not every rule of `git check-ref-format`.
pub open spec fn invalid_branch_seq(branch: Seq<char>) -> Option<Seq<char>> {
    if has_class(branch, CharClass::Whitespace) {
        Some("no puede contener espacios"@)
    } else if has_prefix(branch, "-"@) {
        Some("no puede empezar por «-»"@)
    } else if contains_seq(branch, ".."@) {
        Some("no puede contener «..»"@)
    } else if has_class(branch, CharClass::RefForbidden) {
        Some("contiene caracteres no permitidos"@)
    } else {
        None
    }
}

/// Reason why `branch` is not a valid branch name, or `None`.
pub fn invalid_branch_reason(branch: &str) -> (r: Option<&'static str>)
    ensures
        match r {
            Some(m) => invalid_branch_seq(branch@) == Some(m@),
            None => invalid_branch_seq(branch@) is None,
        },
{
    let v = chars_of(branch);
    let dots = chars_of("..");
    proof {
        reveal_strlit("-");
    }
    if vec_has_class(&v, CharClass::Whitespace) {
        Some("no puede contener espacios")
    } else if v.len() > 0 && v[0] == '-' {
        assert(v@.subrange(0, 1) =~= seq!['-']);
        assert("-"@ =~= seq!['-']);
        assert(has_prefix(v@, "-"@));
        assert(invalid_branch_seq(branch@) == Some("no puede empezar por «-»"@));
        Some("no puede empezar por «-»")
    } else if vec_contains(&v, &dots) {
        assert(!has_prefix(v@, "-"@)) by {
            if v@.len() > 0 {
                assert(v@.subrange(0, 1)[0] == v@[0]);
            }
        }
        Some("no puede contener «..»")
    } else if vec_has_class(&v, CharClass::RefForbidden) {
        assert(!has_prefix(v@, "-"@)) by {
            if v@.len() > 0 {
                assert(v@.subrange(0, 1)[0] == v@[0]);
            }
        }
        Some("contiene caracteres no permitidos")
    } else {
        assert(!has_prefix(v@, "-"@)) by {
            if v@.len() > 0 {
                assert(v@.subrange(0, 1)[0] == v@[0]);
            }
        }
        None
    }
}

/// Walking the whitespace-separated fields of `fields` from the last one back,
/// the first that, stripped of quotes, is not empty and does not start with
/// `-`.
pub open spec fn last_branch_like(fields: Seq<Seq<char>>) -> Option<Seq<char>>
    decreases fields.len(),
{
    if fields.len() == 0 {
        None
    } else {
        let t = trim(fields.last(), CharClass::Quote);
        if t.len() > 0 && t[0] != '-' {
            Some(t)
        } else {
            last_branch_like(fields.drop_last())
        }
    }
}

/// The branch recovered from a pasted command such as
/// `git checkout -b feature/x`: its last branch-like field, if that is a valid
/// name and differs from what was pasted.
pub open spec fn guess_branch_seq(pasted: Seq<char>) -> Option<Seq<char>> {
    match last_branch_like(ws_fields_seq(pasted)) {
        None => None,
        Some(c) => if invalid_branch_seq(c) is None && c != pasted {
            Some(c)
        } else {
            None
        },
    }
}

/// Tries to recover the branch from a pasted command: drops the command and
/// the quotes and returns the last field that looks like a branch.
pub fn guess_branch(pasted: &str) -> (r: Option<String>)
    ensures
        match r {
            Some(b) => guess_branch_seq(pasted@) == Some(b@),
            None => guess_branch_seq(pasted@) is None,
        },
{
    let v = chars_of(pasted);
    let ranges = ws_fields(&v);
    let ghost fields = ws_fields_seq(v@);
    let mut k: usize = ranges.len();
    assert(fields.take(k as int) =~= fields);
    while k > 0
        invariant
            k <= ranges.len(),
            crate::text::ranges_match(v@, ranges@, fields),
            fields == ws_fields_seq(pasted@),
            v@ == pasted@,
            last_branch_like(fields) == last_branch_like(fields.take(k as int)),
        decreases k,
    {
        let (a, b) = ranges[k - 1];
        let field = subvec(&v, a, b);
        assert(field@ == fields[k - 1]);
        assert(fields.take(k as int).drop_last() =~= fields.take(k - 1));
        assert(fields.take(k as int).last() == fields[k - 1]);
        let t = trim_vec(&field, CharClass::Quote);
        if t.len() > 0 && t[0] != '-' {
            let cs = string_of(&t);
            if invalid_branch_reason(cs.as_str()).is_none() && !vec_eq(&t, &v) {
                return Some(cs);
            } else {
                return None;
            }
        }
        k -= 1;
    }
    assert(fields.take(0) =~= Seq::<Seq<char>>::empty());
    None
}

/// DNS-safe slug of a branch: lowercase, alphanumerics and `-`; `wt` when
/// nothing is left.
pub open spec fn slugify_seq(label: Seq<char>) -> Seq<char> {
    if ascii_slug(label).len() == 0 {
        "wt"@
    } else {
        ascii_slug(label)
    }
}

/// DNS-safe slug of a branch name.
pub fn slugify(label: &str) -> (r: String)
    ensures
        r@ == slugify_seq(label@),
        dns_safe(r@),
{
    let s = ascii_slug_vec(label);
    proof {
        lemma_ascii_slug_dns_safe(label@);
    }
    if s.len() == 0 {
        let r = String::from_str("wt");
        proof {
            reveal_strlit("wt");
        }
        r
    } else {
        string_of(&s)
    }
}

/// (slug, folder, domain) free for a worktree project derived from `base`.
pub fn find_free_slot(root: &str, base: &str, existing: &[SiteConfig], taken: &Vec<String>) -> (r: Option<(
    String,
    String,
    String,
)>)
    ensures
        r matches Some(t) ==> is_free_slot(root@, base@, taken@, existing@, (t.0@, t.1@, t.2@)),
        crate::slots::some_candidate_free(base@, taken@, existing@) ==> r is Some,
{
    crate::slots::find_free_slot(root, base, existing, taken)
}

/// The projects of `sites` that are worktree projects of `parent_id`, in order.
pub open spec fn worktrees_of(sites: Seq<SiteConfig>, parent_id: Seq<char>) -> Seq<SiteConfig>
    decreases sites.len(),
{
    if sites.len() == 0 {
        sites
    } else {
        let rest = worktrees_of(sites.drop_last(), parent_id);
        match sites.last().worktree_of {
            Some(w) => if w.parent_id@ == parent_id {
                rest.push(sites.last())
            } else {
                rest
            },
            None => rest,
        }
    }
}

/// Worktree projects of a parent project (those whose `worktree_of.parent_id`
/// is `parent_id`).
pub fn list_worktrees(sites: Vec<SiteConfig>, parent_id: &str) -> (r: Vec<SiteConfig>)
    ensures
        r@ == worktrees_of(sites@, parent_id@),
{
    let pid = chars_of(parent_id);
    let ghost all = sites@;
    let mut sites = sites;
    // Walk from the back so `pop` hands each project out in turn.
    let mut rev: Vec<SiteConfig> = Vec::new();
    while sites.len() > 0
        invariant
            pid@ == parent_id@,
            sites@ == all.take(sites@.len() as int),
            sites@.len() <= all.len(),
            worktrees_of(all, parent_id@) == worktrees_of(sites@, parent_id@) + rev@.reverse(),
        decreases sites.len(),
    {
        let ghost before = sites@;
        let s = sites.pop().unwrap();
        assert(sites@ =~= before.drop_last());
        assert(sites@ =~= all.take(sites@.len() as int));
        let keep = match &s.worktree_of {
            Some(w) => vec_eq_str_local(&pid, &w.parent_id),
            None => false,
        };
        if keep {
            rev.push(s);
        }
    }
    let mut out: Vec<SiteConfig> = Vec::new();
    while rev.len() > 0
        invariant
            worktrees_of(all, parent_id@) == out@ + rev@.reverse(),
        decreases rev.len(),
    {
        let ghost before = rev@;
        let s = rev.pop().unwrap();
        assert(before.reverse() =~= seq![s] + rev@.reverse());
        out.push(s);
    }
    assert(worktrees_of(sites@, parent_id@) =~= Seq::<SiteConfig>::empty());
    out
}

fn vec_eq_str_local(v: &Vec<char>, s: &String) -> (r: bool)
    ensures
        r == (v@ == s@),
{
    crate::text::vec_eq_str(v, s.as_str())
}

// ---------------------------------------------------------------------------
// Creating a worktree project
// ---------------------------------------------------------------------------

/// Why a branch name given for a worktree was refused.
#[derive(Debug)]
pub enum BranchError {
    /// Nothing but whitespace was given.
    Empty,
    /// The (trimmed) name is not a valid branch: the reason, and the branch
    /// recovered from it when it looks like a pasted command.
    Invalid { branch: String, reason: &'static str, hint: Option<String> },
}

impl BranchError {
    /// The message shown to the user.
    pub fn message(&self) -> (r: String)
        ensures
            r@ == match *self {
                BranchError::Empty => "debes indicar el nombre de la rama del worktree"@,
                BranchError::Invalid { branch, reason, hint } => "«"@ + branch@
                    + "» no es un nombre de rama válido ("@ + reason@
                    + ").\nEscribe SOLO el nombre de la rama (ej. «feature/mi-cambio»), sin «git checkout -b» ni comillas."@
                    + match hint {
                    Some(g) => "\n¿Quisiste decir «"@ + g@ + "»?"@,
                    None => Seq::<char>::empty(),
                },
            },
    {
        match self {
            BranchError::Empty => String::from_str("debes indicar el nombre de la rama del worktree"),
            BranchError::Invalid { branch, reason, hint } => {
                let head = String::from_str("«").concat(branch.as_str()).concat(
                    "» no es un nombre de rama válido (",
                ).concat(reason).concat(
                    ").\nEscribe SOLO el nombre de la rama (ej. «feature/mi-cambio»), sin «git checkout -b» ni comillas.",
                );
                let r = match hint {
                    Some(g) => head.concat("\n¿Quisiste decir «").concat(g.as_str()).concat("»?"),
                    None => head,
                };
                proof {
                    if hint is None {
                        assert(r@ =~= r@ + Seq::<char>::empty());
                    }
                }
                r
            },
        }
    }
}

/// Checks the branch asked for a worktree: trimmed, it must be non-empty and
/// a valid name (with a suggestion when it looks like a pasted command).
/// Returns the trimmed name.
pub fn validate_branch(branch: &str) -> (r: Result<String, BranchError>)
    ensures
        ({
            let b = trim(branch@, CharClass::Whitespace);
            if b.len() == 0 {
                r matches Err(BranchError::Empty)
            } else {
                match invalid_branch_seq(b) {
                    None => r matches Ok(s) && s@ == b,
                    Some(why) => r matches Err(BranchError::Invalid { branch: x, reason, hint }) && x@ == b
                        && reason@ == why && match guess_branch_seq(b) {
                        Some(g) => hint matches Some(h) && h@ == g,
                        None => hint is None,
                    },
                }
            }
        }),
{
    let b = string_of(&trim_vec(&chars_of(branch), CharClass::Whitespace));
    if b.unicode_len() == 0 {
        return Err(BranchError::Empty);
    }
    match invalid_branch_reason(b.as_str()) {
        None => Ok(b),
        Some(reason) => {
            let hint = guess_branch(b.as_str());
            Err(BranchError::Invalid { branch: b, reason, hint })
        },
    }
}

/// The target repo's path as stored: trimmed, without leading or trailing `/`.
pub fn clean_target_path(target_path: &str) -> (r: String)
    ensures
        r@ == trim(trim(target_path@, CharClass::Whitespace), CharClass::Is('/')),
{
    let t = trim_vec(&chars_of(target_path), CharClass::Whitespace);
    string_of(&trim_vec(&t, CharClass::Is('/')))
}

/// The slug a worktree project starts from: `{parent_dirname}-{branch slug}`.
pub fn base_slug(parent_dirname: &str, branch: &str) -> (r: String)
    ensures
        r@ == parent_dirname@ + "-"@ + slugify_seq(branch@),
{
    String::from_str(parent_dirname).concat("-").concat(slugify(branch).as_str())
}

/// What `create_worktree` records for the worktree project of `parent`: the
/// parent's name and branch as its name, the free slot (`slug`, `path`,
/// `domain`), the parent's group, PHP, TLS and database engine, the parent's
/// schema when the database is shared (else `{slug}_db`), and the worktree
/// link.
pub open spec fn worktree_config_ok(
    parent: SiteConfig,
    parent_id: Seq<char>,
    parent_dirname: Seq<char>,
    target_path: Seq<char>,
    branch: Seq<char>,
    shared_db: bool,
    slot: (Seq<char>, Seq<char>, Seq<char>),
    id: Seq<char>,
    created_at: Seq<char>,
    s: SiteConfig,
) -> bool {
    &&& s.id@ == id
    &&& s.name@ == parent.name@ + " · "@ + branch
    &&& s.path@ == slot.1
    &&& s.domain@ == slot.2
    &&& crate::config::opt_text(s.group) == crate::config::opt_text(parent.group)
    &&& s.created_at@ == created_at
    &&& s.services.php.version@ == parent.services.php.version@
    &&& s.services.nginx.ssl == parent.services.nginx.ssl
    &&& s.services.db.db_type == parent.services.db.db_type
    &&& s.services.db.version@ == parent.services.db.version@
    &&& s.services.db.db_name@ == (if shared_db {
        parent.services.db.db_name@
    } else {
        db_name_seq(slot.0)
    })
    &&& s.github.repos@.len() == 0 && s.github.theme is None && s.github.plugins@.len() == 0
    &&& s.one_click_admin == parent.one_click_admin
    &&& s.xdebug_enabled == parent.xdebug_enabled
    &&& !s.headless
    &&& s.frontend_framework is None
    &&& !s.minio
    &&& !s.migration_pending
    &&& s.last_migrated_at is None
    &&& s.clone_of is None
    &&& s.worktree_of matches Some(w) && w.parent_id@ == parent_id && w.parent_dirname@ == parent_dirname
        && w.target_path@ == target_path && w.branch@ == branch && w.shared_db == shared_db
        && w.created_at@ == created_at
    &&& s.snapshot_excludes@.len() == 0
}

pub fn worktree_config(
    parent: &SiteConfig,
    parent_id: &str,
    parent_dirname: &str,
    target_path: &str,
    branch: &str,
    shared_db: bool,
    slot: (&str, &str, &str),
    id: &str,
    created_at: &str,
) -> (s: SiteConfig)
    ensures
        worktree_config_ok(
            *parent,
            parent_id@,
            parent_dirname@,
            target_path@,
            branch@,
            shared_db,
            (slot.0@, slot.1@, slot.2@),
            id@,
            created_at@,
            s,
        ),
{
    let db_name = if shared_db {
        String::from_str(parent.services.db.db_name.as_str())
    } else {
        db_name_for_slug(slot.0)
    };
    let group = match &parent.group {
        Some(g) => Some(String::from_str(g.as_str())),
        None => None,
    };
    let s = SiteConfig {
        id: String::from_str(id),
        name: String::from_str(parent.name.as_str()).concat(" · ").concat(branch),
        path: String::from_str(slot.1),
        domain: String::from_str(slot.2),
        group,
        created_at: String::from_str(created_at),
        services: Services {
            php: PhpService { version: String::from_str(parent.services.php.version.as_str()) },
            nginx: NginxService { ssl: parent.services.nginx.ssl },
            db: DbService {
                db_type: parent.services.db.db_type,
                version: String::from_str(parent.services.db.version.as_str()),
                db_name,
            },
        },
        github: GithubConfig::default(),
        one_click_admin: parent.one_click_admin,
        xdebug_enabled: parent.xdebug_enabled,
        headless: false,
        frontend_framework: None,
        minio: false,
        migration_pending: false,
        last_migrated_at: None,
        clone_of: None,
        worktree_of: Some(
            WorktreeInfo {
                parent_id: String::from_str(parent_id),
                parent_dirname: String::from_str(parent_dirname),
                target_path: String::from_str(target_path),
                branch: String::from_str(branch),
                shared_db,
                created_at: String::from_str(created_at),
            },
        ),
        snapshot_excludes: Vec::new(),
    };
    s
}

/// `worktree_config` with a fresh random id and the current time; `None`
/// when the system gives no random id or no current time.
pub fn new_worktree_config(
    parent: &SiteConfig,
    parent_id: &str,
    parent_dirname: &str,
    target_path: &str,
    branch: &str,
    shared_db: bool,
    slot: (&str, &str, &str),
) -> (r: Option<SiteConfig>)
    ensures
        r matches Some(s) ==> crate::ids::is_uuid_v4_text(s.id@) && exists|created_at: Seq<char>|
            crate::clock::is_rfc3339_utc(created_at) && #[trigger] worktree_config_ok(
                *parent,
                parent_id@,
                parent_dirname@,
                target_path@,
                branch@,
                shared_db,
                (slot.0@, slot.1@, slot.2@),
                s.id@,
                created_at,
                s,
            ),
{
    let id = match crate::ids::new_uuid() {
        Some(id) => id,
        None => {
            return None;
        },
    };
    let now = match crate::clock::now_rfc3339() {
        Some(now) => now,
        None => {
            return None;
        },
    };
    let s = worktree_config(parent, parent_id, parent_dirname, target_path, branch, shared_db, slot, id.as_str(), now.as_str());
    assert(worktree_config_ok(
        *parent,
        parent_id@,
        parent_dirname@,
        target_path@,
        branch@,
        shared_db,
        (slot.0@, slot.1@, slot.2@),
        s.id@,
        now@,
        s,
    ));
    Some(s)
}

/// The full `git` arguments that run `args` in `repo` (`-C repo`).
pub fn git_args(repo: &str, args: &Vec<String>) -> (r: Vec<String>)
    ensures
        r@.len() == args@.len() + 2,
        r@[0]@ == "-C"@,
        r@[1]@ == repo@,
        forall|i: int| 0 <= i < args@.len() ==> (#[trigger] r@[i + 2])@ == args@[i]@,
{
    let mut r = vec![String::from_str("-C"), String::from_str(repo)];
    let mut i: usize = 0;
    while i < args.len()
        invariant
            i <= args.len(),
            r@.len() == i + 2,
            r@[0]@ == "-C"@,
            r@[1]@ == repo@,
            forall|j: int| 0 <= j < i ==> (#[trigger] r@[j + 2])@ == args@[j]@,
        decreases args.len() - i,
    {
        r.push(String::from_str(args[i].as_str()));
        i += 1;
    }
    r
}

/// First attempt at the worktree: a new branch `branch` checked out in
/// `dest`, from `base` when one is given (not blank), else from the current
/// branch.
pub fn add_new_branch_args(dest: &str, branch: &str, base: Option<&str>) -> (r: Vec<String>)
    ensures
        r@.len() >= 5,
        r@[0]@ == "worktree"@,
        r@[1]@ == "add"@,
        r@[2]@ == "-b"@,
        r@[3]@ == branch@,
        r@[4]@ == dest@,
        match base {
            Some(b) => if trim(b@, CharClass::Whitespace).len() > 0 {
                r@.len() == 6 && r@[5]@ == b@
            } else {
                r@.len() == 5
            },
            None => r@.len() == 5,
        },
{
    let mut r = vec![
        String::from_str("worktree"),
        String::from_str("add"),
        String::from_str("-b"),
        String::from_str(branch),
        String::from_str(dest),
    ];
    match base {
        Some(b) => {
            if trim_vec(&chars_of(b), CharClass::Whitespace).len() > 0 {
                r.push(String::from_str(b));
            }
        },
        None => {},
    }
    r
}

/// Second attempt, when the branch already exists: check it out in `dest`.
pub fn add_existing_branch_args(dest: &str, branch: &str) -> (r: Vec<String>)
    ensures
        r@.len() == 4,
        r@[0]@ == "worktree"@,
        r@[1]@ == "add"@,
        r@[2]@ == dest@,
        r@[3]@ == branch@,
{
    vec![String::from_str("worktree"), String::from_str("add"), String::from_str(dest), String::from_str(branch)]
}

/// The error when both attempts failed, with each one's error output trimmed.
pub fn add_failure_message(err1: &str, err2: &str) -> (r: String)
    ensures
        r@ == "git worktree add falló: "@ + trim(err1@, CharClass::Whitespace) + " "@ + trim(
            err2@,
            CharClass::Whitespace,
        ),
{
    String::from_str("git worktree add falló: ").concat(
        string_of(&trim_vec(&chars_of(err1), CharClass::Whitespace)).as_str(),
    ).concat(" ").concat(string_of(&trim_vec(&chars_of(err2), CharClass::Whitespace)).as_str())
}

/// Removing the worktree in `dest` (the branch stays in the parent's repo).
pub fn remove_args(dest: &str) -> (r: Vec<String>)
    ensures
        r@.len() == 4,
        r@[0]@ == "worktree"@,
        r@[1]@ == "remove"@,
        r@[2]@ == "--force"@,
        r@[3]@ == dest@,
{
    vec![String::from_str("worktree"), String::from_str("remove"), String::from_str("--force"), String::from_str(dest)]
}

/// Deleting the branch from the parent's repo.
pub fn delete_branch_args(branch: &str) -> (r: Vec<String>)
    ensures
        r@.len() == 3,
        r@[0]@ == "branch"@,
        r@[1]@ == "-D"@,
        r@[2]@ == branch@,
{
    vec![String::from_str("branch"), String::from_str("-D"), String::from_str(branch)]
}

/// The WP-CLI arguments that fix the constant `name` (`WP_HOME` or
/// `WP_SITEURL`) to `url` in the worktree's own `wp-config.php`, leaving the
/// parent's shared database untouched.
pub fn url_constant_args(name: &str, url: &str) -> (r: Vec<String>)
    ensures
        r@.len() == 5,
        r@[0]@ == "config"@,
        r@[1]@ == "set"@,
        r@[2]@ == name@,
        r@[3]@ == url@,
        r@[4]@ == "--type=constant"@,
{
    vec![
        String::from_str("config"),
        String::from_str("set"),
        String::from_str(name),
        String::from_str(url),
        String::from_str("--type=constant"),
    ]
}

// ---------------------------------------------------------------------------
// The creation, step by step
// ---------------------------------------------------------------------------

/// What creating a worktree project does, in order. The caller performs each
/// action; when one fails it removes the half-made project.
#[derive(Debug, Clone, Copy, PartialEq, Eq, Structural)]
pub enum CreationStep {
    /// Folders, `php.ini`, an empty own `wp-config.php` and `config.json`.
    PrepareFolder,
    /// `git worktree add` of the target repo on the new branch.
    AddWorktree,
    /// The parent's schema is used as it is.
    ShareDatabase,
    /// A schema of its own, filled from a dump of the parent's.
    CopyDatabase,
    /// The TLS certificate for the worktree's domain.
    GenerateCert,
    /// TLS is off: no certificate.
    SkipCert,
    /// The PHP container and the vhost.
    Start,
    /// `wp config create` for the worktree's own `wp-config.php`.
    WriteWpConfig,
    /// `WP_HOME` and `WP_SITEURL` fixed as constants, so the shared schema
    /// keeps the parent's URLs.
    PinUrls,
    /// The copied schema's URLs moved to the worktree's domain (a failure
    /// here is only a warning).
    FixUrls,
    /// Nothing left to do.
    Finish,
}

/// The steps of a creation: the database step and the last ones depend on
/// whether the schema is shared, the certificate step on TLS.
pub open spec fn creation_steps(shared_db: bool, ssl: bool) -> Seq<CreationStep> {
    seq![
        CreationStep::PrepareFolder,
        CreationStep::AddWorktree,
        if shared_db {
            CreationStep::ShareDatabase
        } else {
            CreationStep::CopyDatabase
        },
        if ssl {
            CreationStep::GenerateCert
        } else {
            CreationStep::SkipCert
        },
        CreationStep::Start,
        CreationStep::WriteWpConfig,
    ] + if shared_db {
        seq![CreationStep::PinUrls, CreationStep::Finish]
    } else {
        seq![CreationStep::FixUrls]
    }
}

pub fn creation_plan(shared_db: bool, ssl: bool) -> (r: Vec<CreationStep>)
    ensures
        r@ == creation_steps(shared_db, ssl),
{
    let mut r = vec![CreationStep::PrepareFolder, CreationStep::AddWorktree];
    r.push(
        if shared_db {
            CreationStep::ShareDatabase
        } else {
            CreationStep::CopyDatabase
        },
    );
    r.push(
        if ssl {
            CreationStep::GenerateCert
        } else {
            CreationStep::SkipCert
        },
    );
    r.push(CreationStep::Start);
    r.push(CreationStep::WriteWpConfig);
    if shared_db {
        r.push(CreationStep::PinUrls);
        r.push(CreationStep::Finish);
    } else {
        r.push(CreationStep::FixUrls);
    }
    assert(r@ =~= creation_steps(shared_db, ssl));
    r
}

/// What the creation does after a step: go on, go on after a warning, or stop
/// and undo what was made.
#[derive(Debug, Clone, Copy, PartialEq, Eq, Structural)]
pub enum StepOutcome {
    Continue,
    Warn,
    Abort,
}

/// After `step` succeeded (`ok`) or failed: a failed URL fix is only a
/// warning; any other failure stops the creation.
pub fn after_step(step: CreationStep, ok: bool) -> (r: StepOutcome)
    ensures
        r == (if ok {
            StepOutcome::Continue
        } else if step == CreationStep::FixUrls {
            StepOutcome::Warn
        } else {
            StepOutcome::Abort
        }),
{
    if ok {
        StepOutcome::Continue
    } else {
        match step {
            CreationStep::FixUrls => StepOutcome::Warn,
            _ => StepOutcome::Abort,
        }
    }
}

/// What undoing a half-made worktree project removes, in order.
#[derive(Debug, Clone, Copy, PartialEq, Eq, Structural)]
pub enum RollbackStep {
    /// The project's PHP container.
    RemoveContainer,
    /// Its nginx vhost.
    RemoveVhost,
    /// Its folder.
    RemoveFolder,
}

pub open spec fn rollback_steps() -> Seq<RollbackStep> {
    seq![RollbackStep::RemoveContainer, RollbackStep::RemoveVhost, RollbackStep::RemoveFolder]
}

/// The removals after a failed creation: the container, the vhost, then the
/// folder.
pub fn rollback_plan() -> (r: Vec<RollbackStep>)
    ensures
        r@ == rollback_steps(),
{
    let r = vec![RollbackStep::RemoveContainer, RollbackStep::RemoveVhost, RollbackStep::RemoveFolder];
    assert(r@ =~= rollback_steps());
    r
}

/// The two lines that open a creation: what is created, then its domain and
/// whether the database is shared.
pub fn creation_intro(branch: &str, parent_name: &str, target_path: &str, domain: &str, shared_db: bool) -> (r: (
    String,
    String,
))
    ensures
        r.0@ == "▶ Creando worktree «"@ + branch@ + "» de «"@ + parent_name@ + "» ("@ + target_path@ + ")."@,
        r.1@ == "  Dominio: "@ + domain@ + " · BD: "@ + (if shared_db {
            "compartida con el padre"@
        } else {
            "copia propia"@
        }),
{
    let first = String::from_str("▶ Creando worktree «").concat(branch).concat("» de «").concat(
        parent_name,
    ).concat("» (").concat(target_path).concat(").");
    let second = String::from_str("  Dominio: ").concat(domain).concat(" · BD: ").concat(
        if shared_db {
            "compartida con el padre"
        } else {
            "copia propia"
        },
    );
    (first, second)
}

/// The line announcing a step (none for `PinUrls`, which belongs to the
/// `wp-config.php` step).
pub open spec fn step_header_seq(step: CreationStep, branch: Seq<char>, domain: Seq<char>) -> Option<Seq<char>> {
    match step {
        CreationStep::PrepareFolder => Some("[1/7] Preparando carpeta del worktree…"@),
        CreationStep::AddWorktree => Some("[2/7] Creando git worktree → rama «"@ + branch + "»…"@),
        CreationStep::ShareDatabase => Some("[3/7] Base de datos: compartida con el padre (sin copia)."@),
        CreationStep::CopyDatabase => Some(
            "[3/7] Base de datos: creando esquema propio y copiando del padre…"@,
        ),
        CreationStep::GenerateCert => Some("[4/7] Generando certificado SSL para "@ + domain + "…"@),
        CreationStep::SkipCert => Some("[4/7] SSL desactivado, se omite."@),
        CreationStep::Start => Some("[5/7] Arrancando el worktree (container PHP + nginx)…"@),
        CreationStep::WriteWpConfig => Some("[6/7] Escribiendo wp-config.php del worktree…"@),
        CreationStep::PinUrls => None,
        CreationStep::FixUrls => Some("[7/7] Ajustando URLs de la copia a "@ + domain + "…"@),
        CreationStep::Finish => Some("[7/7] Listo."@),
    }
}

pub fn step_header(step: CreationStep, branch: &str, domain: &str) -> (r: Option<String>)
    ensures
        match step_header_seq(step, branch@, domain@) {
            Some(t) => r matches Some(x) && x@ == t,
            None => r is None,
        },
{
    match step {
        CreationStep::PrepareFolder => Some(String::from_str("[1/7] Preparando carpeta del worktree…")),
        CreationStep::AddWorktree => Some(
            String::from_str("[2/7] Creando git worktree → rama «").concat(branch).concat("»…"),
        ),
        CreationStep::ShareDatabase => Some(
            String::from_str("[3/7] Base de datos: compartida con el padre (sin copia)."),
        ),
        CreationStep::CopyDatabase => Some(
            String::from_str("[3/7] Base de datos: creando esquema propio y copiando del padre…"),
        ),
        CreationStep::GenerateCert => Some(
            String::from_str("[4/7] Generando certificado SSL para ").concat(domain).concat("…"),
        ),
        CreationStep::SkipCert => Some(String::from_str("[4/7] SSL desactivado, se omite.")),
        CreationStep::Start => Some(String::from_str("[5/7] Arrancando el worktree (container PHP + nginx)…")),
        CreationStep::WriteWpConfig => Some(String::from_str("[6/7] Escribiendo wp-config.php del worktree…")),
        CreationStep::PinUrls => None,
        CreationStep::FixUrls => Some(
            String::from_str("[7/7] Ajustando URLs de la copia a ").concat(domain).concat("…"),
        ),
        CreationStep::Finish => Some(String::from_str("[7/7] Listo.")),
    }
}

/// The line once a step succeeded (none for the steps that say nothing
/// more).
pub open spec fn step_done_seq(step: CreationStep) -> Option<Seq<char>> {
    match step {
        CreationStep::PrepareFolder => Some("      ✓ Carpeta lista."@),
        CreationStep::AddWorktree => Some("      ✓ Worktree creado (la rama vive en el repo del padre)."@),
        CreationStep::CopyDatabase => Some("      ✓ Copia de la base de datos lista."@),
        CreationStep::GenerateCert => Some("      ✓ Certificado listo."@),
        CreationStep::Start => Some("      ✓ Worktree arriba."@),
        CreationStep::PinUrls => Some("      ✓ URLs fijadas por constantes (DB del padre intacta)."@),
        CreationStep::FixUrls => Some("      ✓ URLs ajustadas."@),
        _ => None,
    }
}

pub fn step_done(step: CreationStep) -> (r: Option<String>)
    ensures
        match step_done_seq(step) {
            Some(t) => r matches Some(x) && x@ == t,
            None => r is None,
        },
{
    match step {
        CreationStep::PrepareFolder => Some(String::from_str("      ✓ Carpeta lista.")),
        CreationStep::AddWorktree => Some(
            String::from_str("      ✓ Worktree creado (la rama vive en el repo del padre)."),
        ),
        CreationStep::CopyDatabase => Some(String::from_str("      ✓ Copia de la base de datos lista.")),
        CreationStep::GenerateCert => Some(String::from_str("      ✓ Certificado listo.")),
        CreationStep::Start => Some(String::from_str("      ✓ Worktree arriba.")),
        CreationStep::PinUrls => Some(
            String::from_str("      ✓ URLs fijadas por constantes (DB del padre intacta)."),
        ),
        CreationStep::FixUrls => Some(String::from_str("      ✓ URLs ajustadas.")),
        _ => None,
    }
}

/// The warning when the copy's URLs could not be moved (the worktree is kept).
pub fn fix_urls_warning(err: &str) -> (r: String)
    ensures
        r@ == "      ⚠ No se pudieron ajustar las URLs ("@ + err@ + "); revísalas en el admin."@,
{
    String::from_str("      ⚠ No se pudieron ajustar las URLs (").concat(err).concat(
        "); revísalas en el admin.",
    )
}

/// The closing line of a creation.
pub fn creation_done(domain: &str) -> (r: String)
    ensures
        r@ == "✓ Worktree listo → "@ + domain@,
{
    String::from_str("✓ Worktree listo → ").concat(domain)
}

/// The lines when a creation failed: the error, then the cleanup notice.
pub fn creation_failed(err: &str) -> (r: (String, String))
    ensures
        r.0@ == "✗ Error creando el worktree: "@ + err@,
        r.1@ == "  Limpiando el worktree a medio crear…"@,
{
    (
        String::from_str("✗ Error creando el worktree: ").concat(err),
        String::from_str("  Limpiando el worktree a medio crear…"),
    )
}

proof fn lemma_worktrees_filter(
    sites: Seq<SiteConfig>,
    parent_id: Seq<char>,
    pred: spec_fn(SiteConfig) -> bool,
)
    requires
        forall|s: SiteConfig| #[trigger] pred(s) == (s.worktree_of matches Some(w) && w.parent_id@ == parent_id),
    ensures
        worktrees_of(sites, parent_id) == sites.filter(pred),
    decreases sites.len(),
{
    reveal(Seq::filter);
    if sites.len() > 0 {
        lemma_worktrees_filter(sites.drop_last(), parent_id, pred);
        assert(pred(sites.last()) == (sites.last().worktree_of matches Some(w) && w.parent_id@ == parent_id));
    }
}

/// The worktree projects of a parent are exactly the projects, in their
/// order, recorded as worktrees of that parent: each one listed is a worktree
/// of `parent_id`, and every such project is listed.
pub proof fn law_worktrees_are_those_of_the_parent(sites: Seq<SiteConfig>, parent_id: Seq<char>)
    ensures
        worktrees_of(sites, parent_id) == sites.filter(
            |s: SiteConfig| s.worktree_of matches Some(w) && w.parent_id@ == parent_id,
        ),
        forall|k: int|
            0 <= k < worktrees_of(sites, parent_id).len() ==> ((#[trigger] worktrees_of(sites, parent_id)[k]).worktree_of
                matches Some(w) && w.parent_id@ == parent_id),
        forall|j: int|
            0 <= j < sites.len() && (sites[j].worktree_of matches Some(w) && w.parent_id@ == parent_id)
                ==> #[trigger] worktrees_of(sites, parent_id).contains(sites[j]),
{
    let pred = |s: SiteConfig| s.worktree_of matches Some(w) && w.parent_id@ == parent_id;
    lemma_worktrees_filter(sites, parent_id, pred);
    broadcast use vstd::seq_lib::group_filter_ensures;

}

} // verus!
