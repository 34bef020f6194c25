//! Temporary clones made from a snapshot.
//!
//! A clone is an ordinary `SiteConfig` with `clone_of` set. It shares the DB
//! engine and nginx; it adds one php container and one database schema. Old
//! uploads are served from the parent (read only) through an nginx fallback.

use vstd::prelude::*;

use crate::config::{
    CloneInfo, DbService, GithubConfig, NginxService, PhpService, Services, SiteConfig,
};
use crate::slots::is_free_slot;
use crate::wordpress::{db_name_for_slug, db_name_seq};
use crate::text::{ascii_slug, ascii_slug_vec, dns_safe, lemma_ascii_slug_dns_safe, string_of};

verus! {

broadcast use vstd::string::group_string_axioms;

/// DNS-safe slug of a snapshot label; `clone` when nothing is left.
pub open spec fn slugify_seq(label: Seq<char>) -> Seq<char> {
    if ascii_slug(label).len() == 0 {
        "clone"@
    } else {
        ascii_slug(label)
    }
}

/// Turns a free-form label into a DNS-safe slug: lowercase, alphanumerics and
/// `-`, no repeated `-` and none at the ends. Empty gives `clone`.
pub fn slugify(label: &str) -> (r: String)
    ensures
        r@ == slugify_seq(label@),
        dns_safe(r@),
{
    let s = ascii_slug_vec(label);
    proof {
        lemma_ascii_slug_dns_safe(label@);
    }
    if s.len() == 0 {
        let r = String::from_str("clone");
        proof {
            reveal_strlit("clone");
        }
        r
    } else {
        string_of(&s)
    }
}

/// (slug, folder, domain) free for a clone derived from `base`.
pub fn find_free_slot(root: &str, base: &str, existing: &[SiteConfig], taken: &Vec<String>) -> (r: Option<(
    String,
    String,
    String,
)>)
    ensures
        r matches Some(t) ==> is_free_slot(root@, base@, taken@, existing@, (t.0@, t.1@, t.2@)),
        crate::slots::some_candidate_free(base@, taken@, existing@) ==> r is Some,
{
    crate::slots::find_free_slot(root, base, existing, taken)
}

/// The slug a clone starts from: `{parent_dirname}-{label slug}`.
pub fn base_slug(parent_dirname: &str, label: &str) -> (r: String)
    ensures
        r@ == parent_dirname@ + "-"@ + slugify_seq(label@),
{
    String::from_str(parent_dirname).concat("-").concat(slugify(label).as_str())
}

/// What `create_clone` records for a clone of `parent` from the save point
/// `snapshot_id` labelled `label`: named after the label, in the free slot
/// (`slug`, `path`, `domain`), the parent's group, PHP, TLS and database
/// engine, its own schema `{slug}_db`, and the clone link.
pub open spec fn clone_config_ok(
    parent: SiteConfig,
    parent_id: Seq<char>,
    parent_dirname: Seq<char>,
    snapshot_id: Seq<char>,
    label: Seq<char>,
    slot: (Seq<char>, Seq<char>, Seq<char>),
    id: Seq<char>,
    created_at: Seq<char>,
    s: SiteConfig,
) -> bool {
    &&& s.id@ == id
    &&& s.name@ == label
    &&& s.path@ == slot.1
    &&& s.domain@ == slot.2
    &&& crate::config::opt_text(s.group) == crate::config::opt_text(parent.group)
    &&& s.created_at@ == created_at
    &&& s.services.php.version@ == parent.services.php.version@
    &&& s.services.nginx.ssl == parent.services.nginx.ssl
    &&& s.services.db.db_type == parent.services.db.db_type
    &&& s.services.db.version@ == parent.services.db.version@
    &&& s.services.db.db_name@ == db_name_seq(slot.0)
    &&& s.github.repos@.len() == 0 && s.github.theme is None && s.github.plugins@.len() == 0
    &&& s.one_click_admin == parent.one_click_admin
    &&& s.xdebug_enabled == parent.xdebug_enabled
    &&& !s.headless
    &&& s.frontend_framework is None
    &&& !s.minio
    &&& !s.migration_pending
    &&& s.last_migrated_at is None
    &&& s.clone_of matches Some(c) && c.parent_id@ == parent_id && c.parent_dirname@ == parent_dirname
        && c.snapshot_id@ == snapshot_id && c.created_at@ == created_at
    &&& s.worktree_of is None
    &&& s.snapshot_excludes@.len() == 0
}

pub fn clone_config(
    parent: &SiteConfig,
    parent_id: &str,
    parent_dirname: &str,
    snapshot_id: &str,
    label: &str,
    slot: (&str, &str, &str),
    id: &str,
    created_at: &str,
) -> (s: SiteConfig)
    ensures
        clone_config_ok(
            *parent,
            parent_id@,
            parent_dirname@,
            snapshot_id@,
            label@,
            (slot.0@, slot.1@, slot.2@),
            id@,
            created_at@,
            s,
        ),
{
    let group = match &parent.group {
        Some(g) => Some(String::from_str(g.as_str())),
        None => None,
    };
    SiteConfig {
        id: String::from_str(id),
        name: String::from_str(label),
        path: String::from_str(slot.1),
        domain: String::from_str(slot.2),
        group,
        created_at: String::from_str(created_at),
        services: Services {
            php: PhpService { version: String::from_str(parent.services.php.version.as_str()) },
            nginx: NginxService { ssl: parent.services.nginx.ssl },
            db: DbService {
                db_type: parent.services.db.db_type,
                version: String::from_str(parent.services.db.version.as_str()),
                db_name: db_name_for_slug(slot.0),
            },
        },
        github: GithubConfig::default(),
        one_click_admin: parent.one_click_admin,
        xdebug_enabled: parent.xdebug_enabled,
        headless: false,
        frontend_framework: None,
        minio: false,
        migration_pending: false,
        last_migrated_at: None,
        clone_of: Some(
            CloneInfo {
                parent_id: String::from_str(parent_id),
                parent_dirname: String::from_str(parent_dirname),
                snapshot_id: String::from_str(snapshot_id),
                created_at: String::from_str(created_at),
            },
        ),
        worktree_of: None,
        snapshot_excludes: Vec::new(),
    }
}

/// `clone_config` with a fresh random id and the current time; `None` when
/// the system gives no random id or no current time.
pub fn new_clone_config(
    parent: &SiteConfig,
    parent_id: &str,
    parent_dirname: &str,
    snapshot_id: &str,
    label: &str,
    slot: (&str, &str, &str),
) -> (r: Option<SiteConfig>)
    ensures
        r matches Some(s) ==> crate::ids::is_uuid_v4_text(s.id@) && exists|created_at: Seq<char>|
            crate::clock::is_rfc3339_utc(created_at) && #[trigger] clone_config_ok(
                *parent,
                parent_id@,
                parent_dirname@,
                snapshot_id@,
                label@,
                (slot.0@, slot.1@, slot.2@),
                s.id@,
                created_at,
                s,
            ),
{
    let id = match crate::ids::new_uuid() {
        Some(id) => id,
        None => {
            return None;
        },
    };
    let now = match crate::clock::now_rfc3339() {
        Some(now) => now,
        None => {
            return None;
        },
    };
    let s = clone_config(parent, parent_id, parent_dirname, snapshot_id, label, slot, id.as_str(), now.as_str());
    assert(clone_config_ok(
        *parent,
        parent_id@,
        parent_dirname@,
        snapshot_id@,
        label@,
        (slot.0@, slot.1@, slot.2@),
        s.id@,
        now@,
        s,
    ));
    Some(s)
}

/// The `tar` arguments that unpack a save point's code archive into the
/// clone's public folder.
pub fn extract_args(code_tar: &str, public: &str) -> (r: Vec<String>)
    ensures
        r@.len() == 5,
        r@[0]@ == "--zstd"@,
        r@[1]@ == "-xf"@,
        r@[2]@ == code_tar@,
        r@[3]@ == "-C"@,
        r@[4]@ == public@,
{
    vec![
        String::from_str("--zstd"),
        String::from_str("-xf"),
        String::from_str(code_tar),
        String::from_str("-C"),
        String::from_str(public),
    ]
}

/// What creating a clone does, in order. The caller performs each action and
/// stops at the first failure, except that a failed URL fix is only a
/// warning.
#[derive(Debug, Clone, Copy, PartialEq, Eq, Structural)]
pub enum CloneStep {
    /// Folders, `php.ini` and `config.json`.
    PrepareFolder,
    /// The save point's code unpacked into the public folder.
    ExtractCode,
    /// The clone's own schema.
    CreateDatabase,
    /// The save point's dump imported into it.
    ImportDatabase,
    /// The panel's mu-plugins copied in.
    SyncPlugins,
    /// The TLS certificate for the clone's domain.
    GenerateCert,
    /// TLS is off: no certificate.
    SkipCert,
    /// The PHP container and the vhost.
    Start,
    /// `wp config create` for the clone.
    WriteWpConfig,
    /// The copied schema's URLs moved to the clone's domain.
    FixUrls,
}

pub open spec fn clone_steps(ssl: bool) -> Seq<CloneStep> {
    seq![
        CloneStep::PrepareFolder,
        CloneStep::ExtractCode,
        CloneStep::CreateDatabase,
        CloneStep::ImportDatabase,
        CloneStep::SyncPlugins,
        if ssl {
            CloneStep::GenerateCert
        } else {
            CloneStep::SkipCert
        },
        CloneStep::Start,
        CloneStep::WriteWpConfig,
        CloneStep::FixUrls,
    ]
}

/// The steps of a clone; the certificate step depends on TLS.
pub fn clone_plan(ssl: bool) -> (r: Vec<CloneStep>)
    ensures
        r@ == clone_steps(ssl),
{
    let r = vec![
        CloneStep::PrepareFolder,
        CloneStep::ExtractCode,
        CloneStep::CreateDatabase,
        CloneStep::ImportDatabase,
        CloneStep::SyncPlugins,
        if ssl {
            CloneStep::GenerateCert
        } else {
            CloneStep::SkipCert
        },
        CloneStep::Start,
        CloneStep::WriteWpConfig,
        CloneStep::FixUrls,
    ];
    assert(r@ =~= clone_steps(ssl));
    r
}

/// Whether a failure of `step` stops the clone (every step but the URL fix).
pub fn clone_step_fatal(step: CloneStep) -> (r: bool)
    ensures
        r == (step != CloneStep::FixUrls),
{
    match step {
        CloneStep::FixUrls => false,
        _ => true,
    }
}

/// The line that announces a step of a clone.
pub open spec fn clone_header_seq(step: CloneStep, domain: Seq<char>, db_mb: u64) -> Option<Seq<char>> {
    match step {
        CloneStep::PrepareFolder => Some("[1/8] Preparando carpeta del clone…"@),
        CloneStep::ExtractCode => Some("[2/8] Extrayendo código del snapshot…"@),
        CloneStep::CreateDatabase => Some("[3/8] Creando base de datos del clone…"@),
        CloneStep::ImportDatabase => Some(
            "[4/8] Importando base de datos ("@ + crate::text::dec_seq(db_mb as nat) + " MB)…"@,
        ),
        CloneStep::SyncPlugins => Some("[5/8] Sincronizando plugins del panel…"@),
        CloneStep::GenerateCert => Some("[6/8] Generando certificado SSL para "@ + domain + "…"@),
        CloneStep::SkipCert => Some("[6/8] SSL desactivado, se omite."@),
        CloneStep::Start => Some("[7/8] Arrancando el clone (container PHP + nginx)…"@),
        CloneStep::WriteWpConfig => Some("[8/8] Configurando WordPress del clone…"@),
        CloneStep::FixUrls => None,
    }
}

pub fn clone_step_header(step: CloneStep, domain: &str, db_mb: u64) -> (r: Option<String>)
    ensures
        match clone_header_seq(step, domain@, db_mb) {
            Some(t) => r matches Some(x) && x@ == t,
            None => r is None,
        },
{
    match step {
        CloneStep::PrepareFolder => Some(String::from_str("[1/8] Preparando carpeta del clone…")),
        CloneStep::ExtractCode => Some(String::from_str("[2/8] Extrayendo código del snapshot…")),
        CloneStep::CreateDatabase => Some(String::from_str("[3/8] Creando base de datos del clone…")),
        CloneStep::ImportDatabase => Some(
            String::from_str("[4/8] Importando base de datos (").concat(
                crate::text::dec_string(db_mb).as_str(),
            ).concat(" MB)…"),
        ),
        CloneStep::SyncPlugins => Some(String::from_str("[5/8] Sincronizando plugins del panel…")),
        CloneStep::GenerateCert => Some(
            String::from_str("[6/8] Generando certificado SSL para ").concat(domain).concat("…"),
        ),
        CloneStep::SkipCert => Some(String::from_str("[6/8] SSL desactivado, se omite.")),
        CloneStep::Start => Some(String::from_str("[7/8] Arrancando el clone (container PHP + nginx)…")),
        CloneStep::WriteWpConfig => Some(String::from_str("[8/8] Configurando WordPress del clone…")),
        CloneStep::FixUrls => None,
    }
}

/// The line once a step of a clone succeeded (none for the steps that say
/// nothing more).
pub open spec fn clone_done_seq(step: CloneStep) -> Option<Seq<char>> {
    match step {
        CloneStep::PrepareFolder => Some("      ✓ Carpeta lista."@),
        CloneStep::ExtractCode => Some("      ✓ Código extraído."@),
        CloneStep::CreateDatabase => Some("      ✓ Base de datos lista."@),
        CloneStep::ImportDatabase => Some("      ✓ Base de datos importada."@),
        CloneStep::GenerateCert => Some("      ✓ Certificado listo."@),
        CloneStep::Start => Some("      ✓ Clone arriba."@),
        CloneStep::FixUrls => Some("      ✓ URLs ajustadas al dominio del clone."@),
        _ => None,
    }
}

pub fn clone_step_done(step: CloneStep) -> (r: Option<String>)
    ensures
        match clone_done_seq(step) {
            Some(t) => r matches Some(x) && x@ == t,
            None => r is None,
        },
{
    match step {
        CloneStep::PrepareFolder => Some(String::from_str("      ✓ Carpeta lista.")),
        CloneStep::ExtractCode => Some(String::from_str("      ✓ Código extraído.")),
        CloneStep::CreateDatabase => Some(String::from_str("      ✓ Base de datos lista.")),
        CloneStep::ImportDatabase => Some(String::from_str("      ✓ Base de datos importada.")),
        CloneStep::GenerateCert => Some(String::from_str("      ✓ Certificado listo.")),
        CloneStep::Start => Some(String::from_str("      ✓ Clone arriba.")),
        CloneStep::FixUrls => Some(String::from_str("      ✓ URLs ajustadas al dominio del clone.")),
        _ => None,
    }
}

} // verus!
