//! Virtual hosts for the shared `panel-nginx`.
//!
//! Each active project contributes `{id}.conf` to the mounted `conf.d/`
//! folder. nginx sees the projects under `/srv/projects` (read only) and php
//! sees them under `/var/www/html`.

use vstd::prelude::*;

use crate::config::{basename_seq, path_basename, SiteConfig};
use crate::paths::{join, join_seq};
use crate::text::{chars_of, contains_seq, occurs_at, split_seq, split_vec, string_of, trim, trim_vec, vv, CharClass};

verus! {

broadcast use vstd::string::group_string_axioms;

/// The last named component of a Unix path, as `Path::file_name` gives it:
/// empty and `.` components are skipped, and a final `..` has no name.
pub open spec fn last_name(segs: Seq<Seq<char>>) -> Option<Seq<char>>
    decreases segs.len(),
{
    if segs.len() == 0 {
        None
    } else {
        let t = segs.last();
        if t.len() == 0 || t == "."@ {
            last_name(segs.drop_last())
        } else if t == ".."@ {
            None
        } else {
            Some(t)
        }
    }
}

/// `Path::new(path).file_name()`.
pub open spec fn file_name_seq(path: Seq<char>) -> Option<Seq<char>> {
    last_name(split_seq(path, CharClass::Is('/')))
}

/// Name of the project's folder under `~/panel-wp/`: the last component of its
/// path, or its name when the path has none.
pub open spec fn project_dirname_seq(path: Seq<char>, name: Seq<char>) -> Seq<char> {
    match file_name_seq(path) {
        Some(n) => n,
        None => name,
    }
}

/// Name of the project's folder (the basename of its path).
pub fn project_dirname(site: &SiteConfig) -> (r: String)
    ensures
        r@ == project_dirname_seq(site.path@, site.name@),
{
    let v = chars_of(site.path.as_str());
    let segs = split_vec(&v, CharClass::Is('/'));
    let ghost all = vv(segs@);
    let dot = chars_of(".");
    let dotdot = chars_of("..");
    let mut k: usize = segs.len();
    assert(all.take(k as int) =~= all);
    while k > 0
        invariant
            k <= segs.len(),
            vv(segs@) == all,
            all == split_seq(site.path@, CharClass::Is('/')),
            dot@ == "."@,
            dotdot@ == ".."@,
            last_name(all) == last_name(all.take(k as int)),
        decreases k,
    {
        let ghost pre = all.take(k as int);
        assert(pre.drop_last() =~= all.take(k as int - 1));
        assert(pre.last() == segs@[k as int - 1]@);
        let t = &segs[k - 1];
        assert(t@ == pre.last());
        if t.len() == 0 || crate::text::vec_eq(t, &dot) {
            k -= 1;
        } else if crate::text::vec_eq(t, &dotdot) {
            return string_of_str(site.name.as_str());
        } else {
            return string_of(t);
        }
    }
    string_of_str(site.name.as_str())
}

/// A fresh `String` with the characters of `s`.
fn string_of_str(s: &str) -> (r: String)
    ensures
        r@ == s@,
{
    String::from_str(s)
}

/// `{id}.conf` in the vhost folder.
pub fn vhost_path(conf_d_dir: &str, site: &SiteConfig) -> (r: String)
    ensures
        r@ == join_seq(conf_d_dir@, site.id@ + ".conf"@),
{
    let name = String::from_str(site.id.as_str()).concat(".conf");
    join(conf_d_dir, name.as_str())
}

/// Location block that serves the target repo of a worktree project from its
/// own git worktree.
pub open spec fn worktree_block_seq(dirname: Seq<char>, target: Seq<char>, basename: Seq<char>) -> Seq<
    char,
> {
    "\n    location ~ ^/"@ + target
        + "/(.+\\.(?:css|js|mjs|png|jpe?g|gif|svg|ico|webp|woff2?|ttf|eot|map|json))$ {\n        alias /srv/projects/"@
        + dirname + "/wt/"@ + basename
        + "/$1;\n        expires 7d;\n        access_log off;\n    }\n"@
}

/// Location blocks of a clone: new uploads from the clone, older ones from the
/// parent (read only) as a fallback.
pub open spec fn uploads_block_seq(dirname: Seq<char>, parent: Seq<char>) -> Seq<char> {
    "\n    location ^~ /wp-content/uploads/ {\n        root /srv/projects/"@ + dirname
        + "/app/public;\n        try_files $uri @uploads_base;\n    }\n    location @uploads_base {\n        root /srv/projects/"@
        + parent + "/app/public;\n        try_files $uri =404;\n    }\n"@
}

/// The server blocks with TLS (and a redirect from plain HTTP).
pub open spec fn ssl_conf_seq(
    server_name: Seq<char>,
    ssl_base: Seq<char>,
    root: Seq<char>,
    blocks: Seq<char>,
    upstream: Seq<char>,
) -> Seq<char> {
    "server {\n    listen 80;\n    server_name "@ + server_name
        + ";\n    return 301 https://$host$request_uri;\n}\n\nserver {\n    listen 443 ssl;\n    http2 on;\n    server_name "@
        + server_name + ";\n\n    ssl_certificate     "@ + ssl_base
        + "/cert.pem;\n    ssl_certificate_key "@ + ssl_base + "/key.pem;\n\n    root "@ + root
        + ";\n    index index.php index.html;\n\n    location / {\n        try_files $uri $uri/ /index.php?$args;\n    }"@
        + blocks
        + "\n    location ~ \\.php$ {\n        fastcgi_pass "@ + upstream
        + ";\n        fastcgi_index index.php;\n        include fastcgi_params;\n        # SCRIPT_FILENAME en la vista del container php (no la de nginx).\n        fastcgi_param SCRIPT_FILENAME /var/www/html$fastcgi_script_name;\n        fastcgi_param HTTPS on;\n    }\n\n    location ~* \\.(?:css|js|png|jpe?g|gif|svg|ico|woff2?)$ {\n        expires 7d;\n        access_log off;\n    }\n}\n"@
}

/// The plain HTTP server block.
pub open spec fn http_conf_seq(
    server_name: Seq<char>,
    root: Seq<char>,
    blocks: Seq<char>,
    upstream: Seq<char>,
) -> Seq<char> {
    "server {\n    listen 80;\n    server_name "@ + server_name + ";\n\n    root "@ + root
        + ";\n    index index.php index.html;\n\n    location / {\n        try_files $uri $uri/ /index.php?$args;\n    }"@
        + blocks + "\n    location ~ \\.php$ {\n        fastcgi_pass "@ + upstream
        + ";\n        fastcgi_index index.php;\n        include fastcgi_params;\n        fastcgi_param SCRIPT_FILENAME /var/www/html$fastcgi_script_name;\n    }\n\n    location ~* \\.(?:css|js|png|jpe?g|gif|svg|ico|woff2?)$ {\n        expires 7d;\n        access_log off;\n    }\n}\n"@
}

/// Document root: the parent's public folder for a worktree project, the
/// project's own otherwise.
pub open spec fn vhost_root_seq(site: SiteConfig) -> Seq<char> {
    let dirname = project_dirname_seq(site.path@, site.name@);
    match site.worktree_of {
        Some(wt) => "/srv/projects/"@ + wt.parent_dirname@ + "/app/public"@,
        None => "/srv/projects/"@ + dirname + "/app/public"@,
    }
}

/// The extra location blocks: the worktree target (if any), then the clone's
/// uploads fallback (if any).
pub open spec fn vhost_blocks_seq(site: SiteConfig) -> Seq<char> {
    let dirname = project_dirname_seq(site.path@, site.name@);
    let wt_block = match site.worktree_of {
        Some(wt) => {
            let target = trim(wt.target_path@, CharClass::Is('/'));
            worktree_block_seq(dirname, target, basename_seq(target))
        },
        None => Seq::<char>::empty(),
    };
    let up_block = match site.clone_of {
        Some(ci) => uploads_block_seq(dirname, ci.parent_dirname@),
        None => Seq::<char>::empty(),
    };
    wt_block + up_block
}

/// The vhost of a project.
pub open spec fn vhost_seq(site: SiteConfig) -> Seq<char> {
    let dirname = project_dirname_seq(site.path@, site.name@);
    let upstream = "wp-"@ + site.id@ + ":9000"@;
    if site.services.nginx.ssl {
        ssl_conf_seq(
            site.domain@,
            "/srv/projects/"@ + dirname + "/ssl"@,
            vhost_root_seq(site),
            vhost_blocks_seq(site),
            upstream,
        )
    } else {
        http_conf_seq(site.domain@, vhost_root_seq(site), vhost_blocks_seq(site), upstream)
    }
}

/// Renders the vhost of a project.
pub fn render_vhost(site: &SiteConfig) -> (r: String)
    ensures
        r@ == vhost_seq(*site),
{
    let upstream = site.container_name().concat(":9000");
    let dirname = project_dirname(site);

    let root = match &site.worktree_of {
        Some(wt) => String::from_str("/srv/projects/").concat(wt.parent_dirname.as_str()).concat(
            "/app/public",
        ),
        None => String::from_str("/srv/projects/").concat(dirname.as_str()).concat("/app/public"),
    };
    let wt_block = match &site.worktree_of {
        Some(wt) => {
            let tv = chars_of(wt.target_path.as_str());
            let target = string_of(&trim_vec(&tv, CharClass::Is('/')));
            let basename = path_basename(target.as_str());
            String::from_str("\n    location ~ ^/").concat(target.as_str()).concat(
                "/(.+\\.(?:css|js|mjs|png|jpe?g|gif|svg|ico|webp|woff2?|ttf|eot|map|json))$ {\n        alias /srv/projects/",
            ).concat(dirname.as_str()).concat("/wt/").concat(basename).concat(
                "/$1;\n        expires 7d;\n        access_log off;\n    }\n",
            )
        },
        None => String::new(),
    };
    let up_block = match &site.clone_of {
        Some(ci) => String::from_str(
            "\n    location ^~ /wp-content/uploads/ {\n        root /srv/projects/",
        ).concat(dirname.as_str()).concat(
            "/app/public;\n        try_files $uri @uploads_base;\n    }\n    location @uploads_base {\n        root /srv/projects/",
        ).concat(ci.parent_dirname.as_str()).concat(
            "/app/public;\n        try_files $uri =404;\n    }\n",
        ),
        None => String::new(),
    };
    let blocks = wt_block.concat(up_block.as_str());
    assert(blocks@ == vhost_blocks_seq(*site));
    assert(root@ == vhost_root_seq(*site));

    if site.services.nginx.ssl {
        let ssl_base = String::from_str("/srv/projects/").concat(dirname.as_str()).concat("/ssl");
        let conf = String::from_str("server {\n    listen 80;\n    server_name ").concat(
            site.domain.as_str(),
        ).concat(
            ";\n    return 301 https://$host$request_uri;\n}\n\nserver {\n    listen 443 ssl;\n    http2 on;\n    server_name ",
        ).concat(site.domain.as_str()).concat(";\n\n    ssl_certificate     ").concat(
            ssl_base.as_str(),
        ).concat("/cert.pem;\n    ssl_certificate_key ").concat(ssl_base.as_str()).concat(
            "/key.pem;\n\n    root ",
        ).concat(root.as_str()).concat(
            ";\n    index index.php index.html;\n\n    location / {\n        try_files $uri $uri/ /index.php?$args;\n    }",
        ).concat(blocks.as_str()).concat("\n    location ~ \\.php$ {\n        fastcgi_pass ").concat(
            upstream.as_str(),
        ).concat(
            ";\n        fastcgi_index index.php;\n        include fastcgi_params;\n        # SCRIPT_FILENAME en la vista del container php (no la de nginx).\n        fastcgi_param SCRIPT_FILENAME /var/www/html$fastcgi_script_name;\n        fastcgi_param HTTPS on;\n    }\n\n    location ~* \\.(?:css|js|png|jpe?g|gif|svg|ico|woff2?)$ {\n        expires 7d;\n        access_log off;\n    }\n}\n",
        );
        conf
    } else {
        let conf = String::from_str("server {\n    listen 80;\n    server_name ").concat(
            site.domain.as_str(),
        ).concat(";\n\n    root ").concat(root.as_str()).concat(
            ";\n    index index.php index.html;\n\n    location / {\n        try_files $uri $uri/ /index.php?$args;\n    }",
        ).concat(blocks.as_str()).concat("\n    location ~ \\.php$ {\n        fastcgi_pass ").concat(
            upstream.as_str(),
        ).concat(
            ";\n        fastcgi_index index.php;\n        include fastcgi_params;\n        fastcgi_param SCRIPT_FILENAME /var/www/html$fastcgi_script_name;\n    }\n\n    location ~* \\.(?:css|js|png|jpe?g|gif|svg|ico|woff2?)$ {\n        expires 7d;\n        access_log off;\n    }\n}\n",
        );
        conf
    }
}

/// The folder of the vhosts nginx reads: `{config_dir}/nginx/conf.d`.
pub fn conf_d_dir(config_dir: &str) -> (r: String)
    ensures
        r@ == join_seq(join_seq(config_dir@, "nginx"@), "conf.d"@),
{
    let n = join(config_dir, "nginx");
    join(n.as_str(), "conf.d")
}

proof fn lemma_occurs_in_prefix(s: Seq<char>, t: Seq<char>, p: Seq<char>, i: int)
    requires
        occurs_at(t, p, i),
        t.len() <= s.len(),
        s.subrange(0, t.len() as int) == t,
    ensures
        contains_seq(s, p),
{
    assert(s.subrange(i, i + p.len()) =~= t.subrange(i, i + p.len()));
    assert(occurs_at(s, p, i));
}

/// The vhost of a TLS project loads the certificate and the key that mkcert
/// wrote in the project's `ssl/` folder (as nginx sees it,
/// `/srv/projects/{folder}/ssl`): `ssl_certificate` names `cert.pem` and
/// `ssl_certificate_key` names `key.pem`.
#[verifier::rlimit(40)]
pub proof fn law_tls_vhost_loads_cert_and_key(site: SiteConfig)
    requires
        site.services.nginx.ssl,
    ensures
        contains_seq(
            vhost_seq(site),
            "ssl_certificate     "@ + ("/srv/projects/"@ + project_dirname_seq(site.path@, site.name@) + "/ssl"@)
                + "/cert.pem;"@,
        ),
        contains_seq(
            vhost_seq(site),
            "ssl_certificate_key "@ + ("/srv/projects/"@ + project_dirname_seq(site.path@, site.name@) + "/ssl"@)
                + "/key.pem;"@,
        ),
{
    let d = "/srv/projects/"@ + project_dirname_seq(site.path@, site.name@) + "/ssl"@;
    let sn = site.domain@;
    let head = "server {\n    listen 80;\n    server_name "@ + sn
        + ";\n    return 301 https://$host$request_uri;\n}\n\nserver {\n    listen 443 ssl;\n    http2 on;\n    server_name "@
        + sn;
    let t1 = head + ";\n\n    ssl_certificate     "@ + d + "/cert.pem;\n    ssl_certificate_key "@;
    let t2 = t1 + d + "/key.pem;\n\n    root "@;
    let cert = "ssl_certificate     "@ + d + "/cert.pem;"@;
    let key = "ssl_certificate_key "@ + d + "/key.pem;"@;
    reveal_strlit(";\n\n    ssl_certificate     ");
    reveal_strlit(";\n\n    ");
    reveal_strlit("ssl_certificate     ");
    reveal_strlit("/cert.pem;\n    ssl_certificate_key ");
    reveal_strlit("/cert.pem;");
    reveal_strlit("\n    ssl_certificate_key ");
    reveal_strlit("\n    ");
    reveal_strlit("ssl_certificate_key ");
    reveal_strlit("/key.pem;\n\n    root ");
    reveal_strlit("/key.pem;");
    reveal_strlit("\n\n    root ");
    let v = vhost_seq(site);
    // The certificate line.
    assert(t1 =~= (head + ";\n\n    "@) + cert + "\n    ssl_certificate_key "@);
    let i1 = (head + ";\n\n    "@).len() as int;
    assert(t1.subrange(i1, i1 + cert.len()) =~= cert);
    assert(v.subrange(0, t1.len() as int) =~= t1);
    lemma_occurs_in_prefix(v, t1, cert, i1);
    // The key line.
    assert(t2 =~= (head + ";\n\n    "@ + cert + "\n    "@) + key + "\n\n    root "@);
    let i2 = (head + ";\n\n    "@ + cert + "\n    "@).len() as int;
    assert(t2.subrange(i2, i2 + key.len()) =~= key);
    assert(v.subrange(0, t2.len() as int) =~= t2);
    lemma_occurs_in_prefix(v, t2, key, i2);
}

proof fn lemma_contains_concat_left(a: Seq<char>, b: Seq<char>, p: Seq<char>)
    requires
        contains_seq(a, p),
    ensures
        contains_seq(a + b, p),
{
    let i = choose|i: int| occurs_at(a, p, i);
    assert((a + b).subrange(0, a.len() as int) =~= a);
    lemma_occurs_in_prefix(a + b, a, p, i);
}

proof fn lemma_contains_concat_right(a: Seq<char>, b: Seq<char>, p: Seq<char>)
    requires
        contains_seq(b, p),
    ensures
        contains_seq(a + b, p),
{
    let i = choose|i: int| occurs_at(b, p, i);
    assert((a + b).subrange(a.len() + i, a.len() + i + p.len()) =~= b.subrange(i, i + p.len()));
    assert(occurs_at(a + b, p, a.len() + i));
}

proof fn lemma_contains_middle(a: Seq<char>, p: Seq<char>, b: Seq<char>)
    ensures
        contains_seq(a + p + b, p),
{
    assert((a + p + b).subrange(a.len() as int, (a.len() + p.len()) as int) =~= p);
    assert(occurs_at(a + p + b, p, a.len() as int));
}

/// The extra location blocks of a project: a worktree project serves its
/// target repo's static files from its own git worktree
/// (`alias /srv/projects/{folder}/wt/{target basename}/$1;`), and a clone
/// serves uploads from its own public folder first, then from its parent's.
pub proof fn law_vhost_blocks_serve_worktree_and_clone_files(site: SiteConfig)
    ensures
        site.worktree_of matches Some(wt) ==> contains_seq(
            vhost_blocks_seq(site),
            "alias /srv/projects/"@ + project_dirname_seq(site.path@, site.name@) + "/wt/"@ + basename_seq(
                trim(wt.target_path@, CharClass::Is('/')),
            ) + "/$1;"@,
        ),
        site.clone_of matches Some(ci) ==> contains_seq(
            vhost_blocks_seq(site),
            "location ^~ /wp-content/uploads/ {\n        root /srv/projects/"@ + project_dirname_seq(
                site.path@,
                site.name@,
            ) + "/app/public;"@,
        ),
        site.clone_of matches Some(ci) ==> contains_seq(
            vhost_blocks_seq(site),
            "location @uploads_base {\n        root /srv/projects/"@ + ci.parent_dirname@
                + "/app/public;\n        try_files $uri =404;"@,
        ),
{
    let dirname = project_dirname_seq(site.path@, site.name@);
    let wt_block = match site.worktree_of {
        Some(wt) => {
            let target = trim(wt.target_path@, CharClass::Is('/'));
            worktree_block_seq(dirname, target, basename_seq(target))
        },
        None => Seq::<char>::empty(),
    };
    let up_block = match site.clone_of {
        Some(ci) => uploads_block_seq(dirname, ci.parent_dirname@),
        None => Seq::<char>::empty(),
    };
    assert(vhost_blocks_seq(site) == wt_block + up_block);
    if let Some(wt) = site.worktree_of {
        let target = trim(wt.target_path@, CharClass::Is('/'));
        let base = basename_seq(target);
        let needle = "alias /srv/projects/"@ + dirname + "/wt/"@ + base + "/$1;"@;
        reveal_strlit("/(.+\\.(?:css|js|mjs|png|jpe?g|gif|svg|ico|webp|woff2?|ttf|eot|map|json))$ {\n        alias /srv/projects/");
        reveal_strlit("/(.+\\.(?:css|js|mjs|png|jpe?g|gif|svg|ico|webp|woff2?|ttf|eot|map|json))$ {\n        ");
        reveal_strlit("alias /srv/projects/");
        reveal_strlit("/$1;\n        expires 7d;\n        access_log off;\n    }\n");
        reveal_strlit("/$1;");
        reveal_strlit("\n        expires 7d;\n        access_log off;\n    }\n");
        assert(wt_block =~= ("\n    location ~ ^/"@ + target
            + "/(.+\\.(?:css|js|mjs|png|jpe?g|gif|svg|ico|webp|woff2?|ttf|eot|map|json))$ {\n        "@)
            + needle + "\n        expires 7d;\n        access_log off;\n    }\n"@);
        lemma_contains_middle(
            "\n    location ~ ^/"@ + target
                + "/(.+\\.(?:css|js|mjs|png|jpe?g|gif|svg|ico|webp|woff2?|ttf|eot|map|json))$ {\n        "@,
            needle,
            "\n        expires 7d;\n        access_log off;\n    }\n"@,
        );
        lemma_contains_concat_left(wt_block, up_block, needle);
    }
    if let Some(ci) = site.clone_of {
        let parent = ci.parent_dirname@;
        let own = "location ^~ /wp-content/uploads/ {\n        root /srv/projects/"@ + dirname + "/app/public;"@;
        let fallback = "location @uploads_base {\n        root /srv/projects/"@ + parent
            + "/app/public;\n        try_files $uri =404;"@;
        reveal_strlit("\n    location ^~ /wp-content/uploads/ {\n        root /srv/projects/");
        reveal_strlit("\n    ");
        reveal_strlit("location ^~ /wp-content/uploads/ {\n        root /srv/projects/");
        reveal_strlit("/app/public;\n        try_files $uri @uploads_base;\n    }\n    location @uploads_base {\n        root /srv/projects/");
        reveal_strlit("/app/public;");
        reveal_strlit("\n        try_files $uri @uploads_base;\n    }\n    ");
        reveal_strlit("location @uploads_base {\n        root /srv/projects/");
        reveal_strlit("/app/public;\n        try_files $uri =404;\n    }\n");
        reveal_strlit("/app/public;\n        try_files $uri =404;");
        reveal_strlit("\n    }\n");
        let mid = "\n        try_files $uri @uploads_base;\n    }\n    "@;
        assert(up_block =~= "\n    "@ + own + (mid + fallback + "\n    }\n"@));
        lemma_contains_middle("\n    "@, own, mid + fallback + "\n    }\n"@);
        assert(up_block =~= ("\n    "@ + own + mid) + fallback + "\n    }\n"@);
        lemma_contains_middle("\n    "@ + own + mid, fallback, "\n    }\n"@);
        lemma_contains_concat_right(wt_block, up_block, own);
        lemma_contains_concat_right(wt_block, up_block, fallback);
    }
}

proof fn lemma_contains_trans(s: Seq<char>, t: Seq<char>, p: Seq<char>)
    requires
        contains_seq(s, t),
        contains_seq(t, p),
    ensures
        contains_seq(s, p),
{
    let i = choose|i: int| occurs_at(s, t, i);
    let j = choose|j: int| occurs_at(t, p, j);
    assert(s.subrange(i + j, i + j + p.len()) =~= t.subrange(j, j + p.len()));
    assert(occurs_at(s, p, i + j));
}

/// The vhost serves the project from its document root (a worktree project
/// from its parent's public folder, any other from its own), passes PHP to
/// the project's container (`wp-{id}:9000`), and carries the project's extra
/// location blocks.
#[verifier::spinoff_prover]
#[verifier::rlimit(40)]
proof fn lemma_vhost_parts_ssl(site: SiteConfig)
    requires
        site.services.nginx.ssl,
    ensures
        contains_seq(
            vhost_seq(site),
            "root "@ + (match site.worktree_of {
                Some(wt) => "/srv/projects/"@ + wt.parent_dirname@ + "/app/public"@,
                None => "/srv/projects/"@ + project_dirname_seq(site.path@, site.name@) + "/app/public"@,
            }) + ";"@,
        ),
        contains_seq(vhost_seq(site), "fastcgi_pass wp-"@ + site.id@ + ":9000;"@),
        contains_seq(vhost_seq(site), vhost_blocks_seq(site)),
{
    let dirname = project_dirname_seq(site.path@, site.name@);
    let sn = site.domain@;
    let root = vhost_root_seq(site);
    let blocks = vhost_blocks_seq(site);
    let up = "wp-"@ + site.id@ + ":9000"@;
    let v = vhost_seq(site);
    let root_needle = "root "@ + root + ";"@;
    let pass_needle = "fastcgi_pass "@ + up + ";"@;
    reveal_strlit("fastcgi_pass wp-");
    reveal_strlit("fastcgi_pass ");
    reveal_strlit("wp-");
    reveal_strlit(":9000;");
    reveal_strlit(":9000");
    reveal_strlit(";");
    reveal_strlit("root ");
    assert(pass_needle =~= "fastcgi_pass wp-"@ + site.id@ + ":9000;"@);
    let l6 = ";\n    index index.php index.html;\n\n    location / {\n        try_files $uri $uri/ /index.php?$args;\n    }"@;
    let l6_rest = "\n    index index.php index.html;\n\n    location / {\n        try_files $uri $uri/ /index.php?$args;\n    }"@;
    reveal_strlit(";\n    index index.php index.html;\n\n    location / {\n        try_files $uri $uri/ /index.php?$args;\n    }");
    reveal_strlit("\n    index index.php index.html;\n\n    location / {\n        try_files $uri $uri/ /index.php?$args;\n    }");
    reveal_strlit("\n    location ~ \\.php$ {\n        fastcgi_pass ");
    reveal_strlit("\n    location ~ \\.php$ {\n        ");
    let d = "/srv/projects/"@ + dirname + "/ssl"@;
    let pre = "server {\n    listen 80;\n    server_name "@ + sn
        + ";\n    return 301 https://$host$request_uri;\n}\n\nserver {\n    listen 443 ssl;\n    http2 on;\n    server_name "@
        + sn + ";\n\n    ssl_certificate     "@ + d + "/cert.pem;\n    ssl_certificate_key "@ + d;
    let tail = ";\n        fastcgi_index index.php;\n        include fastcgi_params;\n        # SCRIPT_FILENAME en la vista del container php (no la de nginx).\n        fastcgi_param SCRIPT_FILENAME /var/www/html$fastcgi_script_name;\n        fastcgi_param HTTPS on;\n    }\n\n    location ~* \\.(?:css|js|png|jpe?g|gif|svg|ico|woff2?)$ {\n        expires 7d;\n        access_log off;\n    }\n}\n"@;
    let tail_rest = "\n        fastcgi_index index.php;\n        include fastcgi_params;\n        # SCRIPT_FILENAME en la vista del container php (no la de nginx).\n        fastcgi_param SCRIPT_FILENAME /var/www/html$fastcgi_script_name;\n        fastcgi_param HTTPS on;\n    }\n\n    location ~* \\.(?:css|js|png|jpe?g|gif|svg|ico|woff2?)$ {\n        expires 7d;\n        access_log off;\n    }\n}\n"@;
    reveal_strlit(";\n        fastcgi_index index.php;\n        include fastcgi_params;\n        # SCRIPT_FILENAME en la vista del container php (no la de nginx).\n        fastcgi_param SCRIPT_FILENAME /var/www/html$fastcgi_script_name;\n        fastcgi_param HTTPS on;\n    }\n\n    location ~* \\.(?:css|js|png|jpe?g|gif|svg|ico|woff2?)$ {\n        expires 7d;\n        access_log off;\n    }\n}\n");
    reveal_strlit("\n        fastcgi_index index.php;\n        include fastcgi_params;\n        # SCRIPT_FILENAME en la vista del container php (no la de nginx).\n        fastcgi_param SCRIPT_FILENAME /var/www/html$fastcgi_script_name;\n        fastcgi_param HTTPS on;\n    }\n\n    location ~* \\.(?:css|js|png|jpe?g|gif|svg|ico|woff2?)$ {\n        expires 7d;\n        access_log off;\n    }\n}\n");
    reveal_strlit("/key.pem;\n\n    root ");
    reveal_strlit("/key.pem;\n\n    ");
    let a = pre + "/key.pem;\n\n    "@;
    let b = l6_rest + blocks + "\n    location ~ \\.php$ {\n        fastcgi_pass "@ + up + tail;
    assert(v =~= a + root_needle + b);
    lemma_contains_middle(a, root_needle, b);
    let c = pre + "/key.pem;\n\n    root "@ + root + l6;
    assert(v =~= c + blocks + ("\n    location ~ \\.php$ {\n        fastcgi_pass "@ + up + tail));
    lemma_contains_middle(c, blocks, "\n    location ~ \\.php$ {\n        fastcgi_pass "@ + up + tail);
    let e = c + blocks + "\n    location ~ \\.php$ {\n        "@;
    assert(v =~= e + pass_needle + tail_rest);
    lemma_contains_middle(e, pass_needle, tail_rest);
}

#[verifier::spinoff_prover]
#[verifier::rlimit(40)]
proof fn lemma_vhost_parts_http(site: SiteConfig)
    requires
        !site.services.nginx.ssl,
    ensures
        contains_seq(
            vhost_seq(site),
            "root "@ + (match site.worktree_of {
                Some(wt) => "/srv/projects/"@ + wt.parent_dirname@ + "/app/public"@,
                None => "/srv/projects/"@ + project_dirname_seq(site.path@, site.name@) + "/app/public"@,
            }) + ";"@,
        ),
        contains_seq(vhost_seq(site), "fastcgi_pass wp-"@ + site.id@ + ":9000;"@),
        contains_seq(vhost_seq(site), vhost_blocks_seq(site)),
{
    let dirname = project_dirname_seq(site.path@, site.name@);
    let sn = site.domain@;
    let root = vhost_root_seq(site);
    let blocks = vhost_blocks_seq(site);
    let up = "wp-"@ + site.id@ + ":9000"@;
    let v = vhost_seq(site);
    let root_needle = "root "@ + root + ";"@;
    let pass_needle = "fastcgi_pass "@ + up + ";"@;
    reveal_strlit("fastcgi_pass wp-");
    reveal_strlit("fastcgi_pass ");
    reveal_strlit("wp-");
    reveal_strlit(":9000;");
    reveal_strlit(":9000");
    reveal_strlit(";");
    reveal_strlit("root ");
    assert(pass_needle =~= "fastcgi_pass wp-"@ + site.id@ + ":9000;"@);
    let l6 = ";\n    index index.php index.html;\n\n    location / {\n        try_files $uri $uri/ /index.php?$args;\n    }"@;
    let l6_rest = "\n    index index.php index.html;\n\n    location / {\n        try_files $uri $uri/ /index.php?$args;\n    }"@;
    reveal_strlit(";\n    index index.php index.html;\n\n    location / {\n        try_files $uri $uri/ /index.php?$args;\n    }");
    reveal_strlit("\n    index index.php index.html;\n\n    location / {\n        try_files $uri $uri/ /index.php?$args;\n    }");
    reveal_strlit("\n    location ~ \\.php$ {\n        fastcgi_pass ");
    reveal_strlit("\n    location ~ \\.php$ {\n        ");
    let pre = "server {\n    listen 80;\n    server_name "@ + sn;
    let tail = ";\n        fastcgi_index index.php;\n        include fastcgi_params;\n        fastcgi_param SCRIPT_FILENAME /var/www/html$fastcgi_script_name;\n    }\n\n    location ~* \\.(?:css|js|png|jpe?g|gif|svg|ico|woff2?)$ {\n        expires 7d;\n        access_log off;\n    }\n}\n"@;
    let tail_rest = "\n        fastcgi_index index.php;\n        include fastcgi_params;\n        fastcgi_param SCRIPT_FILENAME /var/www/html$fastcgi_script_name;\n    }\n\n    location ~* \\.(?:css|js|png|jpe?g|gif|svg|ico|woff2?)$ {\n        expires 7d;\n        access_log off;\n    }\n}\n"@;
    reveal_strlit(";\n        fastcgi_index index.php;\n        include fastcgi_params;\n        fastcgi_param SCRIPT_FILENAME /var/www/html$fastcgi_script_name;\n    }\n\n    location ~* \\.(?:css|js|png|jpe?g|gif|svg|ico|woff2?)$ {\n        expires 7d;\n        access_log off;\n    }\n}\n");
    reveal_strlit("\n        fastcgi_index index.php;\n        include fastcgi_params;\n        fastcgi_param SCRIPT_FILENAME /var/www/html$fastcgi_script_name;\n    }\n\n    location ~* \\.(?:css|js|png|jpe?g|gif|svg|ico|woff2?)$ {\n        expires 7d;\n        access_log off;\n    }\n}\n");
    reveal_strlit(";\n\n    root ");
    reveal_strlit(";\n\n    ");
    let a = pre + ";\n\n    "@;
    let b = l6_rest + blocks + "\n    location ~ \\.php$ {\n        fastcgi_pass "@ + up + tail;
    assert(v =~= a + root_needle + b);
    lemma_contains_middle(a, root_needle, b);
    let c = pre + ";\n\n    root "@ + root + l6;
    assert(v =~= c + blocks + ("\n    location ~ \\.php$ {\n        fastcgi_pass "@ + up + tail));
    lemma_contains_middle(c, blocks, "\n    location ~ \\.php$ {\n        fastcgi_pass "@ + up + tail);
    let e = c + blocks + "\n    location ~ \\.php$ {\n        "@;
    assert(v =~= e + pass_needle + tail_rest);
    lemma_contains_middle(e, pass_needle, tail_rest);
}

pub proof fn law_vhost_root_upstream_and_blocks(site: SiteConfig)
    ensures
        contains_seq(
            vhost_seq(site),
            "root "@ + (match site.worktree_of {
                Some(wt) => "/srv/projects/"@ + wt.parent_dirname@ + "/app/public"@,
                None => "/srv/projects/"@ + project_dirname_seq(site.path@, site.name@) + "/app/public"@,
            }) + ";"@,
        ),
        contains_seq(vhost_seq(site), "fastcgi_pass wp-"@ + site.id@ + ":9000;"@),
        contains_seq(vhost_seq(site), vhost_blocks_seq(site)),
{
    if site.services.nginx.ssl {
        lemma_vhost_parts_ssl(site);
    } else {
        lemma_vhost_parts_http(site);
    }
}

/// The rendered vhost of a worktree project aliases its target's static files
/// to its own git worktree, and that of a clone serves uploads from its own
/// public folder, falling back to its parent's.
pub proof fn law_vhost_serves_worktree_and_clone_files(site: SiteConfig)
    ensures
        site.worktree_of matches Some(wt) ==> contains_seq(
            vhost_seq(site),
            "alias /srv/projects/"@ + project_dirname_seq(site.path@, site.name@) + "/wt/"@ + basename_seq(
                trim(wt.target_path@, CharClass::Is('/')),
            ) + "/$1;"@,
        ),
        site.clone_of matches Some(ci) ==> contains_seq(
            vhost_seq(site),
            "location ^~ /wp-content/uploads/ {\n        root /srv/projects/"@ + project_dirname_seq(
                site.path@,
                site.name@,
            ) + "/app/public;"@,
        ),
        site.clone_of matches Some(ci) ==> contains_seq(
            vhost_seq(site),
            "location @uploads_base {\n        root /srv/projects/"@ + ci.parent_dirname@
                + "/app/public;\n        try_files $uri =404;"@,
        ),
{
    law_vhost_root_upstream_and_blocks(site);
    law_vhost_blocks_serve_worktree_and_clone_files(site);
    let v = vhost_seq(site);
    let b = vhost_blocks_seq(site);
    let dirname = project_dirname_seq(site.path@, site.name@);
    if let Some(wt) = site.worktree_of {
        lemma_contains_trans(
            v,
            b,
            "alias /srv/projects/"@ + dirname + "/wt/"@ + basename_seq(trim(wt.target_path@, CharClass::Is('/')))
                + "/$1;"@,
        );
    }
    if let Some(ci) = site.clone_of {
        lemma_contains_trans(
            v,
            b,
            "location ^~ /wp-content/uploads/ {\n        root /srv/projects/"@ + dirname + "/app/public;"@,
        );
        lemma_contains_trans(
            v,
            b,
            "location @uploads_base {\n        root /srv/projects/"@ + ci.parent_dirname@
                + "/app/public;\n        try_files $uri =404;"@,
        );
    }
}

} // verus!
