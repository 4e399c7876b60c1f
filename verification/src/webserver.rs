//! Fragment templates for the two web servers and the builder of the one
//! script that realises a pending change.
//!
//! Nothing here touches the disk or a process: each function maps a snapshot
//! of the registry to text. A whole operation is composed in memory as one
//! script, so that a single privileged run applies it.

use crate::errors::Error;
use crate::process::RunReport;
use crate::paths::{config_dir, document_location, document_path, SELECTION_FILE};
use crate::sites::{find_site, first_with, site_views, slice_text_of, text_of, Site, SiteKey,
    SiteType, SiteView};
use crate::text::{join, joined, push_str, texts};
use vstd::prelude::*;
use vstd::string::*;

verus! {

/// The web servers a site can be served by.
#[derive(Debug, Clone, Copy, PartialEq, Eq, Structural)]
pub enum Backend {
    Caddy,
    Nginx,
}

/// The changes a script can realise.
#[derive(Debug, Clone, Copy, PartialEq, Eq, Structural)]
pub enum Operation {
    SyncAll,
    AddSite,
    UpdateSite,
    RemoveSite,
    SwitchServer,
}

impl Backend {
    /// The backend that `name` names, if it names one.
    pub open spec fn named(name: Seq<char>) -> Option<Backend> {
        if name == "caddy"@ {
            Some(Backend::Caddy)
        } else if name == "nginx"@ {
            Some(Backend::Nginx)
        } else {
            None
        }
    }

    /// The backend a script is built for when the stored selection reads
    /// `active`: Caddy for `caddy`, Nginx for anything else.
    pub open spec fn serving(active: Seq<char>) -> Backend {
        if active == "caddy"@ {
            Backend::Caddy
        } else {
            Backend::Nginx
        }
    }

    /// The name under which the backend is stored and controlled.
    pub open spec fn spec_name(self) -> Seq<char> {
        match self {
            Backend::Caddy => "caddy"@,
            Backend::Nginx => "nginx"@,
        }
    }

    /// The backend that `name` names: `caddy` or `nginx`, nothing else.
    pub fn parse(name: &str) -> (r: Option<Backend>)
        ensures
            r == Backend::named(name@),
    {
        if *name == *"caddy" {
            Some(Backend::Caddy)
        } else if *name == *"nginx" {
            Some(Backend::Nginx)
        } else {
            None
        }
    }

    /// The backend a script is built for when the stored selection reads
    /// `active`.
    pub fn for_selection(active: &str) -> (r: Backend)
        ensures
            r == Backend::serving(active@),
    {
        if *active == *"caddy" {
            Backend::Caddy
        } else {
            Backend::Nginx
        }
    }

    /// The name under which the backend is stored and controlled.
    pub fn name(&self) -> (r: &'static str)
        ensures
            r@ == self.spec_name(),
    {
        match self {
            Backend::Caddy => "caddy",
            Backend::Nginx => "nginx",
        }
    }
}

impl Operation {
    /// The operation that `tag` names, if it names one.
    pub open spec fn named(tag: Seq<char>) -> Option<Operation> {
        if tag == "sync_all"@ {
            Some(Operation::SyncAll)
        } else if tag == "add_site"@ {
            Some(Operation::AddSite)
        } else if tag == "update_site"@ {
            Some(Operation::UpdateSite)
        } else if tag == "remove_site"@ {
            Some(Operation::RemoveSite)
        } else if tag == "switch_server"@ {
            Some(Operation::SwitchServer)
        } else {
            None
        }
    }

    /// The operation that `tag` names, if it names one.
    pub fn parse(tag: &str) -> (r: Option<Operation>)
        ensures
            r == Operation::named(tag@),
    {
        if *tag == *"sync_all" {
            Some(Operation::SyncAll)
        } else if *tag == *"add_site" {
            Some(Operation::AddSite)
        } else if *tag == *"update_site" {
            Some(Operation::UpdateSite)
        } else if *tag == *"remove_site" {
            Some(Operation::RemoveSite)
        } else if *tag == *"switch_server" {
            Some(Operation::SwitchServer)
        } else {
            None
        }
    }
}

// ---------------------------------------------------------------------------
// Fragment templates
// ---------------------------------------------------------------------------
pub const PUBLIC_SUFFIX: &'static str = "/public";

pub const SOCKET_PREFIX: &'static str = "/var/run/php/php";

pub const SOCKET_SUFFIX: &'static str = "-fpm.sock";

pub const CADDY_HTTP: &'static str = "http://";

pub const CADDY_HTTPS: &'static str = "https://";

pub const CADDY_OPEN: &'static str = " {\n";

pub const CADDY_TLS: &'static str = "    tls internal\n";

pub const CADDY_ROOT: &'static str = "    root * ";

pub const CADDY_FASTCGI: &'static str = "\n\n    php_fastcgi unix/";

pub const CADDY_CLOSE: &'static str = "\n    file_server\n\n    encode gzip\n}\n";

pub const NGINX_OPEN: &'static str = "server {\n    server_name ";

pub const NGINX_AFTER_NAME: &'static str = ";\n";

pub const NGINX_LISTEN_PLAIN: &'static str = "    listen 80;";

pub const NGINX_LISTEN_TLS: &'static str =
    "\n    listen 443 ssl;\n    ssl_certificate /etc/servermark/ssl/";

pub const NGINX_TLS_KEY: &'static str = ".crt;\n    ssl_certificate_key /etc/servermark/ssl/";

pub const NGINX_TLS_END: &'static str = ".key;\n";

pub const NGINX_ROOT: &'static str = "\n    root ";

pub const NGINX_LOCATIONS: &'static str =
    ";\n    index index.php index.html;\n\n    location / {\n        try_files $uri $uri/ /index.php?$query_string;\n    }\n\n    location ~ \\.php$ {\n        fastcgi_pass unix:";

pub const NGINX_CLOSE: &'static str =
    ";\n        fastcgi_param SCRIPT_FILENAME $realpath_root$fastcgi_script_name;\n        include fastcgi_params;\n    }\n\n    location ~ /\\.(?!well-known).* {\n        deny all;\n    }\n}\n";

/// The directory a site is served from: `public` below the project for the
/// frameworks that keep their front controller there, the project itself
/// otherwise.
pub open spec fn document_root(site: SiteView) -> Seq<char> {
    if site.site_type == SiteType::Laravel || site.site_type == SiteType::Symfony {
        site.path + PUBLIC_SUFFIX@
    } else {
        site.path
    }
}

/// The FastCGI socket of the PHP version a site runs on.
pub open spec fn php_socket(site: SiteView) -> Seq<char> {
    SOCKET_PREFIX@ + site.php_version + SOCKET_SUFFIX@
}

/// The address block of a Caddy fragment: the scheme follows `secured`.
pub open spec fn caddy_address(site: SiteView) -> Seq<char> {
    if site.secured {
        CADDY_HTTPS@ + site.domain
    } else {
        CADDY_HTTP@ + site.domain
    }
}

/// The Caddy fragment of a site.
pub open spec fn caddy_site_config(site: SiteView) -> Seq<char> {
    caddy_address(site) + CADDY_OPEN@ + (if site.secured {
        CADDY_TLS@
    } else {
        Seq::<char>::empty()
    }) + CADDY_ROOT@ + document_root(site) + CADDY_FASTCGI@ + php_socket(site) + CADDY_CLOSE@
}

/// The `listen` part of an Nginx fragment: port 443 with the certificate and
/// key of the domain when `secured`, port 80 otherwise.
pub open spec fn nginx_listen(site: SiteView) -> Seq<char> {
    if site.secured {
        NGINX_LISTEN_TLS@ + site.domain + NGINX_TLS_KEY@ + site.domain + NGINX_TLS_END@
    } else {
        NGINX_LISTEN_PLAIN@
    }
}

/// The Nginx fragment of a site.
pub open spec fn nginx_site_config(site: SiteView) -> Seq<char> {
    NGINX_OPEN@ + site.domain + NGINX_AFTER_NAME@ + nginx_listen(site) + NGINX_ROOT@
        + document_root(site) + NGINX_LOCATIONS@ + php_socket(site) + NGINX_CLOSE@
}

/// The fragment of a site for a backend.
pub open spec fn site_config(site: SiteView, backend: Backend) -> Seq<char> {
    match backend {
        Backend::Caddy => caddy_site_config(site),
        Backend::Nginx => nginx_site_config(site),
    }
}

/// The directory a site is served from.
pub fn site_document_root(site: &Site) -> (r: String)
    ensures
        r@ == document_root(site@),
{
    match site.site_type {
        SiteType::Laravel | SiteType::Symfony => site.path.clone().concat(PUBLIC_SUFFIX),
        _ => site.path.clone(),
    }
}

/// The FastCGI socket of the PHP version a site runs on.
pub fn site_php_socket(site: &Site) -> (r: String)
    ensures
        r@ == php_socket(site@),
{
    SOCKET_PREFIX.to_string().concat(site.php_version.as_str()).concat(SOCKET_SUFFIX)
}

/// The Caddy fragment of a site. The text depends on the domain, the path,
/// the PHP version, the `secured` flag and the site type, and on nothing
/// else.
pub fn generate_caddy_site_config(site: &Site) -> (r: String)
    ensures
        r@ == caddy_site_config(site@),
{
    let root = site_document_root(site);
    let socket = site_php_socket(site);
    let mut out = if site.secured {
        CADDY_HTTPS.to_string().concat(site.domain.as_str())
    } else {
        CADDY_HTTP.to_string().concat(site.domain.as_str())
    };
    out.append(CADDY_OPEN);
    if site.secured {
        out.append(CADDY_TLS);
    } else {
        assert(out@ + Seq::<char>::empty() =~= out@);
    }
    out.append(CADDY_ROOT);
    out.append(root.as_str());
    out.append(CADDY_FASTCGI);
    out.append(socket.as_str());
    out.append(CADDY_CLOSE);
    out
}

/// The `listen` part of an Nginx fragment.
fn site_nginx_listen(site: &Site) -> (r: String)
    ensures
        r@ == nginx_listen(site@),
{
    if site.secured {
        let mut out = NGINX_LISTEN_TLS.to_string();
        out.append(site.domain.as_str());
        out.append(NGINX_TLS_KEY);
        out.append(site.domain.as_str());
        out.append(NGINX_TLS_END);
        out
    } else {
        NGINX_LISTEN_PLAIN.to_string()
    }
}

/// The Nginx fragment of a site. The text depends on the domain, the path,
/// the PHP version, the `secured` flag and the site type, and on nothing
/// else.
pub fn generate_nginx_site_config(site: &Site) -> (r: String)
    ensures
        r@ == nginx_site_config(site@),
{
    let root = site_document_root(site);
    let socket = site_php_socket(site);
    let listen = site_nginx_listen(site);
    let mut out = NGINX_OPEN.to_string();
    out.append(site.domain.as_str());
    out.append(NGINX_AFTER_NAME);
    out.append(listen.as_str());
    out.append(NGINX_ROOT);
    out.append(root.as_str());
    out.append(NGINX_LOCATIONS);
    out.append(socket.as_str());
    out.append(NGINX_CLOSE);
    out
}

/// The fragment of a site for a backend.
pub fn generate_config(site: &Site, backend: Backend) -> (r: String)
    ensures
        r@ == site_config(site@, backend),
{
    match backend {
        Backend::Caddy => generate_caddy_site_config(site),
        Backend::Nginx => generate_nginx_site_config(site),
    }
}

// ---------------------------------------------------------------------------
// Script builder
// ---------------------------------------------------------------------------
pub const SCRIPT_HEADER: &'static str = "#!/bin/bash\nset -e\n\n";

pub const PREAMBLE_OPEN: &'static str =
    "\n# Ensure directories exist\nmkdir -p /etc/caddy/sites.d\nmkdir -p /etc/nginx/sites-available\nmkdir -p /etc/nginx/sites-enabled\nmkdir -p /etc/servermark/ssl\nchown -R root:root /etc/caddy/sites.d 2>/dev/null || true\nchmod 755 /etc/caddy/sites.d\n\n# Add common Docker hostnames to /etc/hosts (for Laravel projects migrated from Docker)\nfor hostname in ";

pub const PREAMBLE_CLOSE: &'static str =
    "; do\n    grep -q \"127.0.0.1.*\\b${hostname}\\b\" /etc/hosts 2>/dev/null || echo \"127.0.0.1 ${hostname}\" >> /etc/hosts\ndone\n\n";

pub const HOST_SEPARATOR: &'static str = " ";

pub const HOST_COUNT: usize = 13;

pub const CADDY_DIR: &'static str = "/etc/caddy/sites.d/";

pub const CADDY_EXT: &'static str = ".conf";

pub const NGINX_AVAILABLE_DIR: &'static str = "/etc/nginx/sites-available/";

pub const NGINX_ENABLED_DIR: &'static str = "/etc/nginx/sites-enabled/";

pub const NGINX_FILE_PREFIX: &'static str = "servermark-";

pub const NOTE_OPEN: &'static str = "# Site: ";

pub const LINE_END: &'static str = "\n";

pub const WRITE_OPEN: &'static str = "cat > '";

pub const HEREDOC_OPEN: &'static str = "' << 'SITEEOF'\n";

pub const HEREDOC_CLOSE: &'static str = "\nSITEEOF\n";

pub const LINK_OPEN: &'static str = "ln -sf '";

pub const LINK_MIDDLE: &'static str = "' '";

pub const QUOTE_END: &'static str = "'\n";

pub const CERT_TEST: &'static str = "if [ ! -f \"/etc/servermark/ssl/";

pub const CERT_REQUEST: &'static str =
    ".crt\" ]; then\n    openssl req -x509 -nodes -days 365 -newkey rsa:2048 \\\n        -keyout \"/etc/servermark/ssl/";

pub const CERT_OUT: &'static str = ".key\" \\\n        -out \"/etc/servermark/ssl/";

pub const CERT_SUBJECT: &'static str = ".crt\" \\\n        -subj \"/CN=";

pub const CERT_END: &'static str = "\" 2>/dev/null\nfi\n";

pub const CLEAR_CADDY: &'static str =
    "# Clear old Caddy configs\nrm -f /etc/caddy/sites.d/*.conf\n\n";

pub const CLEAR_NGINX: &'static str =
    "# Clear old Nginx configs\nrm -f /etc/nginx/sites-enabled/servermark-*\nrm -f /etc/nginx/sites-available/servermark-*\n\n";

pub const RELOAD_CADDY: &'static str = "systemctl reload caddy || systemctl restart caddy\n";

pub const RELOAD_NGINX: &'static str =
    "nginx -t && systemctl reload nginx || systemctl restart nginx\n";

pub const QUIET_RELOAD_CADDY: &'static str = "systemctl reload caddy 2>/dev/null || true\n";

pub const QUIET_RELOAD_NGINX: &'static str =
    "nginx -t && systemctl reload nginx 2>/dev/null || true\n";

pub const HOSTS_TEST: &'static str = "grep -q '";

pub const HOSTS_APPEND: &'static str = "' /etc/hosts || echo '127.0.0.1 ";

pub const HOSTS_END: &'static str = "' >> /etc/hosts\n";

pub const HOSTS_DROP_OPEN: &'static str = "sed -i '/";

pub const HOSTS_DROP_END: &'static str = "/d' /etc/hosts\n";

pub const REMOVE_OPEN: &'static str = "rm -f '";

pub const SWITCH_TO_CADDY: &'static str =
    "\n# Switch to Caddy\nsystemctl stop nginx 2>/dev/null || true\nsystemctl disable nginx 2>/dev/null || true\n";

pub const SWITCH_TO_NGINX: &'static str =
    "\n# Switch to Nginx\nsystemctl stop caddy 2>/dev/null || true\nsystemctl disable caddy 2>/dev/null || true\n";

pub const LEAVE_CADDY: &'static str = "\n# Remove the Caddy configs\n";

pub const LEAVE_NGINX: &'static str = "\n# Remove the Nginx configs\n";

pub const REGENERATE_CADDY: &'static str = "\n# Regenerate all Caddy configs\n";

pub const REGENERATE_NGINX: &'static str = "\n# Regenerate all Nginx configs\n";

pub const REMOVE_CADDY_FRAGMENTS: &'static str = "rm -f /etc/caddy/sites.d/*.conf\n";

pub const REMOVE_NGINX_FRAGMENTS: &'static str =
    "rm -f /etc/nginx/sites-enabled/servermark-*\nrm -f /etc/nginx/sites-available/servermark-*\n";

pub const START_CADDY: &'static str = "\nsystemctl enable caddy\nsystemctl start caddy\n";

pub const START_NGINX: &'static str =
    "\nsystemctl enable nginx\nnginx -t && systemctl start nginx\n";

/// The host names under which projects moved out of containers look for
/// their services (database, cache, mail, search), in the order in which the
/// preamble lists them.
pub open spec fn container_host(index: int) -> Seq<char> {
    if index == 0 {
        "mysql"@
    } else if index == 1 {
        "mariadb"@
    } else if index == 2 {
        "postgres"@
    } else if index == 3 {
        "redis"@
    } else if index == 4 {
        "memcached"@
    } else if index == 5 {
        "mailhog"@
    } else if index == 6 {
        "mailpit"@
    } else if index == 7 {
        "meilisearch"@
    } else if index == 8 {
        "elasticsearch"@
    } else if index == 9 {
        "mongo"@
    } else if index == 10 {
        "mongodb"@
    } else if index == 11 {
        "rabbitmq"@
    } else {
        "minio"@
    }
}

/// The host names of the container services, in order.
pub open spec fn container_hosts() -> Seq<Seq<char>> {
    Seq::new(HOST_COUNT as nat, |i: int| container_host(i))
}

/// The preamble that every script begins with: it makes sure that the
/// configuration directories exist and belong to the right owner, and adds a
/// loopback entry to the hosts table for every container host name that the
/// table does not mention yet.
pub open spec fn script_preamble() -> Seq<char> {
    PREAMBLE_OPEN@ + joined(container_hosts(), HOST_SEPARATOR@) + PREAMBLE_CLOSE@
}

fn container_host_at(index: usize) -> (r: &'static str)
    ensures
        r@ == container_host(index as int),
{
    if index == 0 {
        "mysql"
    } else if index == 1 {
        "mariadb"
    } else if index == 2 {
        "postgres"
    } else if index == 3 {
        "redis"
    } else if index == 4 {
        "memcached"
    } else if index == 5 {
        "mailhog"
    } else if index == 6 {
        "mailpit"
    } else if index == 7 {
        "meilisearch"
    } else if index == 8 {
        "elasticsearch"
    } else if index == 9 {
        "mongo"
    } else if index == 10 {
        "mongodb"
    } else if index == 11 {
        "rabbitmq"
    } else {
        "minio"
    }
}

/// The host names of the container services, in order.
pub fn container_hostnames() -> (r: Vec<String>)
    ensures
        texts(r@) == container_hosts(),
{
    let mut out: Vec<String> = Vec::new();
    let mut i: usize = 0;
    assert(texts(out@) =~= container_hosts().take(0));
    while i < HOST_COUNT
        invariant
            i <= HOST_COUNT,
            texts(out@) == container_hosts().take(i as int),
        decreases HOST_COUNT - i,
    {
        let ghost before = texts(out@);
        push_str(&mut out, container_host_at(i));
        assert(before.push(container_host(i as int)) =~= container_hosts().take(i + 1));
        i += 1;
    }
    assert(container_hosts().take(HOST_COUNT as int) =~= container_hosts());
    out
}

/// The preamble that every script begins with; see [`script_preamble`].
pub fn preamble() -> (r: String)
    ensures
        r@ == script_preamble(),
{
    let hosts = join(&container_hostnames(), HOST_SEPARATOR);
    PREAMBLE_OPEN.to_string().concat(hosts.as_str()).concat(PREAMBLE_CLOSE)
}

/// The file that holds the Caddy fragment of the site called `name`.
pub open spec fn caddy_file(name: Seq<char>) -> Seq<char> {
    CADDY_DIR@ + name + CADDY_EXT@
}

/// The file that holds the Nginx fragment of the site called `name`.
pub open spec fn nginx_available_file(name: Seq<char>) -> Seq<char> {
    NGINX_AVAILABLE_DIR@ + (NGINX_FILE_PREFIX@ + name)
}

/// The link that enables the Nginx fragment of the site called `name`.
pub open spec fn nginx_enabled_file(name: Seq<char>) -> Seq<char> {
    NGINX_ENABLED_DIR@ + (NGINX_FILE_PREFIX@ + name)
}

/// The file a backend reads the fragment of the site called `name` from.
pub open spec fn fragment_file(name: Seq<char>, backend: Backend) -> Seq<char> {
    match backend {
        Backend::Caddy => caddy_file(name),
        Backend::Nginx => nginx_available_file(name),
    }
}

/// The step that issues a self-signed certificate for `domain` (RSA, 2048
/// bits, valid for 365 days, the domain as common name) unless one is there.
pub open spec fn certificate_step(domain: Seq<char>) -> Seq<char> {
    CERT_TEST@ + domain + CERT_REQUEST@ + domain + CERT_OUT@ + domain + CERT_SUBJECT@ + domain
        + CERT_END@
}

/// The step that links the Nginx fragment of the site called `name` into the
/// directory of enabled sites.
pub open spec fn enable_step(name: Seq<char>) -> Seq<char> {
    LINK_OPEN@ + nginx_available_file(name) + LINK_MIDDLE@ + nginx_enabled_file(name) + QUOTE_END@
}

/// The steps that write the fragment of one site for a backend. With
/// `annotated` the steps are headed by a comment naming the site and followed
/// by a blank line. For Nginx the fragment is also enabled, and a secured
/// site gets its certificate.
pub open spec fn fragment_steps(site: SiteView, backend: Backend, annotated: bool) -> Seq<char> {
    (if annotated {
        NOTE_OPEN@ + site.name + LINE_END@
    } else {
        Seq::<char>::empty()
    }) + WRITE_OPEN@ + fragment_file(site.name, backend) + HEREDOC_OPEN@ + site_config(
        site,
        backend,
    ) + HEREDOC_CLOSE@ + (if backend == Backend::Nginx {
        enable_step(site.name)
    } else {
        Seq::<char>::empty()
    }) + (if annotated {
        LINE_END@
    } else {
        Seq::<char>::empty()
    }) + (if backend == Backend::Nginx && site.secured {
        certificate_step(site.domain)
    } else {
        Seq::<char>::empty()
    })
}

/// The fragment steps of every site, in registry order.
pub open spec fn all_fragment_steps(sites: Seq<SiteView>, backend: Backend, annotated: bool) -> Seq<
    char,
>
    decreases sites.len(),
{
    if sites.len() == 0 {
        Seq::<char>::empty()
    } else {
        all_fragment_steps(sites.drop_last(), backend, annotated) + fragment_steps(
            sites.last(),
            backend,
            annotated,
        )
    }
}

/// The step that makes a backend pick up its fragments: a reload, and a
/// restart where the reload fails.
pub open spec fn reload_step(backend: Backend) -> Seq<char> {
    match backend {
        Backend::Caddy => RELOAD_CADDY@,
        Backend::Nginx => RELOAD_NGINX@,
    }
}

/// The reload that follows a removal; its failure does not fail the script.
pub open spec fn quiet_reload_step(backend: Backend) -> Seq<char> {
    match backend {
        Backend::Caddy => QUIET_RELOAD_CADDY@,
        Backend::Nginx => QUIET_RELOAD_NGINX@,
    }
}

/// The step that adds a loopback entry for `domain` to the hosts table
/// unless the table already mentions the domain.
pub open spec fn hosts_entry_step(domain: Seq<char>) -> Seq<char> {
    HOSTS_TEST@ + domain + HOSTS_APPEND@ + domain + HOSTS_END@
}

/// The step that deletes every line mentioning `domain` from the hosts table.
pub open spec fn hosts_drop_step(domain: Seq<char>) -> Seq<char> {
    HOSTS_DROP_OPEN@ + domain + HOSTS_DROP_END@
}

/// The step that deletes one file.
pub open spec fn remove_file_step(file: Seq<char>) -> Seq<char> {
    REMOVE_OPEN@ + file + QUOTE_END@
}

/// Full resync: wipe the generated fragments of the backend, write one per
/// site, reload.
pub open spec fn sync_steps(sites: Seq<SiteView>, backend: Backend) -> Seq<char> {
    (match backend {
        Backend::Caddy => CLEAR_CADDY@,
        Backend::Nginx => CLEAR_NGINX@,
    }) + all_fragment_steps(sites, backend, true) + reload_step(backend)
}

/// Add or update one site: write its fragment, reload, make sure the hosts
/// table resolves its domain. Nothing when no name is given or no site
/// carries it.
pub open spec fn publish_steps(sites: Seq<SiteView>, backend: Backend, name: Option<Seq<char>>)
    -> Seq<char> {
    match name {
        None => Seq::<char>::empty(),
        Some(n) => match first_with(sites, SiteKey::Name, n) {
            None => Seq::<char>::empty(),
            Some(site) => fragment_steps(site, backend, false) + reload_step(backend)
                + hosts_entry_step(site.domain),
        },
    }
}

/// Remove one site: delete its fragment for Caddy and both of its files for
/// Nginx, whichever backend is active, reload the active backend, and drop
/// the hosts entry of the site where the snapshot still holds it.
pub open spec fn remove_steps(sites: Seq<SiteView>, backend: Backend, name: Option<Seq<char>>)
    -> Seq<char> {
    match name {
        None => Seq::<char>::empty(),
        Some(n) => remove_file_step(caddy_file(n)) + remove_file_step(nginx_available_file(n))
            + remove_file_step(nginx_enabled_file(n)) + quiet_reload_step(backend) + (
        match first_with(sites, SiteKey::Name, n) {
            None => Seq::<char>::empty(),
            Some(site) => hosts_drop_step(site.domain),
        }),
    }
}

impl Backend {
    /// The other backend.
    pub open spec fn other(self) -> Backend {
        match self {
            Backend::Caddy => Backend::Nginx,
            Backend::Nginx => Backend::Caddy,
        }
    }
}

/// The step that deletes every generated fragment of a backend.
pub open spec fn remove_fragments_step(backend: Backend) -> Seq<char> {
    match backend {
        Backend::Caddy => REMOVE_CADDY_FRAGMENTS@,
        Backend::Nginx => REMOVE_NGINX_FRAGMENTS@,
    }
}

/// Switch to `backend`: stop and disable the other server and delete the
/// fragments that were generated for it, then delete the fragments of
/// `backend`, write its whole fragment set anew, enable and start it.
pub open spec fn switch_steps(sites: Seq<SiteView>, backend: Backend) -> Seq<char> {
    match backend {
        Backend::Caddy => SWITCH_TO_CADDY@ + LEAVE_NGINX@ + remove_fragments_step(
            Backend::Nginx,
        ) + REGENERATE_CADDY@ + remove_fragments_step(Backend::Caddy) + all_fragment_steps(
            sites,
            backend,
            false,
        ) + START_CADDY@,
        Backend::Nginx => SWITCH_TO_NGINX@ + LEAVE_CADDY@ + remove_fragments_step(
            Backend::Caddy,
        ) + REGENERATE_NGINX@ + remove_fragments_step(Backend::Nginx) + all_fragment_steps(
            sites,
            backend,
            false,
        ) + START_NGINX@,
    }
}

/// The steps of one operation; none for an unknown operation.
pub open spec fn operation_steps(
    operation: Option<Operation>,
    sites: Seq<SiteView>,
    backend: Backend,
    name: Option<Seq<char>>,
) -> Seq<char> {
    match operation {
        None => Seq::<char>::empty(),
        Some(Operation::SyncAll) => sync_steps(sites, backend),
        Some(Operation::AddSite) => publish_steps(sites, backend, name),
        Some(Operation::UpdateSite) => publish_steps(sites, backend, name),
        Some(Operation::RemoveSite) => remove_steps(sites, backend, name),
        Some(Operation::SwitchServer) => switch_steps(sites, backend),
    }
}

/// The whole script of one operation: the interpreter line, the shared
/// preamble (configuration directories, container host names), then the
/// steps of the operation.
pub open spec fn webserver_script(
    operation: Option<Operation>,
    sites: Seq<SiteView>,
    backend: Backend,
    name: Option<Seq<char>>,
) -> Seq<char> {
    SCRIPT_HEADER@ + script_preamble() + operation_steps(operation, sites, backend, name)
}

/// The file that holds the Caddy fragment of the site called `name`.
pub fn caddy_fragment_path(name: &str) -> (r: String)
    ensures
        r@ == caddy_file(name@),
{
    CADDY_DIR.to_string().concat(name).concat(CADDY_EXT)
}

/// The file that holds the Nginx fragment of the site called `name`.
pub fn nginx_available_path(name: &str) -> (r: String)
    ensures
        r@ == nginx_available_file(name@),
{
    let file = NGINX_FILE_PREFIX.to_string().concat(name);
    NGINX_AVAILABLE_DIR.to_string().concat(file.as_str())
}

/// The link that enables the Nginx fragment of the site called `name`.
pub fn nginx_enabled_path(name: &str) -> (r: String)
    ensures
        r@ == nginx_enabled_file(name@),
{
    let file = NGINX_FILE_PREFIX.to_string().concat(name);
    NGINX_ENABLED_DIR.to_string().concat(file.as_str())
}

fn certificate_script(domain: &str) -> (r: String)
    ensures
        r@ == certificate_step(domain@),
{
    let mut out = CERT_TEST.to_string();
    out.append(domain);
    out.append(CERT_REQUEST);
    out.append(domain);
    out.append(CERT_OUT);
    out.append(domain);
    out.append(CERT_SUBJECT);
    out.append(domain);
    out.append(CERT_END);
    out
}

fn enable_script(name: &str) -> (r: String)
    ensures
        r@ == enable_step(name@),
{
    let available = nginx_available_path(name);
    let enabled = nginx_enabled_path(name);
    let mut out = LINK_OPEN.to_string();
    out.append(available.as_str());
    out.append(LINK_MIDDLE);
    out.append(enabled.as_str());
    out.append(QUOTE_END);
    out
}

fn remove_file_script(file: &str) -> (r: String)
    ensures
        r@ == remove_file_step(file@),
{
    REMOVE_OPEN.to_string().concat(file).concat(QUOTE_END)
}

fn hosts_entry_script(domain: &str) -> (r: String)
    ensures
        r@ == hosts_entry_step(domain@),
{
    let mut out = HOSTS_TEST.to_string();
    out.append(domain);
    out.append(HOSTS_APPEND);
    out.append(domain);
    out.append(HOSTS_END);
    out
}

/// An empty piece changes nothing when appended.
proof fn lemma_append_nothing(s: Seq<char>)
    ensures
        s + Seq::<char>::empty() == s,
{
    assert(s + Seq::<char>::empty() =~= s);
}

/// The steps that write the fragment of one site for a backend.
pub fn fragment_script(site: &Site, backend: Backend, annotated: bool) -> (r: String)
    ensures
        r@ == fragment_steps(site@, backend, annotated),
{
    let config = generate_config(site, backend);
    let file = match backend {
        Backend::Caddy => caddy_fragment_path(site.name.as_str()),
        Backend::Nginx => nginx_available_path(site.name.as_str()),
    };
    let mut out = if annotated {
        NOTE_OPEN.to_string().concat(site.name.as_str()).concat(LINE_END)
    } else {
        String::new()
    };
    out.append(WRITE_OPEN);
    out.append(file.as_str());
    out.append(HEREDOC_OPEN);
    out.append(config.as_str());
    out.append(HEREDOC_CLOSE);
    match backend {
        Backend::Nginx => {
            let link = enable_script(site.name.as_str());
            out.append(link.as_str());
        },
        Backend::Caddy => {
            proof {
                lemma_append_nothing(out@);
            }
        },
    }
    if annotated {
        out.append(LINE_END);
    } else {
        proof {
            lemma_append_nothing(out@);
        }
    }
    match backend {
        Backend::Nginx => {
            if site.secured {
                let cert = certificate_script(site.domain.as_str());
                out.append(cert.as_str());
            } else {
                proof {
                    lemma_append_nothing(out@);
                }
            }
        },
        Backend::Caddy => {
            proof {
                lemma_append_nothing(out@);
            }
        },
    }
    out
}

/// The fragment steps of every site, in registry order.
pub fn all_fragment_scripts(sites: &[Site], backend: Backend, annotated: bool) -> (r: String)
    ensures
        r@ == all_fragment_steps(site_views(sites@), backend, annotated),
{
    let ghost all = site_views(sites@);
    let mut out = String::new();
    let mut i: usize = 0;
    while i < sites.len()
        invariant
            i <= sites.len(),
            all == site_views(sites@),
            out@ == all_fragment_steps(all.take(i as int), backend, annotated),
        decreases sites.len() - i,
    {
        let steps = fragment_script(&sites[i], backend, annotated);
        proof {
            assert(all.take(i + 1).drop_last() =~= all.take(i as int));
            assert(all.take(i + 1).last() == sites@[i as int]@);
        }
        out.append(steps.as_str());
        i += 1;
    }
    assert(all.take(sites@.len() as int) =~= all);
    out
}

fn sync_script(sites: &[Site], backend: Backend) -> (r: String)
    ensures
        r@ == sync_steps(site_views(sites@), backend),
{
    let fragments = all_fragment_scripts(sites, backend, true);
    let mut out = match backend {
        Backend::Caddy => CLEAR_CADDY.to_string(),
        Backend::Nginx => CLEAR_NGINX.to_string(),
    };
    out.append(fragments.as_str());
    match backend {
        Backend::Caddy => out.append(RELOAD_CADDY),
        Backend::Nginx => out.append(RELOAD_NGINX),
    }
    out
}

fn publish_script(sites: &[Site], backend: Backend, name: Option<&str>) -> (r: String)
    ensures
        r@ == publish_steps(site_views(sites@), backend, slice_text_of(name)),
{
    match name {
        None => String::new(),
        Some(n) => match find_site(sites, SiteKey::Name, n) {
            None => String::new(),
            Some(i) => {
                let site = &sites[i];
                let mut out = fragment_script(site, backend, false);
                match backend {
                    Backend::Caddy => out.append(RELOAD_CADDY),
                    Backend::Nginx => out.append(RELOAD_NGINX),
                }
                let hosts = hosts_entry_script(site.domain.as_str());
                out.append(hosts.as_str());
                out
            },
        },
    }
}

fn remove_script(sites: &[Site], backend: Backend, name: Option<&str>) -> (r: String)
    ensures
        r@ == remove_steps(site_views(sites@), backend, slice_text_of(name)),
{
    match name {
        None => String::new(),
        Some(n) => {
            let caddy = caddy_fragment_path(n);
            let available = nginx_available_path(n);
            let enabled = nginx_enabled_path(n);
            let mut out = remove_file_script(caddy.as_str());
            let second = remove_file_script(available.as_str());
            out.append(second.as_str());
            let third = remove_file_script(enabled.as_str());
            out.append(third.as_str());
            match backend {
                Backend::Caddy => out.append(QUIET_RELOAD_CADDY),
                Backend::Nginx => out.append(QUIET_RELOAD_NGINX),
            }
            match find_site(sites, SiteKey::Name, n) {
                None => {
                    proof {
                        lemma_append_nothing(out@);
                    }
                },
                Some(i) => {
                    let drop = HOSTS_DROP_OPEN.to_string().concat(sites[i].domain.as_str()).concat(
                        HOSTS_DROP_END,
                    );
                    out.append(drop.as_str());
                },
            }
            out
        },
    }
}

fn switch_script(sites: &[Site], backend: Backend) -> (r: String)
    ensures
        r@ == switch_steps(site_views(sites@), backend),
{
    let fragments = all_fragment_scripts(sites, backend, false);
    match backend {
        Backend::Caddy => {
            let mut out = SWITCH_TO_CADDY.to_string();
            out.append(LEAVE_NGINX);
            out.append(REMOVE_NGINX_FRAGMENTS);
            out.append(REGENERATE_CADDY);
            out.append(REMOVE_CADDY_FRAGMENTS);
            out.append(fragments.as_str());
            out.append(START_CADDY);
            out
        },
        Backend::Nginx => {
            let mut out = SWITCH_TO_NGINX.to_string();
            out.append(LEAVE_CADDY);
            out.append(REMOVE_CADDY_FRAGMENTS);
            out.append(REGENERATE_NGINX);
            out.append(REMOVE_NGINX_FRAGMENTS);
            out.append(fragments.as_str());
            out.append(START_NGINX);
            out
        },
    }
}

/// The script of one operation on a snapshot of the registry, for a backend.
/// `operation` is `None` for a tag that names no operation: the script then
/// holds the preamble alone.
pub fn build_script(
    operation: Option<Operation>,
    sites: &[Site],
    backend: Backend,
    site_name: Option<&str>,
) -> (script: String)
    ensures
        script@ == webserver_script(
            operation,
            site_views(sites@),
            backend,
            slice_text_of(site_name),
        ),
{
    let steps = match operation {
        None => String::new(),
        Some(Operation::SyncAll) => sync_script(sites, backend),
        Some(Operation::AddSite) => publish_script(sites, backend, site_name),
        Some(Operation::UpdateSite) => publish_script(sites, backend, site_name),
        Some(Operation::RemoveSite) => remove_script(sites, backend, site_name),
        Some(Operation::SwitchServer) => switch_script(sites, backend),
    };
    let start = preamble();
    SCRIPT_HEADER.to_string().concat(start.as_str()).concat(steps.as_str())
}

/// The script of the operation tagged `operation` on a snapshot of the
/// registry. The whole script is composed before it is handed out, so an
/// operation over many sites is never emitted in part. `active_server` is
/// the stored selection: `caddy` selects Caddy, anything else Nginx. The
/// script is a function of the four arguments: building it again from an
/// unchanged registry gives the same bytes.
pub fn build_webserver_script(
    operation: &str,
    sites: &[Site],
    active_server: &str,
    site_name: Option<&str>,
) -> (script: String)
    ensures
        script@ == webserver_script(
            Operation::named(operation@),
            site_views(sites@),
            Backend::serving(active_server@),
            slice_text_of(site_name),
        ),
{
    build_script(
        Operation::parse(operation),
        sites,
        Backend::for_selection(active_server),
        site_name,
    )
}

// ---------------------------------------------------------------------------
// The stored selection of the active backend
// ---------------------------------------------------------------------------
/// The stored selection: which server is active, and which are installed.
#[derive(Debug, PartialEq, Eq)]
pub struct WebServerConfig {
    pub active: String,
    pub caddy_installed: bool,
    pub nginx_installed: bool,
}

/// Mathematical model of a [`WebServerConfig`].
pub struct WebServerConfigView {
    pub active: Seq<char>,
    pub caddy_installed: bool,
    pub nginx_installed: bool,
}

impl View for WebServerConfig {
    type V = WebServerConfigView;

    open spec fn view(&self) -> WebServerConfigView {
        WebServerConfigView {
            active: self.active@,
            caddy_installed: self.caddy_installed,
            nginx_installed: self.nginx_installed,
        }
    }
}

impl Clone for WebServerConfig {
    fn clone(&self) -> (r: Self)
        ensures
            r@ == self@,
    {
        WebServerConfig {
            active: self.active.clone(),
            caddy_installed: self.caddy_installed,
            nginx_installed: self.nginx_installed,
        }
    }
}

impl Default for WebServerConfig {
    /// The selection before anything was stored: Caddy is active, nothing
    /// is known to be installed.
    fn default() -> (r: Self)
        ensures
            r@.active == Backend::Caddy.spec_name(),
            !r@.caddy_installed,
            !r@.nginx_installed,
    {
        WebServerConfig {
            active: Backend::Caddy.name().to_string(),
            caddy_installed: false,
            nginx_installed: false,
        }
    }
}

/// Where the selection document lies, given the user's configuration
/// directory.
pub fn selection_path(config_dir: &Option<String>) -> (r: String)
    ensures
        r@ == document_location(text_of(*config_dir), SELECTION_FILE@),
{
    document_path(config_dir, SELECTION_FILE)
}

/// Where the selection document lies for the current user.
pub fn get_webserver_config_path() -> (r: String)
    ensures
        exists|dir: Option<Seq<char>>| r@ == #[trigger] document_location(dir, SELECTION_FILE@),
{
    let dir = config_dir();
    selection_path(&dir)
}

/// The selection to work on, given what the stored document held: that
/// selection, or the initial one where there was no document or it could
/// not be understood.
pub fn load_webserver_config(stored: Option<WebServerConfig>) -> (r: WebServerConfig)
    ensures
        match stored {
            Some(config) => r == config,
            None => r@.active == Backend::Caddy.spec_name() && !r@.caddy_installed
                && !r@.nginx_installed,
        },
{
    match stored {
        Some(config) => config,
        None => WebServerConfig::default(),
    }
}

/// The name of the active web server.
pub fn get_active_webserver(config: &WebServerConfig) -> (r: String)
    ensures
        r@ == config@.active,
{
    config.active.clone()
}

// ---------------------------------------------------------------------------
// Operations
// ---------------------------------------------------------------------------
/// The script that brings every fragment of the active backend in line with
/// the registry. The registry is not touched, and the script is the same
/// for the same registry, so running it again repairs any drift and changes
/// nothing else.
pub fn sync_webserver_configs(sites: &[Site], active_server: &str) -> (script: String)
    ensures
        script@ == webserver_script(
            Some(Operation::SyncAll),
            site_views(sites@),
            Backend::serving(active_server@),
            None,
        ),
{
    build_script(Some(Operation::SyncAll), sites, Backend::for_selection(active_server), None)
}

/// The script that publishes the site called `site_name`.
pub fn webserver_add_site(sites: &[Site], active_server: &str, site_name: &str) -> (script: String)
    ensures
        script@ == webserver_script(
            Some(Operation::AddSite),
            site_views(sites@),
            Backend::serving(active_server@),
            Some(site_name@),
        ),
{
    build_script(
        Some(Operation::AddSite),
        sites,
        Backend::for_selection(active_server),
        Some(site_name),
    )
}

/// The script that withdraws the site called `site_name` from both
/// backends.
pub fn webserver_remove_site(sites: &[Site], active_server: &str, site_name: &str) -> (script:
    String)
    ensures
        script@ == webserver_script(
            Some(Operation::RemoveSite),
            site_views(sites@),
            Backend::serving(active_server@),
            Some(site_name@),
        ),
{
    build_script(
        Some(Operation::RemoveSite),
        sites,
        Backend::for_selection(active_server),
        Some(site_name),
    )
}

/// The script that republishes the site called `site_name` after a change.
pub fn webserver_update_site(sites: &[Site], active_server: &str, site_name: &str) -> (script:
    String)
    ensures
        script@ == webserver_script(
            Some(Operation::UpdateSite),
            site_views(sites@),
            Backend::serving(active_server@),
            Some(site_name@),
        ),
{
    build_script(
        Some(Operation::UpdateSite),
        sites,
        Backend::for_selection(active_server),
        Some(site_name),
    )
}

/// Makes `server` the active backend and builds the script that hands the
/// sites over to it.
///
/// A name other than `caddy` and `nginx` is refused and the selection left
/// as it was. Otherwise the selection names `server`, the installation
/// flags are kept, and the script stops the other server, deletes the
/// fragments generated for it, writes the fragment of every site for
/// `server` and starts it.
pub fn switch_active_webserver(config: &mut WebServerConfig, server: &str, sites: &[Site]) -> (r:
    Result<String, Error>)
    ensures
        match r {
            Ok(script) => {
                &&& Backend::named(server@) matches Some(backend)
                &&& final(config)@ == (WebServerConfigView { active: server@, ..old(config)@ })
                &&& script@ == webserver_script(
                    Some(Operation::SwitchServer),
                    site_views(sites@),
                    backend,
                    None,
                )
            },
            Err(e) => {
                &&& e == Error::InvalidBackend
                &&& Backend::named(server@) is None
                &&& final(config)@ == old(config)@
            },
        },
{
    match Backend::parse(server) {
        None => Err(Error::InvalidBackend),
        Some(backend) => {
            config.active = server.to_string();
            Ok(build_script(Some(Operation::SwitchServer), sites, backend, None))
        },
    }
}

// ---------------------------------------------------------------------------
// The privileged run
// ---------------------------------------------------------------------------
/// The result of an operation, from the report of its one privileged run.
/// A script is run once and never again on failure: every run asks the user
/// for authorisation. A run that could not be started is told apart from
/// one that started and failed, and a failed one hands on the error stream
/// unchanged.
pub fn execute_webserver_operation(report: RunReport) -> (r: Result<(), Error>)
    ensures
        match report {
            RunReport::NotStarted(cause) => r matches Err(Error::ElevationDenied(m)) && m@
                == cause@,
            RunReport::Finished { success, stdout, stderr } => if success {
                r is Ok
            } else {
                r matches Err(Error::ScriptFailure(m)) && m@ == stderr@
            },
        },
{
    match report {
        RunReport::NotStarted(cause) => Err(Error::ElevationDenied(cause)),
        RunReport::Finished { success, stdout: _, stderr } => if success {
            Ok(())
        } else {
            Err(Error::ScriptFailure(stderr))
        },
    }
}

} // verus!
