//! The site model and the registry of sites.
//!
//! A [`Site`] describes one local project; a [`SitesConfig`] is the registry:
//! the list of sites together with the top-level domain and the directory
//! under which new projects are created. Contracts speak of the views of
//! these types, in which every string is a sequence of characters.

use crate::clock::now_millis;
use crate::errors::Error;
use crate::json::{json_document, nested_string, parse, string_at};
use crate::paths::{config_dir, default_projects_dir, document_location, document_path, file_name,
    home_dir, path_file_name, projects_dir, REGISTRY_FILE};
use crate::text::{decimal, decimal_string, lemma_decimal_is_injective, lowercased,
    replace_whitespace, without_whitespace};
use crate::webserver::{build_script, webserver_script, Backend, Operation};
use vstd::prelude::*;
use vstd::string::*;

verus! {

/// The framework a project was recognised as when it was added.
///
/// A `Proxy` site is accepted by the registry, but the fragment templates
/// know no reverse-proxy directive: they treat it like a `Static` site, so a
/// caller that registers one has to configure the upstream by other means.
#[derive(Debug, Clone, Copy, PartialEq, Eq, Structural)]
pub enum SiteType {
    Laravel,
    Symfony,
    WordPress,
    Static,
    Proxy,
}

/// What the dependency manifest of a Laravel project declares.
#[derive(Debug, PartialEq, Eq)]
pub struct LaravelInfo {
    pub detected: bool,
    pub version: Option<String>,
    pub constraint: Option<String>,
    pub php_version: Option<String>,
}

/// One registered project.
#[derive(Debug, PartialEq, Eq)]
pub struct Site {
    pub id: String,
    pub name: String,
    pub path: String,
    pub domain: String,
    pub php_version: String,
    pub secured: bool,
    pub site_type: SiteType,
    pub proxy_target: Option<String>,
    pub laravel: Option<LaravelInfo>,
}

/// The registry: every site, the top-level domain and the projects directory.
#[derive(Debug, PartialEq, Eq)]
pub struct SitesConfig {
    pub sites: Vec<Site>,
    pub tld: String,
    pub sites_path: String,
    /// The mark of the registry: the highest number that an identifier of
    /// this registry was ever made of, 0 before the first. It never falls,
    /// and a new identifier is made of a number above it, so that the
    /// identifier of a site that was removed is not given out again.
    pub last_id: u64,
}

/// The characters of an optional string.
pub open spec fn text_of(o: Option<String>) -> Option<Seq<char>> {
    match o {
        Some(s) => Some(s@),
        None => None,
    }
}

/// The characters of an optional string slice.
pub open spec fn slice_text_of(o: Option<&str>) -> Option<Seq<char>> {
    match o {
        Some(s) => Some(s@),
        None => None,
    }
}

/// Mathematical model of a [`LaravelInfo`].
pub struct LaravelInfoView {
    pub detected: bool,
    pub version: Option<Seq<char>>,
    pub constraint: Option<Seq<char>>,
    pub php_version: Option<Seq<char>>,
}

/// Mathematical model of a [`Site`].
pub struct SiteView {
    pub id: Seq<char>,
    pub name: Seq<char>,
    pub path: Seq<char>,
    pub domain: Seq<char>,
    pub php_version: Seq<char>,
    pub secured: bool,
    pub site_type: SiteType,
    pub proxy_target: Option<Seq<char>>,
    pub laravel: Option<LaravelInfoView>,
}

/// Mathematical model of a [`SitesConfig`].
pub struct RegistryView {
    pub sites: Seq<SiteView>,
    pub tld: Seq<char>,
    pub sites_path: Seq<char>,
    pub last_id: nat,
}

impl View for LaravelInfo {
    type V = LaravelInfoView;

    open spec fn view(&self) -> LaravelInfoView {
        LaravelInfoView {
            detected: self.detected,
            version: text_of(self.version),
            constraint: text_of(self.constraint),
            php_version: text_of(self.php_version),
        }
    }
}

/// The model of an optional [`LaravelInfo`].
pub open spec fn laravel_view(o: Option<LaravelInfo>) -> Option<LaravelInfoView> {
    match o {
        Some(info) => Some(info@),
        None => None,
    }
}

impl View for Site {
    type V = SiteView;

    open spec fn view(&self) -> SiteView {
        SiteView {
            id: self.id@,
            name: self.name@,
            path: self.path@,
            domain: self.domain@,
            php_version: self.php_version@,
            secured: self.secured,
            site_type: self.site_type,
            proxy_target: text_of(self.proxy_target),
            laravel: laravel_view(self.laravel),
        }
    }
}

/// The models of a list of sites, in the same order.
pub open spec fn site_views(sites: Seq<Site>) -> Seq<SiteView> {
    Seq::new(sites.len(), |i: int| sites[i]@)
}

impl View for SitesConfig {
    type V = RegistryView;

    open spec fn view(&self) -> RegistryView {
        RegistryView {
            sites: site_views(self.sites@),
            tld: self.tld@,
            sites_path: self.sites_path@,
            last_id: self.last_id as nat,
        }
    }
}

/// The fields by which a site is looked up in a registry.
#[derive(Debug, Clone, Copy, PartialEq, Eq, Structural)]
pub enum SiteKey {
    Id,
    Name,
    Path,
    Domain,
}

impl SiteView {
    /// The value of the field that `key` selects.
    pub open spec fn field(self, key: SiteKey) -> Seq<char> {
        match key {
            SiteKey::Id => self.id,
            SiteKey::Name => self.name,
            SiteKey::Path => self.path,
            SiteKey::Domain => self.domain,
        }
    }
}

/// The index of the first site of `sites` whose field `key` holds `value`.
pub open spec fn position_of(sites: Seq<SiteView>, key: SiteKey, value: Seq<char>) -> Option<int>
    decreases sites.len(),
{
    if sites.len() == 0 {
        None
    } else {
        match position_of(sites.drop_last(), key, value) {
            Some(i) => Some(i),
            None => if sites.last().field(key) == value {
                Some(sites.len() - 1)
            } else {
                None
            },
        }
    }
}

/// The first site of `sites` whose field `key` holds `value`.
pub open spec fn first_with(sites: Seq<SiteView>, key: SiteKey, value: Seq<char>) -> Option<
    SiteView,
> {
    match position_of(sites, key, value) {
        Some(i) => Some(sites[i]),
        None => None,
    }
}

/// Some site of `sites` holds `value` in its field `key`.
pub open spec fn holds(sites: Seq<SiteView>, key: SiteKey, value: Seq<char>) -> bool {
    exists|i: int| 0 <= i < sites.len() && (#[trigger] sites[i]).field(key) == value
}

/// `position_of` finds the least index that matches, and finds one exactly
/// when some site matches.
pub proof fn lemma_position_of(sites: Seq<SiteView>, key: SiteKey, value: Seq<char>)
    ensures
        match position_of(sites, key, value) {
            Some(i) => 0 <= i < sites.len() && sites[i].field(key) == value && forall|j: int|
                0 <= j < i ==> (#[trigger] sites[j]).field(key) != value,
            None => forall|j: int|
                0 <= j < sites.len() ==> (#[trigger] sites[j]).field(key) != value,
        },
        position_of(sites, key, value) is Some <==> holds(sites, key, value),
    decreases sites.len(),
{
    if sites.len() > 0 {
        let front = sites.drop_last();
        lemma_position_of(front, key, value);
        assert(forall|j: int| 0 <= j < front.len() ==> front[j] == sites[j]);
        match position_of(front, key, value) {
            Some(i) => {
                assert(sites[i].field(key) == value);
            },
            None => {
                assert forall|j: int| 0 <= j < sites.len() - 1 implies (#[trigger] sites[j]).field(
                    key,
                ) != value by {
                    assert(front[j].field(key) != value);
                }
            },
        }
    }
}

impl Site {
    /// The value of the field that `key` selects.
    pub fn field(&self, key: SiteKey) -> (r: &String)
        ensures
            r@ == self@.field(key),
    {
        match key {
            SiteKey::Id => &self.id,
            SiteKey::Name => &self.name,
            SiteKey::Path => &self.path,
            SiteKey::Domain => &self.domain,
        }
    }
}

/// The index of the first site whose field `key` holds `value`, if any.
pub fn find_site(sites: &[Site], key: SiteKey, value: &str) -> (r: Option<usize>)
    ensures
        match r {
            Some(i) => position_of(site_views(sites@), key, value@) == Some(i as int) && i
                < sites.len(),
            None => position_of(site_views(sites@), key, value@) is None,
        },
{
    let ghost all = site_views(sites@);
    let mut i: usize = 0;
    while i < sites.len()
        invariant
            i <= sites.len(),
            all == site_views(sites@),
            position_of(all.take(i as int), key, value@) is None,
        decreases sites.len() - i,
    {
        proof {
            assert(all.take(i + 1).drop_last() =~= all.take(i as int));
            assert(all.take(i + 1).last() == sites@[i as int]@);
        }
        if *sites[i].field(key).as_str() == *value {
            proof {
                lemma_position_prefix(all, key, value@, i + 1);
            }
            return Some(i);
        }
        i += 1;
    }
    assert(all.take(sites@.len() as int) =~= all);
    None
}

/// A match found in a prefix of `sites` is the match found in `sites`.
pub proof fn lemma_position_prefix(sites: Seq<SiteView>, key: SiteKey, value: Seq<char>, n: int)
    requires
        0 <= n <= sites.len(),
        position_of(sites.take(n), key, value) is Some,
    ensures
        position_of(sites, key, value) == position_of(sites.take(n), key, value),
    decreases sites.len() - n,
{
    if n < sites.len() {
        assert(sites.take(n + 1).drop_last() =~= sites.take(n));
        lemma_position_prefix(sites, key, value, n + 1);
    } else {
        assert(sites.take(n) =~= sites);
    }
}

/// A copy of an optional string.
pub fn clone_text(o: &Option<String>) -> (r: Option<String>)
    ensures
        text_of(r) == text_of(*o),
{
    match o {
        Some(s) => Some(s.clone()),
        None => None,
    }
}

impl Clone for LaravelInfo {
    fn clone(&self) -> (r: Self)
        ensures
            r@ == self@,
    {
        LaravelInfo {
            detected: self.detected,
            version: clone_text(&self.version),
            constraint: clone_text(&self.constraint),
            php_version: clone_text(&self.php_version),
        }
    }
}

impl Clone for Site {
    fn clone(&self) -> (r: Self)
        ensures
            r@ == self@,
    {
        let laravel = match &self.laravel {
            Some(info) => Some(info.clone()),
            None => None,
        };
        Site {
            id: self.id.clone(),
            name: self.name.clone(),
            path: self.path.clone(),
            domain: self.domain.clone(),
            php_version: self.php_version.clone(),
            secured: self.secured,
            site_type: self.site_type,
            proxy_target: clone_text(&self.proxy_target),
            laravel,
        }
    }
}

/// A copy of a list of sites.
pub fn clone_sites(sites: &[Site]) -> (r: Vec<Site>)
    ensures
        site_views(r@) == site_views(sites@),
{
    let mut r: Vec<Site> = Vec::new();
    let mut i: usize = 0;
    while i < sites.len()
        invariant
            i <= sites.len(),
            r.len() == i,
            forall|j: int| 0 <= j < i ==> r@[j]@ == sites@[j]@,
        decreases sites.len() - i,
    {
        r.push(sites[i].clone());
        i += 1;
    }
    assert(site_views(r@) =~= site_views(sites@));
    r
}

impl Clone for SitesConfig {
    fn clone(&self) -> (r: Self)
        ensures
            r@ == self@,
    {
        SitesConfig {
            sites: clone_sites(self.sites.as_slice()),
            tld: self.tld.clone(),
            sites_path: self.sites_path.clone(),
            last_id: self.last_id,
        }
    }
}

// ---------------------------------------------------------------------------
// Registry invariants
// ---------------------------------------------------------------------------
/// No two sites of `sites` hold the same value in their field `key`.
pub open spec fn distinct(sites: Seq<SiteView>, key: SiteKey) -> bool {
    forall|i: int, j: int|
        0 <= i < j < sites.len() ==> (#[trigger] sites[i]).field(key) != (#[trigger] sites[j]).field(
            key,
        )
}

impl RegistryView {
    /// The invariant of a registry: identifiers, names, paths and domains
    /// are each unique among its sites, every site answers on the domain
    /// that its name gives under the top-level domain of the registry, and
    /// no site carries the identifier of a number above the mark.
    pub open spec fn well_formed(self) -> bool {
        &&& distinct(self.sites, SiteKey::Id)
        &&& distinct(self.sites, SiteKey::Name)
        &&& distinct(self.sites, SiteKey::Path)
        &&& distinct(self.sites, SiteKey::Domain)
        &&& domains_follow(self.sites, self.tld)
        &&& none_above(self.sites, self.last_id)
    }
}

/// Appending a site whose field differs from that of every site keeps the
/// field distinct.
pub proof fn lemma_distinct_push(sites: Seq<SiteView>, key: SiteKey, site: SiteView)
    requires
        distinct(sites, key),
        !holds(sites, key, site.field(key)),
    ensures
        distinct(sites.push(site), key),
{
    let after = sites.push(site);
    assert forall|i: int, j: int| 0 <= i < j < after.len() implies (#[trigger] after[i]).field(key)
        != (#[trigger] after[j]).field(key) by {
        if j < sites.len() {
            assert(sites[i].field(key) != sites[j].field(key));
        } else {
            assert(sites[i].field(key) != site.field(key));
        }
    }
}

/// Replacing a site by one that agrees with it on a field keeps the field
/// distinct.
pub proof fn lemma_distinct_update(sites: Seq<SiteView>, key: SiteKey, at: int, site: SiteView)
    requires
        distinct(sites, key),
        0 <= at < sites.len(),
        site.field(key) == sites[at].field(key),
    ensures
        distinct(sites.update(at, site), key),
{
    let after = sites.update(at, site);
    assert forall|i: int, j: int| 0 <= i < j < after.len() implies (#[trigger] after[i]).field(key)
        != (#[trigger] after[j]).field(key) by {
        assert(sites[i].field(key) != sites[j].field(key));
    }
}

// ---------------------------------------------------------------------------
// Domains
// ---------------------------------------------------------------------------
pub const DEFAULT_TLD: &'static str = "test";

pub const DOMAIN_SEPARATOR: &'static str = ".";

pub const FALLBACK_NAME: &'static str = "site";

pub const ID_PREFIX: &'static str = "site-";

/// The domain of a site called `name` under the top-level domain `tld`: the
/// name with white space replaced by `-`, in lowercase, then a dot and the
/// top-level domain.
pub open spec fn domain_for(name: Seq<char>, tld: Seq<char>) -> Seq<char> {
    lowercased(without_whitespace(name, '-')) + DOMAIN_SEPARATOR@ + tld
}

/// The domain made of a name that is already normalised and in lowercase:
/// the name, a dot, the top-level domain.
pub fn domain_of(lowered: &str, tld: &str) -> (r: String)
    ensures
        r@ == lowered@ + DOMAIN_SEPARATOR@ + tld@,
{
    lowered.to_string().concat(DOMAIN_SEPARATOR).concat(tld)
}

/// The domain of a site called `name` under the top-level domain `tld`.
pub fn compute_domain(name: &str, tld: &str) -> (r: String)
    ensures
        r@ == domain_for(name@, tld@),
{
    let normalized = replace_whitespace(name, '-');
    let lowered = normalized.as_str().to_lowercase();
    domain_of(lowered.as_str(), tld)
}

/// The identifier made of `number`: `site-` and the number's decimal digits.
pub open spec fn site_id(number: nat) -> Seq<char> {
    ID_PREFIX@ + decimal(number)
}

/// Identifiers made of different numbers differ.
pub proof fn lemma_site_id_is_injective(a: nat, b: nat)
    requires
        site_id(a) == site_id(b),
    ensures
        a == b,
{
    assert(site_id(a).skip(ID_PREFIX@.len() as int) =~= decimal(a));
    assert(site_id(b).skip(ID_PREFIX@.len() as int) =~= decimal(b));
    lemma_decimal_is_injective(a, b);
}

/// The identifier made of `number`.
pub fn make_site_id(number: u64) -> (r: String)
    ensures
        r@ == site_id(number as nat),
{
    let digits = decimal_string(number);
    ID_PREFIX.to_string().concat(digits.as_str())
}

/// Every site of `sites` answers on the domain that its name gives under
/// `tld`.
pub open spec fn domains_follow(sites: Seq<SiteView>, tld: Seq<char>) -> bool {
    forall|i: int|
        0 <= i < sites.len() ==> (#[trigger] sites[i]).domain == domain_for(sites[i].name, tld)
}

/// Two texts that are the same after the same ending is put behind each are
/// the same.
pub proof fn lemma_same_ending(a: Seq<char>, b: Seq<char>, ending: Seq<char>)
    requires
        a + ending == b + ending,
    ensures
        a == b,
{
    assert((a + ending).len() == a.len() + ending.len());
    assert((b + ending).len() == b.len() + ending.len());
    assert(a =~= (a + ending).subrange(0, a.len() as int));
    assert(b =~= (b + ending).subrange(0, b.len() as int));
}

/// Names that give different domains under one top-level domain give
/// different domains under every other.
pub proof fn lemma_domains_differ_under_any_tld(
    a: Seq<char>,
    b: Seq<char>,
    tld: Seq<char>,
    other: Seq<char>,
)
    requires
        domain_for(a, tld) != domain_for(b, tld),
    ensures
        domain_for(a, other) != domain_for(b, other),
{
    if domain_for(a, other) == domain_for(b, other) {
        let first = lowercased(without_whitespace(a, '-'));
        let second = lowercased(without_whitespace(b, '-'));
        lemma_same_ending(first + DOMAIN_SEPARATOR@, second + DOMAIN_SEPARATOR@, other);
        lemma_same_ending(first, second, DOMAIN_SEPARATOR@);
    }
}

/// No site of `sites` carries the identifier of a number above `mark`.
pub open spec fn none_above(sites: Seq<SiteView>, mark: nat) -> bool {
    forall|number: nat| number > mark ==> !holds(sites, SiteKey::Id, #[trigger] site_id(number))
}

/// Sites that all have their identifier from `sites` carry no identifier
/// above the mark where `sites` carries none.
pub proof fn lemma_none_above_kept(sites: Seq<SiteView>, kept: Seq<SiteView>, mark: nat)
    requires
        none_above(sites, mark),
        forall|k: int|
            0 <= k < kept.len() ==> exists|j: int|
                0 <= j < sites.len() && (#[trigger] sites[j]).id == (#[trigger] kept[k]).id,
    ensures
        none_above(kept, mark),
{
    assert forall|number: nat| number > mark implies !holds(
        kept,
        SiteKey::Id,
        #[trigger] site_id(number),
    ) by {
        if holds(kept, SiteKey::Id, site_id(number)) {
            let k = choose|k: int|
                0 <= k < kept.len() && (#[trigger] kept[k]).field(SiteKey::Id) == site_id(number);
            let j = choose|j: int| 0 <= j < sites.len() && (#[trigger] sites[j]).id == kept[k].id;
            assert(sites[j].field(SiteKey::Id) == site_id(number));
        }
    }
}

// ---------------------------------------------------------------------------
// What the caller has seen of a project directory
// ---------------------------------------------------------------------------
/// What was found at the path of a project: whether the directory exists,
/// which marker files it holds, and the text of its `composer.json` where
/// that file could be read.
#[derive(Debug, PartialEq, Eq)]
pub struct ProjectFacts {
    pub exists: bool,
    pub has_artisan: bool,
    pub has_composer_json: bool,
    pub has_bin_console: bool,
    pub has_symfony_lock: bool,
    pub has_wp_config: bool,
    pub has_wp_content: bool,
    pub composer_json: Option<String>,
}

/// Mathematical model of [`ProjectFacts`].
pub struct ProjectFactsView {
    pub exists: bool,
    pub has_artisan: bool,
    pub has_composer_json: bool,
    pub has_bin_console: bool,
    pub has_symfony_lock: bool,
    pub has_wp_config: bool,
    pub has_wp_content: bool,
    pub composer_json: Option<Seq<char>>,
}

impl View for ProjectFacts {
    type V = ProjectFactsView;

    open spec fn view(&self) -> ProjectFactsView {
        ProjectFactsView {
            exists: self.exists,
            has_artisan: self.has_artisan,
            has_composer_json: self.has_composer_json,
            has_bin_console: self.has_bin_console,
            has_symfony_lock: self.has_symfony_lock,
            has_wp_config: self.has_wp_config,
            has_wp_content: self.has_wp_content,
            composer_json: text_of(self.composer_json),
        }
    }
}

/// The type of the project in an existing directory: Laravel where
/// `artisan` and `composer.json` are there, else Symfony where `bin/console`
/// and `symfony.lock` are, else WordPress where `wp-config.php` or
/// `wp-content` is, else a static site.
pub open spec fn detected_type(facts: ProjectFactsView) -> SiteType {
    if facts.has_artisan && facts.has_composer_json {
        SiteType::Laravel
    } else if facts.has_bin_console && facts.has_symfony_lock {
        SiteType::Symfony
    } else if facts.has_wp_config || facts.has_wp_content {
        SiteType::WordPress
    } else {
        SiteType::Static
    }
}

/// The type of the project at a path, from what was found there. A path
/// that does not exist has none.
pub fn detect_site_type(facts: &ProjectFacts) -> (r: Result<SiteType, Error>)
    ensures
        facts.exists ==> r == Ok::<SiteType, Error>(detected_type(facts@)),
        !facts.exists ==> r == Err::<SiteType, Error>(Error::PathMissing),
{
    if !facts.exists {
        return Err(Error::PathMissing);
    }
    Ok(project_type(facts))
}

/// The type of the project in an existing directory; see [`detected_type`].
pub fn project_type(facts: &ProjectFacts) -> (r: SiteType)
    ensures
        r == detected_type(facts@),
{
    if facts.has_artisan && facts.has_composer_json {
        SiteType::Laravel
    } else if facts.has_bin_console && facts.has_symfony_lock {
        SiteType::Symfony
    } else if facts.has_wp_config || facts.has_wp_content {
        SiteType::WordPress
    } else {
        SiteType::Static
    }
}

pub const REQUIRE_SECTION: &'static str = "require";

pub const LARAVEL_PACKAGE: &'static str = "laravel/framework";

pub const PHP_PACKAGE: &'static str = "php";

/// What a `composer.json` with the text `manifest` says of a Laravel
/// project: the version constraints that its `require` section gives for the
/// framework and for PHP, where they are strings. Nothing where the text is
/// not JSON.
pub open spec fn manifest_info(manifest: Seq<char>) -> Option<LaravelInfoView> {
    match json_document(manifest) {
        None => None,
        Some(table) => Some(
            LaravelInfoView {
                detected: true,
                version: None,
                constraint: string_at(table, seq![REQUIRE_SECTION@, LARAVEL_PACKAGE@]),
                php_version: string_at(table, seq![REQUIRE_SECTION@, PHP_PACKAGE@]),
            },
        ),
    }
}

/// What a `composer.json` with the text `manifest` says of a Laravel
/// project. The installed version is not read from the manifest and stays
/// unset.
pub fn detect_laravel_info(manifest: &str) -> (r: Option<LaravelInfo>)
    ensures
        laravel_view(r) == manifest_info(manifest@),
{
    match parse(manifest) {
        Err(_) => None,
        Ok(document) => {
            let constraint = nested_string(&document, REQUIRE_SECTION, LARAVEL_PACKAGE);
            let php_version = nested_string(&document, REQUIRE_SECTION, PHP_PACKAGE);
            Some(LaravelInfo { detected: true, version: None, constraint, php_version })
        },
    }
}

// ---------------------------------------------------------------------------
// Adding a site
// ---------------------------------------------------------------------------
/// What one operation on the registry leaves to be done outside it.
#[derive(Debug, PartialEq, Eq)]
pub struct Reconciliation {
    /// The site the operation was about, as it stands after the operation
    /// (for a removal: as it stood before).
    pub site: Site,
    /// The script that brings the web server and the hosts table in line
    /// with the registry. It is to be run once, with elevated privileges,
    /// after the registry has been stored.
    pub script: String,
    /// Whether the environment file of the project is to be rewritten to the
    /// URL of the site. The rewrite is a best effort: its failure does not
    /// fail the operation.
    pub refresh_env: bool,
    /// Whether the project is to be prepared for serving: container host
    /// names in its environment file replaced, its writable directories
    /// handed to the web server. Also a best effort.
    pub prepare_project: bool,
}

/// The name of a new site: the one asked for, else the last component of
/// the path, else `site`.
pub open spec fn name_for(path: Seq<char>, name: Option<Seq<char>>) -> Seq<char> {
    match name {
        Some(n) => n,
        None => match path_file_name(path) {
            Some(component) => component,
            None => FALLBACK_NAME@,
        },
    }
}

/// The site that a request to add `path` describes, where its identifier is
/// made of `number`.
pub open spec fn new_site(
    registry: RegistryView,
    path: Seq<char>,
    name: Option<Seq<char>>,
    php_version: Option<Seq<char>>,
    facts: ProjectFactsView,
    active_php: Seq<char>,
    number: nat,
) -> SiteView {
    let site_name = name_for(path, name);
    let site_type = detected_type(facts);
    SiteView {
        id: site_id(number),
        name: site_name,
        path: path,
        domain: domain_for(site_name, registry.tld),
        php_version: match php_version {
            Some(v) => v,
            None => active_php,
        },
        secured: false,
        site_type: site_type,
        proxy_target: None,
        laravel: if site_type == SiteType::Laravel {
            match facts.composer_json {
                Some(manifest) => manifest_info(manifest),
                None => None,
            }
        } else {
            None
        },
    }
}

/// Why a request to add the directory `path` under the name `site_name` is
/// refused, if it is: the directory is missing, or a registered site already
/// has the path, the name or the domain that the name gives. The first
/// reason in this order is the one given.
pub open spec fn add_refusal(
    registry: RegistryView,
    path: Seq<char>,
    site_name: Seq<char>,
    exists: bool,
) -> Option<Error> {
    if !exists {
        Some(Error::PathMissing)
    } else if holds(registry.sites, SiteKey::Path, path) {
        Some(Error::DuplicatePath)
    } else if holds(registry.sites, SiteKey::Name, site_name) {
        Some(Error::DuplicateName)
    } else if holds(registry.sites, SiteKey::Domain, domain_for(site_name, registry.tld)) {
        Some(Error::DomainCollision)
    } else {
        None
    }
}

/// The least number from `from` up to `limit` of which no site carries the
/// identifier.
pub open spec fn first_free(sites: Seq<SiteView>, from: nat, limit: nat) -> Option<nat>
    decreases limit + 1 - from,
{
    if from > limit {
        None
    } else if !holds(sites, SiteKey::Id, site_id(from)) {
        Some(from)
    } else {
        first_free(sites, from + 1, limit)
    }
}

/// Where the search for a new number starts: at the moment of creation, in
/// milliseconds after the start of 1970, but always above the mark.
pub open spec fn earliest_number(mark: nat, millis: int) -> nat {
    if millis > mark {
        millis as nat
    } else {
        mark + 1
    }
}

/// The number of which the identifier of a site created at `millis` is made:
/// the least one from `earliest_number` on that is free, if there is one.
pub open spec fn drawn_number(registry: RegistryView, millis: int) -> Option<nat> {
    first_free(registry.sites, earliest_number(registry.last_id, millis), u64::MAX as nat)
}

/// What `first_free` finds is free and not below the start.
pub proof fn lemma_first_free(sites: Seq<SiteView>, from: nat, limit: nat)
    ensures
        first_free(sites, from, limit) matches Some(number) ==> from <= number <= limit && !holds(
            sites,
            SiteKey::Id,
            site_id(number),
        ),
    decreases limit + 1 - from,
{
    if from <= limit && holds(sites, SiteKey::Id, site_id(from)) {
        lemma_first_free(sites, from + 1, limit);
    }
}

/// What becomes of a request to add `path` at the moment `millis`: the
/// number of which the new identifier is made, or the reason for which the
/// request is refused.
pub open spec fn add_decision(
    registry: RegistryView,
    path: Seq<char>,
    name: Option<Seq<char>>,
    exists: bool,
    millis: int,
) -> Result<nat, Error> {
    match add_refusal(registry, path, name_for(path, name), exists) {
        Some(reason) => Err(reason),
        None => match drawn_number(registry, millis) {
            Some(number) => Ok(number),
            None => Err(Error::IdentifiersExhausted),
        },
    }
}

/// The registry with one more site at its end, whose identifier is made of
/// `number`: the mark moves to that number.
pub open spec fn with_site(registry: RegistryView, site: SiteView, number: nat) -> RegistryView {
    RegistryView { sites: registry.sites.push(site), last_id: number, ..registry }
}

/// A site that nothing refuses, with an identifier made of a number above
/// the mark, keeps the registry well formed.
pub proof fn lemma_add_keeps_well_formed(registry: RegistryView, site: SiteView, number: nat)
    requires
        registry.well_formed(),
        add_refusal(registry, site.path, site.name, true) is None,
        site.domain == domain_for(site.name, registry.tld),
        site.id == site_id(number),
        number > registry.last_id,
    ensures
        with_site(registry, site, number).well_formed(),
{
    lemma_distinct_push(registry.sites, SiteKey::Id, site);
    lemma_distinct_push(registry.sites, SiteKey::Name, site);
    lemma_distinct_push(registry.sites, SiteKey::Path, site);
    lemma_distinct_push(registry.sites, SiteKey::Domain, site);
    let after = registry.sites.push(site);
    assert forall|i: int| 0 <= i < after.len() implies (#[trigger] after[i]).domain == domain_for(
        after[i].name,
        registry.tld,
    ) by {
        if i < registry.sites.len() {
            assert(after[i] == registry.sites[i]);
        }
    }
    assert forall|other: nat| other > number implies !holds(
        after,
        SiteKey::Id,
        #[trigger] site_id(other),
    ) by {
        if holds(after, SiteKey::Id, site_id(other)) {
            let k = choose|k: int|
                0 <= k < after.len() && (#[trigger] after[k]).field(SiteKey::Id) == site_id(other);
            if k < registry.sites.len() {
                assert(registry.sites[k].field(SiteKey::Id) == site_id(other));
            } else {
                lemma_site_id_is_injective(other, number);
            }
        }
    }
}

/// In a well-formed registry whose mark is not the last number, a number is
/// always drawn: the earliest one.
pub proof fn lemma_a_number_is_drawn(registry: RegistryView, millis: int)
    requires
        registry.well_formed(),
        registry.last_id < u64::MAX,
        millis <= u64::MAX,
    ensures
        drawn_number(registry, millis) == Some(earliest_number(registry.last_id, millis)),
{
}

/// Whether some site holds `value` in its field `key`.
fn is_taken(sites: &[Site], key: SiteKey, value: &str) -> (r: bool)
    ensures
        r == holds(site_views(sites@), key, value@),
{
    proof {
        lemma_position_of(site_views(sites@), key, value@);
    }
    find_site(sites, key, value).is_some()
}

/// Draws the number for a new identifier; see [`drawn_number`].
fn draw_number(sites: &[Site], mark: u64, millis: i64) -> (r: Option<u64>)
    ensures
        match first_free(
            site_views(sites@),
            earliest_number(mark as nat, millis as int),
            u64::MAX as nat,
        ) {
            Some(number) => r matches Some(free) && free as nat == number,
            None => r is None,
        },
{
    let moment: u64 = if millis > 0 {
        millis as u64
    } else {
        0
    };
    if moment <= mark && mark == u64::MAX {
        return None;
    }
    let start: u64 = if moment > mark {
        moment
    } else {
        mark + 1
    };
    let mut number: u64 = start;
    loop
        invariant
            start as nat == earliest_number(mark as nat, millis as int),
            first_free(site_views(sites@), start as nat, u64::MAX as nat) == first_free(
                site_views(sites@),
                number as nat,
                u64::MAX as nat,
            ),
        decreases u64::MAX - number,
    {
        let id = make_site_id(number);
        if !is_taken(sites, SiteKey::Id, id.as_str()) {
            return Some(number);
        }
        if number == u64::MAX {
            assert(first_free(site_views(sites@), (number + 1) as nat, u64::MAX as nat) is None);
            return None;
        }
        number += 1;
    }
}

/// Registers the project at `path`, created at `millis` milliseconds after
/// the start of 1970, and builds the script that publishes it.
///
/// The request is refused, and the registry left as it was, where the
/// directory does not exist or a registered site already has the path, the
/// name or the computed domain of the new one; no script exists then.
/// Otherwise success is owed as long as a number is left: the new site is
/// unsecured and stands last in the registry, its identifier is made of the
/// number drawn, to which the mark moves, and the script is that of
/// `add_site` on the registry with the new site in it.
pub fn add_site_at(
    config: &mut SitesConfig,
    active_server: &str,
    path: String,
    name: Option<String>,
    php_version: Option<String>,
    facts: &ProjectFacts,
    active_php: &str,
    millis: i64,
) -> (r: Result<Reconciliation, Error>)
    ensures
        match add_decision(old(config)@, path@, text_of(name), facts.exists, millis as int) {
            Ok(number) => {
                &&& r matches Ok(done)
                &&& done.site@ == new_site(
                    old(config)@,
                    path@,
                    text_of(name),
                    text_of(php_version),
                    facts@,
                    active_php@,
                    number,
                )
                &&& final(config)@ == with_site(old(config)@, done.site@, number)
                &&& done.script@ == webserver_script(
                    Some(Operation::AddSite),
                    final(config)@.sites,
                    Backend::serving(active_server@),
                    Some(done.site@.name),
                )
                &&& done.refresh_env == (done.site.site_type == SiteType::Laravel)
                &&& done.prepare_project == (done.site.site_type == SiteType::Laravel)
            },
            Err(reason) => {
                &&& r matches Err(e)
                &&& e == reason
                &&& final(config)@ == old(config)@
            },
        },
        old(config)@.well_formed() ==> final(config)@.well_formed(),
{
    if !facts.exists {
        return Err(Error::PathMissing);
    }
    let site_name = match name {
        Some(n) => n,
        None => match file_name(path.as_str()) {
            Some(component) => component,
            None => FALLBACK_NAME.to_string(),
        },
    };
    if is_taken(config.sites.as_slice(), SiteKey::Path, path.as_str()) {
        return Err(Error::DuplicatePath);
    }
    if is_taken(config.sites.as_slice(), SiteKey::Name, site_name.as_str()) {
        return Err(Error::DuplicateName);
    }
    let domain = compute_domain(site_name.as_str(), config.tld.as_str());
    if is_taken(config.sites.as_slice(), SiteKey::Domain, domain.as_str()) {
        return Err(Error::DomainCollision);
    }
    let number = match draw_number(config.sites.as_slice(), config.last_id, millis) {
        Some(free) => free,
        None => {
            return Err(Error::IdentifiersExhausted);
        },
    };
    let id = make_site_id(number);
    let site_type = project_type(facts);
    let is_laravel = match site_type {
        SiteType::Laravel => true,
        _ => false,
    };
    let laravel = if is_laravel {
        match &facts.composer_json {
            Some(manifest) => detect_laravel_info(manifest.as_str()),
            None => None,
        }
    } else {
        None
    };
    let php = match php_version {
        Some(v) => v,
        None => active_php.to_string(),
    };
    let site = Site {
        id,
        name: site_name,
        path,
        domain,
        php_version: php,
        secured: false,
        site_type,
        proxy_target: None,
        laravel,
    };
    let stored = site.clone();
    let ghost before = config@;
    config.sites.push(stored);
    config.last_id = number;
    proof {
        assert(site_views(config.sites@) =~= before.sites.push(site@));
        if before.well_formed() {
            lemma_first_free(
                before.sites,
                earliest_number(before.last_id, millis as int),
                u64::MAX as nat,
            );
            lemma_add_keeps_well_formed(before, site@, number as nat);
        }
    }
    let script = build_script(
        Some(Operation::AddSite),
        config.sites.as_slice(),
        Backend::for_selection(active_server),
        Some(site.name.as_str()),
    );
    Ok(Reconciliation { site, script, refresh_env: is_laravel, prepare_project: is_laravel })
}

/// Registers the project at `path` under the current time and builds the
/// script that publishes it.
///
/// Whether the request is refused does not depend on the clock. Neither
/// does success in a well-formed registry whose mark is not the last number:
/// it is owed wherever nothing refuses the request. Only the number of the
/// new identifier follows the moment that was read; everything else is as
/// [`add_site_at`] states for that moment.
pub fn add_site(
    config: &mut SitesConfig,
    active_server: &str,
    path: String,
    name: Option<String>,
    php_version: Option<String>,
    facts: &ProjectFacts,
    active_php: &str,
) -> (r: Result<Reconciliation, Error>)
    ensures
        exists|millis: int|
            match #[trigger] add_decision(
                old(config)@,
                path@,
                text_of(name),
                facts.exists,
                millis,
            ) {
                Ok(number) => {
                    &&& r matches Ok(done)
                    &&& done.site@ == new_site(
                        old(config)@,
                        path@,
                        text_of(name),
                        text_of(php_version),
                        facts@,
                        active_php@,
                        number,
                    )
                    &&& final(config)@ == with_site(old(config)@, done.site@, number)
                    &&& done.script@ == webserver_script(
                        Some(Operation::AddSite),
                        final(config)@.sites,
                        Backend::serving(active_server@),
                        Some(done.site@.name),
                    )
                    &&& done.refresh_env == (done.site.site_type == SiteType::Laravel)
                    &&& done.prepare_project == (done.site.site_type == SiteType::Laravel)
                },
                Err(reason) => {
                    &&& r matches Err(e)
                    &&& e == reason
                    &&& final(config)@ == old(config)@
                },
            },
        add_refusal(old(config)@, path@, name_for(path@, text_of(name)), facts.exists) matches Some(
            reason,
        ) ==> (r matches Err(e) && e == reason),
        old(config)@.well_formed() && old(config)@.last_id < u64::MAX && add_refusal(
            old(config)@,
            path@,
            name_for(path@, text_of(name)),
            facts.exists,
        ) is None ==> r is Ok,
        old(config)@.well_formed() ==> final(config)@.well_formed(),
{
    let millis = now_millis();
    proof {
        if config@.well_formed() && config@.last_id < u64::MAX {
            lemma_a_number_is_drawn(config@, millis as int);
        }
    }
    add_site_at(config, active_server, path, name, php_version, facts, active_php, millis)
}

// ---------------------------------------------------------------------------
// Changing and removing a site
// ---------------------------------------------------------------------------
/// A change to one field of a registered site.
#[derive(Debug, PartialEq, Eq)]
pub enum SiteChange {
    /// Run the site on another PHP version.
    PhpVersion(String),
    /// Serve the site over HTTPS (`true`) or over HTTP (`false`).
    Secured(bool),
}

impl SiteChange {
    /// The site after the change.
    pub open spec fn applied(self, site: SiteView) -> SiteView {
        match self {
            SiteChange::PhpVersion(version) => SiteView { php_version: version@, ..site },
            SiteChange::Secured(secured) => SiteView { secured: secured, ..site },
        }
    }

    /// Whether the change alters the URL of the site.
    pub open spec fn alters_url(self) -> bool {
        self is Secured
    }
}

/// The registry with the site at index `at` replaced.
pub open spec fn with_update(registry: RegistryView, at: int, site: SiteView) -> RegistryView {
    RegistryView { sites: registry.sites.update(at, site), ..registry }
}

/// Applies `change` to the first site whose identifier is `id` and builds
/// the script that republishes it.
///
/// Where no site carries the identifier the registry is left as it was and
/// the result is `SiteNotFound`. Otherwise only the named field of that one
/// site changes, and the script is that of `update_site` on the registry
/// after the change. The environment file is to be refreshed where the
/// change alters the URL of a Laravel site.
pub fn change_site(config: &mut SitesConfig, active_server: &str, id: &str, change: SiteChange) -> (r:
    Result<Reconciliation, Error>)
    ensures
        match r {
            Ok(done) => {
                &&& position_of(old(config)@.sites, SiteKey::Id, id@) matches Some(at)
                &&& done.site@ == change.applied(old(config)@.sites[at])
                &&& final(config)@ == with_update(old(config)@, at, done.site@)
                &&& done.script@ == webserver_script(
                    Some(Operation::UpdateSite),
                    final(config)@.sites,
                    Backend::serving(active_server@),
                    Some(done.site@.name),
                )
                &&& done.refresh_env == (change.alters_url() && done.site.site_type
                    == SiteType::Laravel)
                &&& !done.prepare_project
            },
            Err(e) => {
                &&& e == Error::SiteNotFound
                &&& position_of(old(config)@.sites, SiteKey::Id, id@) is None
                &&& final(config)@ == old(config)@
            },
        },
        old(config)@.well_formed() ==> final(config)@.well_formed(),
{
    let ghost before = config@;
    match find_site(config.sites.as_slice(), SiteKey::Id, id) {
        None => Err(Error::SiteNotFound),
        Some(at) => {
            let mut site = config.sites[at].clone();
            let is_laravel = match site.site_type {
                SiteType::Laravel => true,
                _ => false,
            };
            let refresh_env = match change {
                SiteChange::PhpVersion(version) => {
                    site.php_version = version;
                    false
                },
                SiteChange::Secured(secured) => {
                    site.secured = secured;
                    is_laravel
                },
            };
            let stored = site.clone();
            config.sites[at] = stored;
            proof {
                assert(site_views(config.sites@) =~= before.sites.update(at as int, site@));
                if before.well_formed() {
                    lemma_distinct_update(before.sites, SiteKey::Id, at as int, site@);
                    lemma_distinct_update(before.sites, SiteKey::Name, at as int, site@);
                    lemma_distinct_update(before.sites, SiteKey::Path, at as int, site@);
                    lemma_distinct_update(before.sites, SiteKey::Domain, at as int, site@);
                    let after = before.sites.update(at as int, site@);
                    assert forall|i: int| 0 <= i < after.len() implies (#[trigger] after[i]).domain
                        == domain_for(after[i].name, before.tld) by {
                        assert(after[i].domain == before.sites[i].domain);
                        assert(after[i].name == before.sites[i].name);
                    }
                    assert forall|k: int| 0 <= k < after.len() implies exists|j: int|
                        0 <= j < before.sites.len() && (#[trigger] before.sites[j]).id == (
                        #[trigger] after[k]).id by {
                        assert(before.sites[k].id == after[k].id);
                    }
                    lemma_none_above_kept(before.sites, after, before.last_id);
                }
            }
            let script = build_script(
                Some(Operation::UpdateSite),
                config.sites.as_slice(),
                Backend::for_selection(active_server),
                Some(site.name.as_str()),
            );
            Ok(Reconciliation { site, script, refresh_env, prepare_project: false })
        },
    }
}

/// Runs the site `id` on the PHP version `php_version`; see [`change_site`].
pub fn update_site_php(
    config: &mut SitesConfig,
    active_server: &str,
    id: &str,
    php_version: String,
) -> (r: Result<Reconciliation, Error>)
    ensures
        match r {
            Ok(done) => {
                &&& position_of(old(config)@.sites, SiteKey::Id, id@) matches Some(at)
                &&& done.site@ == (SiteView { php_version: php_version@, ..old(config)@.sites[at] })
                &&& final(config)@ == with_update(old(config)@, at, done.site@)
                &&& done.script@ == webserver_script(
                    Some(Operation::UpdateSite),
                    final(config)@.sites,
                    Backend::serving(active_server@),
                    Some(done.site@.name),
                )
                &&& !done.refresh_env
                &&& !done.prepare_project
            },
            Err(e) => {
                &&& e == Error::SiteNotFound
                &&& position_of(old(config)@.sites, SiteKey::Id, id@) is None
                &&& final(config)@ == old(config)@
            },
        },
        old(config)@.well_formed() ==> final(config)@.well_formed(),
{
    change_site(config, active_server, id, SiteChange::PhpVersion(php_version))
}

/// Serves the site `id` over HTTPS; see [`change_site`].
pub fn secure_site(config: &mut SitesConfig, active_server: &str, id: &str) -> (r: Result<
    Reconciliation,
    Error,
>)
    ensures
        match r {
            Ok(done) => {
                &&& position_of(old(config)@.sites, SiteKey::Id, id@) matches Some(at)
                &&& done.site@ == (SiteView { secured: true, ..old(config)@.sites[at] })
                &&& final(config)@ == with_update(old(config)@, at, done.site@)
                &&& done.script@ == webserver_script(
                    Some(Operation::UpdateSite),
                    final(config)@.sites,
                    Backend::serving(active_server@),
                    Some(done.site@.name),
                )
                &&& done.refresh_env == (done.site.site_type == SiteType::Laravel)
                &&& !done.prepare_project
            },
            Err(e) => {
                &&& e == Error::SiteNotFound
                &&& position_of(old(config)@.sites, SiteKey::Id, id@) is None
                &&& final(config)@ == old(config)@
            },
        },
        old(config)@.well_formed() ==> final(config)@.well_formed(),
{
    change_site(config, active_server, id, SiteChange::Secured(true))
}

/// Serves the site `id` over plain HTTP; see [`change_site`].
pub fn unsecure_site(config: &mut SitesConfig, active_server: &str, id: &str) -> (r: Result<
    Reconciliation,
    Error,
>)
    ensures
        match r {
            Ok(done) => {
                &&& position_of(old(config)@.sites, SiteKey::Id, id@) matches Some(at)
                &&& done.site@ == (SiteView { secured: false, ..old(config)@.sites[at] })
                &&& final(config)@ == with_update(old(config)@, at, done.site@)
                &&& done.script@ == webserver_script(
                    Some(Operation::UpdateSite),
                    final(config)@.sites,
                    Backend::serving(active_server@),
                    Some(done.site@.name),
                )
                &&& done.refresh_env == (done.site.site_type == SiteType::Laravel)
                &&& !done.prepare_project
            },
            Err(e) => {
                &&& e == Error::SiteNotFound
                &&& position_of(old(config)@.sites, SiteKey::Id, id@) is None
                &&& final(config)@ == old(config)@
            },
        },
        old(config)@.well_formed() ==> final(config)@.well_formed(),
{
    change_site(config, active_server, id, SiteChange::Secured(false))
}

/// The sites of `sites` whose identifier is not `id`, in the same order.
pub open spec fn without_id(sites: Seq<SiteView>, id: Seq<char>) -> Seq<SiteView>
    decreases sites.len(),
{
    if sites.len() == 0 {
        sites
    } else if sites.last().id == id {
        without_id(sites.drop_last(), id)
    } else {
        without_id(sites.drop_last(), id).push(sites.last())
    }
}

/// Every site that stays after a removal was there before, and none of them
/// carries the removed identifier.
pub proof fn lemma_without_id_members(sites: Seq<SiteView>, id: Seq<char>)
    ensures
        forall|k: int|
            0 <= k < without_id(sites, id).len() ==> (#[trigger] without_id(sites, id)[k]).id != id
                && exists|j: int| 0 <= j < sites.len() && sites[j] == without_id(sites, id)[k],
        !holds(without_id(sites, id), SiteKey::Id, id),
        without_id(sites, id).len() <= sites.len(),
    decreases sites.len(),
{
    if sites.len() > 0 {
        let front = sites.drop_last();
        lemma_without_id_members(front, id);
        let kept = without_id(sites, id);
        assert forall|k: int| 0 <= k < kept.len() implies (#[trigger] kept[k]).id != id && exists|
            j: int,
        |
            0 <= j < sites.len() && sites[j] == kept[k] by {
            if k < without_id(front, id).len() {
                let j = choose|j: int| 0 <= j < front.len() && front[j] == without_id(front, id)[k];
                assert(sites[j] == kept[k]);
            } else {
                assert(sites[sites.len() - 1] == kept[k]);
            }
        }
    }
    assert(!holds(without_id(sites, id), SiteKey::Id, id)) by {
        if holds(without_id(sites, id), SiteKey::Id, id) {
            let k = choose|k: int|
                0 <= k < without_id(sites, id).len() && (#[trigger] without_id(sites, id)[k]).field(
                    SiteKey::Id,
                ) == id;
            assert(without_id(sites, id)[k].id != id);
        }
    }
}

/// Removing a site keeps every field distinct.
pub proof fn lemma_without_id_distinct(sites: Seq<SiteView>, id: Seq<char>, key: SiteKey)
    requires
        distinct(sites, key),
    ensures
        distinct(without_id(sites, id), key),
    decreases sites.len(),
{
    if sites.len() > 0 {
        let front = sites.drop_last();
        assert forall|i: int, j: int| 0 <= i < j < front.len() implies (#[trigger] front[i]).field(
            key,
        ) != (#[trigger] front[j]).field(key) by {
            assert(sites[i].field(key) != sites[j].field(key));
        }
        lemma_without_id_distinct(front, id, key);
        lemma_without_id_members(front, id);
        if sites.last().id != id {
            let rest = without_id(front, id);
            if holds(rest, key, sites.last().field(key)) {
                let k = choose|k: int|
                    0 <= k < rest.len() && (#[trigger] rest[k]).field(key) == sites.last().field(
                        key,
                    );
                let j = choose|j: int| 0 <= j < front.len() && front[j] == rest[k];
                assert(sites[j].field(key) != sites[sites.len() - 1].field(key));
            }
            lemma_distinct_push(rest, key, sites.last());
        }
    }
}

/// Copies of the sites whose identifier is not `id`, in the same order.
fn sites_without(sites: &[Site], id: &str) -> (r: Vec<Site>)
    ensures
        site_views(r@) == without_id(site_views(sites@), id@),
{
    let ghost all = site_views(sites@);
    let mut kept: Vec<Site> = Vec::new();
    let mut i: usize = 0;
    while i < sites.len()
        invariant
            i <= sites.len(),
            all == site_views(sites@),
            site_views(kept@) == without_id(all.take(i as int), id@),
        decreases sites.len() - i,
    {
        proof {
            assert(all.take(i + 1).drop_last() =~= all.take(i as int));
            assert(all.take(i + 1).last() == sites@[i as int]@);
        }
        if *sites[i].id.as_str() != *id {
            let ghost before = site_views(kept@);
            kept.push(sites[i].clone());
            assert(site_views(kept@) =~= before.push(sites@[i as int]@));
        }
        i += 1;
    }
    assert(all.take(sites@.len() as int) =~= all);
    kept
}

/// The registry without the sites whose identifier is `id`.
pub open spec fn with_removal(registry: RegistryView, id: Seq<char>) -> RegistryView {
    RegistryView { sites: without_id(registry.sites, id), ..registry }
}

/// A removal keeps the registry well formed.
pub proof fn lemma_removal_keeps_well_formed(registry: RegistryView, id: Seq<char>)
    requires
        registry.well_formed(),
    ensures
        with_removal(registry, id).well_formed(),
{
    lemma_without_id_members(registry.sites, id);
    lemma_without_id_distinct(registry.sites, id, SiteKey::Id);
    lemma_without_id_distinct(registry.sites, id, SiteKey::Name);
    lemma_without_id_distinct(registry.sites, id, SiteKey::Path);
    lemma_without_id_distinct(registry.sites, id, SiteKey::Domain);
    let kept = without_id(registry.sites, id);
    assert forall|k: int| 0 <= k < kept.len() implies exists|j: int|
        0 <= j < registry.sites.len() && (#[trigger] registry.sites[j]).id == (#[trigger] kept[k]).id by {
        let j = choose|j: int| 0 <= j < registry.sites.len() && registry.sites[j] == kept[k];
        assert(registry.sites[j].id == kept[k].id);
    }
    assert forall|k: int| 0 <= k < kept.len() implies (#[trigger] kept[k]).domain == domain_for(
        kept[k].name,
        registry.tld,
    ) by {
        let j = choose|j: int| 0 <= j < registry.sites.len() && registry.sites[j] == kept[k];
        assert(registry.sites[j].domain == domain_for(registry.sites[j].name, registry.tld));
    }
    lemma_none_above_kept(registry.sites, kept, registry.last_id);
}

/// Removes the site `id` from the registry and builds the script that
/// withdraws it from the web servers.
///
/// Where no site carries the identifier the registry is left as it was and
/// the result is `SiteNotFound`. Otherwise no site with that identifier
/// stays, the others keep their order, and the result holds the site as it
/// was. The script is that of `remove_site` on the registry as it was
/// before the removal, so that it still knows the domain whose hosts entry
/// goes; it deletes the fragments of both backends.
pub fn remove_site(config: &mut SitesConfig, active_server: &str, id: &str) -> (r: Result<
    Reconciliation,
    Error,
>)
    ensures
        match r {
            Ok(done) => {
                &&& position_of(old(config)@.sites, SiteKey::Id, id@) matches Some(at)
                &&& done.site@ == old(config)@.sites[at]
                &&& final(config)@ == with_removal(old(config)@, id@)
                &&& !holds(final(config)@.sites, SiteKey::Id, id@)
                &&& done.script@ == webserver_script(
                    Some(Operation::RemoveSite),
                    old(config)@.sites,
                    Backend::serving(active_server@),
                    Some(done.site@.name),
                )
                &&& !done.refresh_env
                &&& !done.prepare_project
            },
            Err(e) => {
                &&& e == Error::SiteNotFound
                &&& position_of(old(config)@.sites, SiteKey::Id, id@) is None
                &&& final(config)@ == old(config)@
            },
        },
        old(config)@.well_formed() ==> final(config)@.well_formed(),
{
    let ghost before = config@;
    match find_site(config.sites.as_slice(), SiteKey::Id, id) {
        None => Err(Error::SiteNotFound),
        Some(at) => {
            let site = config.sites[at].clone();
            let script = build_script(
                Some(Operation::RemoveSite),
                config.sites.as_slice(),
                Backend::for_selection(active_server),
                Some(site.name.as_str()),
            );
            let kept = sites_without(config.sites.as_slice(), id);
            config.sites = kept;
            proof {
                lemma_without_id_members(before.sites, id@);
                if before.well_formed() {
                    lemma_removal_keeps_well_formed(before, id@);
                }
            }
            Ok(Reconciliation { site, script, refresh_env: false, prepare_project: false })
        },
    }
}

// ---------------------------------------------------------------------------
// The registry as a whole
// ---------------------------------------------------------------------------
impl SitesConfig {
    /// The registry of a user whose home directory is `home`: no sites, the
    /// top-level domain `test`, projects in `Code` below the home directory.
    pub fn with_home(home: &Option<String>) -> (r: Self)
        ensures
            r@.sites.len() == 0,
            r@.tld == DEFAULT_TLD@,
            r@.sites_path == default_projects_dir(text_of(*home)),
            r@.last_id == 0,
            r@.well_formed(),
    {
        SitesConfig {
            sites: Vec::new(),
            tld: DEFAULT_TLD.to_string(),
            sites_path: projects_dir(home),
            last_id: 0,
        }
    }
}

impl Default for SitesConfig {
    /// The registry a user starts with. The projects directory follows the
    /// home directory that the system reports at the time of the call.
    fn default() -> (r: Self)
        ensures
            r@.sites.len() == 0,
            r@.tld == DEFAULT_TLD@,
            exists|home: Option<Seq<char>>| r@.sites_path == #[trigger] default_projects_dir(home),
            r@.last_id == 0,
            r@.well_formed(),
    {
        let home = home_dir();
        SitesConfig::with_home(&home)
    }
}

/// Where the registry document lies, given the user's configuration
/// directory.
pub fn registry_path(config_dir: &Option<String>) -> (r: String)
    ensures
        r@ == document_location(text_of(*config_dir), REGISTRY_FILE@),
{
    document_path(config_dir, REGISTRY_FILE)
}

/// Where the registry document lies for the current user.
pub fn get_config_path() -> (r: String)
    ensures
        exists|dir: Option<Seq<char>>| r@ == #[trigger] document_location(dir, REGISTRY_FILE@),
{
    let dir = config_dir();
    registry_path(&dir)
}

/// What a read of the stored registry document gave.
#[derive(Debug, PartialEq, Eq)]
pub enum StoredRegistry {
    /// There is no document.
    Missing,
    /// There is a document, but it could not be read or understood; the text
    /// says why.
    Unreadable(String),
    /// The registry that the document holds.
    Found(SitesConfig),
}

/// The registry to work on, given what the read of the stored document
/// gave: the registry found, or the one a user starts with where there is no
/// document. A document that could not be read or understood is no registry:
/// the result is a persistence error with the cause.
pub fn load_sites_config(stored: StoredRegistry) -> (r: Result<SitesConfig, Error>)
    ensures
        match stored {
            StoredRegistry::Found(config) => r == Ok::<SitesConfig, Error>(config),
            StoredRegistry::Missing => {
                &&& r matches Ok(fresh)
                &&& fresh@.sites.len() == 0
                &&& fresh@.tld == DEFAULT_TLD@
                &&& fresh@.last_id == 0
                &&& exists|home: Option<Seq<char>>|
                    fresh@.sites_path == #[trigger] default_projects_dir(home)
            },
            StoredRegistry::Unreadable(cause) => r == Err::<SitesConfig, Error>(
                Error::Persistence(cause),
            ),
        },
{
    match stored {
        StoredRegistry::Found(config) => Ok(config),
        StoredRegistry::Missing => Ok(SitesConfig::default()),
        StoredRegistry::Unreadable(cause) => Err(Error::Persistence(cause)),
    }
}

/// The sites of the stored registry, in registry order: those of the
/// registry found, none where there is no document, and a persistence error
/// with the cause where the document could not be read or understood.
pub fn list_sites(stored: StoredRegistry) -> (r: Result<Vec<Site>, Error>)
    ensures
        match stored {
            StoredRegistry::Found(config) => r == Ok::<Vec<Site>, Error>(config.sites),
            StoredRegistry::Missing => r matches Ok(sites) && sites@.len() == 0,
            StoredRegistry::Unreadable(cause) => r == Err::<Vec<Site>, Error>(
                Error::Persistence(cause),
            ),
        },
{
    match stored {
        StoredRegistry::Found(config) => Ok(config.sites),
        StoredRegistry::Missing => Ok(Vec::new()),
        StoredRegistry::Unreadable(cause) => Err(Error::Persistence(cause)),
    }
}

/// A copy of the registry.
pub fn get_sites_config(config: &SitesConfig) -> (r: SitesConfig)
    ensures
        r@ == config@,
{
    config.clone()
}

/// The sites with the domain of each computed anew under `tld`.
pub open spec fn under_tld(sites: Seq<SiteView>, tld: Seq<char>) -> Seq<SiteView> {
    Seq::new(sites.len(), |i: int| SiteView { domain: domain_for(sites[i].name, tld), ..sites[i] })
}

/// The registry after its settings were set, each where a new value is
/// given, or the reason for which the change is refused.
///
/// A top-level domain that differs from the current one moves every site to
/// its domain under the new one; where two sites would then answer on the
/// same domain, the change is refused as a whole.
pub open spec fn with_settings(
    registry: RegistryView,
    tld: Option<Seq<char>>,
    sites_path: Option<Seq<char>>,
) -> Result<RegistryView, Error> {
    let projects = match sites_path {
        Some(value) => value,
        None => registry.sites_path,
    };
    match tld {
        Some(value) => if value == registry.tld {
            Ok(RegistryView { sites_path: projects, ..registry })
        } else if distinct(under_tld(registry.sites, value), SiteKey::Domain) {
            Ok(
                RegistryView {
                    sites: under_tld(registry.sites, value),
                    tld: value,
                    sites_path: projects,
                    ..registry
                },
            )
        } else {
            Err(Error::DomainCollision)
        },
        None => Ok(RegistryView { sites_path: projects, ..registry }),
    }
}

/// In a well-formed registry a move to another top-level domain makes no
/// two domains the same, and keeps the invariant.
pub proof fn lemma_under_tld_keeps_well_formed(registry: RegistryView, tld: Seq<char>)
    requires
        registry.well_formed(),
    ensures
        distinct(under_tld(registry.sites, tld), SiteKey::Domain),
        (RegistryView { sites: under_tld(registry.sites, tld), tld: tld, ..registry }).well_formed(),
{
    let before = registry.sites;
    let after = under_tld(before, tld);
    assert forall|i: int, j: int| 0 <= i < j < after.len() implies (#[trigger] after[i]).field(
        SiteKey::Domain,
    ) != (#[trigger] after[j]).field(SiteKey::Domain) by {
        assert(before[i].field(SiteKey::Domain) != before[j].field(SiteKey::Domain));
        assert(before[i].domain == domain_for(before[i].name, registry.tld));
        assert(before[j].domain == domain_for(before[j].name, registry.tld));
        lemma_domains_differ_under_any_tld(before[i].name, before[j].name, registry.tld, tld);
    }
    assert forall|i: int, j: int| 0 <= i < j < after.len() implies {
        &&& (#[trigger] after[i]).field(SiteKey::Id) != (#[trigger] after[j]).field(SiteKey::Id)
        &&& after[i].field(SiteKey::Name) != after[j].field(SiteKey::Name)
        &&& after[i].field(SiteKey::Path) != after[j].field(SiteKey::Path)
    } by {
        assert(before[i].field(SiteKey::Id) != before[j].field(SiteKey::Id));
        assert(before[i].field(SiteKey::Name) != before[j].field(SiteKey::Name));
        assert(before[i].field(SiteKey::Path) != before[j].field(SiteKey::Path));
    }
    assert forall|k: int| 0 <= k < after.len() implies exists|j: int|
        0 <= j < before.len() && (#[trigger] before[j]).id == (#[trigger] after[k]).id by {
        assert(before[k].id == after[k].id);
    }
    lemma_none_above_kept(before, after, registry.last_id);
}

/// Copies of the sites, each with its domain computed anew under `tld`.
fn sites_under(sites: &[Site], tld: &str) -> (r: Vec<Site>)
    ensures
        site_views(r@) == under_tld(site_views(sites@), tld@),
{
    let ghost all = site_views(sites@);
    let mut moved: Vec<Site> = Vec::new();
    let mut i: usize = 0;
    while i < sites.len()
        invariant
            i <= sites.len(),
            all == site_views(sites@),
            moved@.len() == i,
            forall|k: int| 0 <= k < i ==> (#[trigger] moved@[k])@ == under_tld(all, tld@)[k],
        decreases sites.len() - i,
    {
        let mut site = sites[i].clone();
        site.domain = compute_domain(site.name.as_str(), tld);
        moved.push(site);
        i += 1;
    }
    assert(site_views(moved@) =~= under_tld(all, tld@));
    moved
}

/// Whether no two of the sites answer on the same domain.
fn domains_differ(sites: &[Site]) -> (r: bool)
    ensures
        r == distinct(site_views(sites@), SiteKey::Domain),
{
    let ghost all = site_views(sites@);
    let mut i: usize = 0;
    while i < sites.len()
        invariant
            i <= sites.len(),
            all == site_views(sites@),
            forall|a: int, b: int|
                0 <= a < b < i ==> (#[trigger] all[a]).field(SiteKey::Domain) != (#[trigger] all[b]).field(
                    SiteKey::Domain,
                ),
        decreases sites.len() - i,
    {
        proof {
            lemma_position_of(all, SiteKey::Domain, all[i as int].domain);
        }
        match find_site(sites, SiteKey::Domain, sites[i].domain.as_str()) {
            Some(at) => {
                if at != i {
                    assert(all[at as int].field(SiteKey::Domain) == all[i as int].field(
                        SiteKey::Domain,
                    ));
                    return false;
                }
            },
            None => {
                assert(all[i as int].field(SiteKey::Domain) == all[i as int].domain);
            },
        }
        i += 1;
    }
    true
}

/// Sets the top-level domain and the projects directory of the registry,
/// each where a new value is given.
///
/// With a top-level domain that differs from the current one every site
/// gets the domain that its name gives under the new one. Where two of these
/// domains are the same, the call is refused with `DomainCollision` and the
/// registry is left as it was; in a well-formed registry that never happens.
/// Identifiers, names, paths and the order of the sites never change.
pub fn update_sites_config(
    config: &mut SitesConfig,
    tld: Option<String>,
    sites_path: Option<String>,
) -> (r: Result<(), Error>)
    ensures
        match with_settings(old(config)@, text_of(tld), text_of(sites_path)) {
            Ok(after) => r is Ok && final(config)@ == after,
            Err(reason) => r matches Err(e) && e == reason && final(config)@ == old(config)@,
        },
        old(config)@.well_formed() ==> r is Ok && final(config)@.well_formed(),
{
    let ghost before = config@;
    match tld {
        Some(value) => {
            if *value.as_str() != *config.tld.as_str() {
                proof {
                    if before.well_formed() {
                        lemma_under_tld_keeps_well_formed(before, value@);
                    }
                }
                let moved = sites_under(config.sites.as_slice(), value.as_str());
                if !domains_differ(moved.as_slice()) {
                    return Err(Error::DomainCollision);
                }
                config.sites = moved;
                config.tld = value;
            }
        },
        None => {},
    }
    match sites_path {
        Some(value) => {
            config.sites_path = value;
        },
        None => {},
    }
    Ok(())
}

} // verus!
