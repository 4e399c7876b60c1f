//! What holds of the registry and of the generated text, whatever the
//! registry holds.

use crate::sites::{add_decision, add_refusal, detected_type, distinct, domain_for,
    earliest_number, holds, lemma_a_number_is_drawn, lemma_add_keeps_well_formed,
    lemma_first_free, lemma_removal_keeps_well_formed, lemma_site_id_is_injective,
    lemma_under_tld_keeps_well_formed,
    lemma_without_id_members, name_for, new_site, site_id, with_removal, with_settings, with_site,
    without_id, ProjectFactsView, RegistryView, SiteKey, SiteType, SiteView};
use crate::webserver::{all_fragment_steps, caddy_site_config, document_root, fragment_steps,
    nginx_site_config, site_config, webserver_script, Backend, Operation};
use vstd::prelude::*;

verus! {

/// Two sites agree on everything a fragment is made of: the domain, the
/// path, the PHP version, the `secured` flag, and whether the site is served
/// from its `public` directory.
pub open spec fn same_serving(a: SiteView, b: SiteView) -> bool {
    &&& a.domain == b.domain
    &&& a.path == b.path
    &&& a.php_version == b.php_version
    &&& a.secured == b.secured
    &&& serves_public(a.site_type) == serves_public(b.site_type)
}

/// Whether sites of this type are served from their `public` directory.
pub open spec fn serves_public(site_type: SiteType) -> bool {
    site_type == SiteType::Laravel || site_type == SiteType::Symfony
}

/// Two lists of sites have the same names in the same order, and agree site
/// by site on everything a fragment is made of.
pub open spec fn same_publication(a: Seq<SiteView>, b: Seq<SiteView>) -> bool {
    &&& a.len() == b.len()
    &&& forall|i: int|
        0 <= i < a.len() ==> (#[trigger] a[i]).name == b[i].name && same_serving(a[i], b[i])
}

/// Generating the fragment of a site is deterministic: the same site and
/// the same backend give the same text.
pub proof fn law_fragment_is_deterministic(a: SiteView, b: SiteView, backend: Backend)
    requires
        a == b,
    ensures
        site_config(a, backend) == site_config(b, backend),
{
}

/// The fragment of a site reads nothing but the domain, the path, the PHP
/// version, the `secured` flag and the kind of document root: two sites that
/// agree on these have the same fragment, whatever their identifiers, names
/// or metadata.
pub proof fn law_fragment_reads_serving_fields(a: SiteView, b: SiteView, backend: Backend)
    requires
        same_serving(a, b),
    ensures
        site_config(a, backend) == site_config(b, backend),
{
    assert(document_root(a) == document_root(b));
    assert(caddy_site_config(a) == caddy_site_config(b));
    assert(nginx_site_config(a) == nginx_site_config(b));
}

/// The steps that write the fragments of a list of sites read nothing but
/// the names and what the fragments are made of.
pub proof fn law_fragment_steps_read_publication(
    a: Seq<SiteView>,
    b: Seq<SiteView>,
    backend: Backend,
    annotated: bool,
)
    requires
        same_publication(a, b),
    ensures
        all_fragment_steps(a, backend, annotated) == all_fragment_steps(b, backend, annotated),
    decreases a.len(),
{
    if a.len() > 0 {
        let front_a = a.drop_last();
        let front_b = b.drop_last();
        assert forall|i: int| 0 <= i < front_a.len() implies (#[trigger] front_a[i]).name
            == front_b[i].name && same_serving(front_a[i], front_b[i]) by {
            assert(a[i].name == b[i].name);
        }
        law_fragment_steps_read_publication(front_a, front_b, backend, annotated);
        let last = a.len() - 1;
        assert(a[last].name == b[last].name && same_serving(a[last], b[last]));
        law_fragment_reads_serving_fields(a.last(), b.last(), backend);
        assert(fragment_steps(a.last(), backend, annotated) == fragment_steps(
            b.last(),
            backend,
            annotated,
        ));
    }
}

/// A full resync is repeatable: built again from an unchanged registry and
/// selection, the script is the same, byte for byte, and so is every
/// fragment in it.
pub proof fn law_sync_is_repeatable(
    first: Seq<SiteView>,
    second: Seq<SiteView>,
    first_backend: Backend,
    second_backend: Backend,
)
    requires
        first == second,
        first_backend == second_backend,
    ensures
        webserver_script(Some(Operation::SyncAll), first, first_backend, None) == webserver_script(
            Some(Operation::SyncAll),
            second,
            second_backend,
            None,
        ),
{
}

/// A full resync reads nothing but the names of the sites and what their
/// fragments are made of: registries that agree on these give the same
/// script.
pub proof fn law_sync_reads_publication(a: Seq<SiteView>, b: Seq<SiteView>, backend: Backend)
    requires
        same_publication(a, b),
    ensures
        webserver_script(Some(Operation::SyncAll), a, backend, None) == webserver_script(
            Some(Operation::SyncAll),
            b,
            backend,
            None,
        ),
{
    law_fragment_steps_read_publication(a, b, backend, true);
}

/// A new site whose computed domain is already taken is refused, whatever
/// else holds of it: nothing is added for it and no script exists.
pub proof fn law_colliding_domain_is_refused(
    registry: RegistryView,
    path: Seq<char>,
    name: Option<Seq<char>>,
    exists: bool,
    millis: int,
)
    requires
        holds(registry.sites, SiteKey::Domain, domain_for(name_for(path, name), registry.tld)),
    ensures
        add_decision(registry, path, name, exists, millis) matches Err(e) && e.spec_kind()
            == crate::errors::ErrorKind::Validation,
{
}

/// A site that was accepted never shares its domain, name, path or
/// identifier with a site that was there before.
pub proof fn law_accepted_site_is_new(
    registry: RegistryView,
    path: Seq<char>,
    name: Option<Seq<char>>,
    php_version: Option<Seq<char>>,
    facts: ProjectFactsView,
    active_php: Seq<char>,
    millis: int,
)
    requires
        add_decision(registry, path, name, facts.exists, millis) is Ok,
    ensures
        ({
            let number = add_decision(registry, path, name, facts.exists, millis)->Ok_0;
            let site = new_site(registry, path, name, php_version, facts, active_php, number);
            &&& facts.exists
            &&& !holds(registry.sites, SiteKey::Domain, site.domain)
            &&& !holds(registry.sites, SiteKey::Name, site.name)
            &&& !holds(registry.sites, SiteKey::Path, site.path)
            &&& !holds(registry.sites, SiteKey::Id, site.id)
        }),
{
    lemma_first_free(
        registry.sites,
        earliest_number(registry.last_id, millis),
        u64::MAX as nat,
    );
}

/// The identifier has not been given out yet: it is made of a number above
/// the mark of the registry.
pub open spec fn unused(registry: RegistryView, id: Seq<char>) -> bool {
    exists|number: nat| number > registry.last_id && id == #[trigger] site_id(number)
}

/// The identifier of a new site is one that has not been given out yet, and
/// with the site in the registry it counts as given out.
pub proof fn law_new_identifier_is_unused(
    registry: RegistryView,
    path: Seq<char>,
    name: Option<Seq<char>>,
    php_version: Option<Seq<char>>,
    facts: ProjectFactsView,
    active_php: Seq<char>,
    millis: int,
)
    requires
        add_decision(registry, path, name, facts.exists, millis) is Ok,
    ensures
        ({
            let number = add_decision(registry, path, name, facts.exists, millis)->Ok_0;
            let site = new_site(registry, path, name, php_version, facts, active_php, number);
            &&& unused(registry, site.id)
            &&& !unused(with_site(registry, site, number), site.id)
        }),
{
    let number = add_decision(registry, path, name, facts.exists, millis)->Ok_0;
    let site = new_site(registry, path, name, php_version, facts, active_php, number);
    lemma_first_free(
        registry.sites,
        earliest_number(registry.last_id, millis),
        u64::MAX as nat,
    );
    assert(site.id == site_id(number));
    if unused(with_site(registry, site, number), site.id) {
        let other = choose|other: nat| other > number && site.id == #[trigger] site_id(other);
        lemma_site_id_is_injective(other, number);
    }
}

/// In a well-formed registry the identifier of every site counts as given
/// out.
pub proof fn law_registered_identifiers_are_used(registry: RegistryView, at: int)
    requires
        registry.well_formed(),
        0 <= at < registry.sites.len(),
    ensures
        !unused(registry, registry.sites[at].id),
{
    if unused(registry, registry.sites[at].id) {
        let number = choose|number: nat|
            number > registry.last_id && registry.sites[at].id == #[trigger] site_id(number);
        assert(registry.sites[at].field(SiteKey::Id) == site_id(number));
        assert(holds(registry.sites, SiteKey::Id, site_id(number)));
    }
}

/// An identifier that was given out is never given out again: no operation
/// on the registry lowers the mark, so what counts as given out before an
/// addition, a removal or a change of a site or of the settings still does
/// after it. The identifier of a site that was removed is thus never drawn
/// for a new one.
pub proof fn law_identifiers_are_never_reused(
    registry: RegistryView,
    id: Seq<char>,
    site: SiteView,
    number: nat,
    at: int,
    tld: Option<Seq<char>>,
    sites_path: Option<Seq<char>>,
)
    requires
        !unused(registry, id),
    ensures
        number > registry.last_id ==> !unused(with_site(registry, site, number), id),
        !unused(with_removal(registry, site.id), id),
        !unused(crate::sites::with_update(registry, at, site), id),
        with_settings(registry, tld, sites_path) matches Ok(after) ==> !unused(after, id),
{
    assert forall|after: RegistryView| after.last_id >= registry.last_id implies !unused(
        after,
        id,
    ) by {
        if unused(after, id) {
            let drawn = choose|drawn: nat| drawn > after.last_id && id == #[trigger] site_id(drawn);
            assert(drawn > registry.last_id);
        }
    }
}

/// A change of the top-level domain is never refused in a well-formed
/// registry: every site moves to the domain that its name gives under the
/// new one, these domains differ from each other, and identifiers, names and
/// paths stay as they are.
pub proof fn law_a_new_tld_moves_every_domain(
    registry: RegistryView,
    tld: Seq<char>,
    sites_path: Option<Seq<char>>,
)
    requires
        registry.well_formed(),
    ensures
        with_settings(registry, Some(tld), sites_path) matches Ok(after) && {
            &&& after.well_formed()
            &&& after.tld == tld
            &&& after.sites.len() == registry.sites.len()
            &&& forall|i: int|
                0 <= i < after.sites.len() ==> #[trigger] after.sites[i] == (SiteView {
                    domain: domain_for(registry.sites[i].name, tld),
                    ..registry.sites[i]
                })
        },
{
    if tld != registry.tld {
        lemma_under_tld_keeps_well_formed(registry, tld);
    }
}

/// After a removal nothing of the removed site stands in the way of adding
/// it again: in a well-formed registry, no site that stays has its path, its
/// name or its domain.
pub proof fn lemma_removal_frees_keys(registry: RegistryView, at: int, key: SiteKey)
    requires
        distinct(registry.sites, key),
        0 <= at < registry.sites.len(),
    ensures
        !holds(without_id(registry.sites, registry.sites[at].id), key, registry.sites[at].field(key)),
{
    let site = registry.sites[at];
    let kept = without_id(registry.sites, site.id);
    lemma_without_id_members(registry.sites, site.id);
    if holds(kept, key, site.field(key)) {
        let k = choose|k: int| 0 <= k < kept.len() && (#[trigger] kept[k]).field(key) == site.field(key);
        assert(kept[k].id != site.id);
        let j = choose|j: int| 0 <= j < registry.sites.len() && registry.sites[j] == kept[k];
        assert(j != at);
        if j < at {
            assert(registry.sites[j].field(key) != registry.sites[at].field(key));
        } else {
            assert(registry.sites[at].field(key) != registry.sites[j].field(key));
        }
    }
}

/// Removing a site and adding it again under the same path and name
/// succeeds, and gives a site with the same fragment for either backend
/// under an identifier that differs from the one it had.
///
/// This holds where the registry is well formed and its mark is not the last
/// number, the directory is still there and still recognised as a project of
/// the same kind of document root, the site ran on the PHP version it is
/// added with, and the site was not secured: a site is always added
/// unsecured, so the fragment of a secured site does not come back.
pub proof fn law_remove_then_add_restores_fragment(
    registry: RegistryView,
    at: int,
    php_version: Option<Seq<char>>,
    facts: ProjectFactsView,
    active_php: Seq<char>,
    millis: int,
    backend: Backend,
)
    requires
        registry.well_formed(),
        registry.last_id < u64::MAX,
        millis <= i64::MAX,
        0 <= at < registry.sites.len(),
        facts.exists,
        serves_public(detected_type(facts)) == serves_public(registry.sites[at].site_type),
        registry.sites[at].php_version == match php_version {
            Some(version) => version,
            None => active_php,
        },
        !registry.sites[at].secured,
    ensures
        ({
            let original = registry.sites[at];
            let removed = with_removal(registry, original.id);
            let decision = add_decision(
                removed,
                original.path,
                Some(original.name),
                facts.exists,
                millis,
            );
            let again = new_site(
                removed,
                original.path,
                Some(original.name),
                php_version,
                facts,
                active_php,
                decision->Ok_0,
            );
            &&& decision is Ok
            &&& with_site(removed, again, decision->Ok_0).well_formed()
            &&& site_config(again, backend) == site_config(original, backend)
            &&& again.id != original.id
        }),
{
    let original = registry.sites[at];
    let removed = with_removal(registry, original.id);
    lemma_removal_frees_keys(registry, at, SiteKey::Path);
    lemma_removal_frees_keys(registry, at, SiteKey::Name);
    lemma_removal_frees_keys(registry, at, SiteKey::Domain);
    lemma_removal_keeps_well_formed(registry, original.id);
    lemma_a_number_is_drawn(removed, millis);
    let number = earliest_number(removed.last_id, millis);
    let again = new_site(
        removed,
        original.path,
        Some(original.name),
        php_version,
        facts,
        active_php,
        number,
    );
    assert(again.domain == original.domain);
    assert(add_refusal(removed, original.path, original.name, facts.exists) is None);
    lemma_add_keeps_well_formed(removed, again, number);
    law_fragment_reads_serving_fields(again, original, backend);
    assert(!holds(registry.sites, SiteKey::Id, site_id(number)));
    assert(registry.sites[at].field(SiteKey::Id) != site_id(number));
}

/// Securing a site and then unsecuring it leaves the site unsecured and
/// everything else about it as it was.
pub proof fn law_secure_then_unsecure(site: SiteView)
    ensures
        crate::sites::SiteChange::Secured(false).applied(
            crate::sites::SiteChange::Secured(true).applied(site),
        ) == (SiteView { secured: false, ..site }),
{
}

/// Securing a registered site and then unsecuring it gives back the
/// registry as it was, where the site was not secured before; where it was,
/// the registry differs in that one flag alone.
pub proof fn law_secure_then_unsecure_restores_registry(registry: RegistryView, at: int)
    requires
        0 <= at < registry.sites.len(),
    ensures
        ({
            let secured = crate::sites::SiteChange::Secured(true).applied(registry.sites[at]);
            let between = crate::sites::with_update(registry, at, secured);
            let plain = crate::sites::SiteChange::Secured(false).applied(between.sites[at]);
            let after = crate::sites::with_update(between, at, plain);
            &&& after == crate::sites::with_update(
                registry,
                at,
                SiteView { secured: false, ..registry.sites[at] },
            )
            &&& !registry.sites[at].secured ==> after == registry
        }),
{
    let secured = crate::sites::SiteChange::Secured(true).applied(registry.sites[at]);
    let between = crate::sites::with_update(registry, at, secured);
    let plain = crate::sites::SiteChange::Secured(false).applied(between.sites[at]);
    let after = crate::sites::with_update(between, at, plain);
    assert(after.sites =~= registry.sites.update(
        at,
        SiteView { secured: false, ..registry.sites[at] },
    ));
    if !registry.sites[at].secured {
        assert(after.sites =~= registry.sites);
    }
}

/// The script of a removal deletes the fragment of the site for Caddy and
/// both of its files for Nginx, whichever backend is active.
pub proof fn law_removal_cleans_both_backends(
    sites: Seq<SiteView>,
    backend: Backend,
    name: Seq<char>,
)
    ensures
        crate::text::contains(
            webserver_script(Some(Operation::RemoveSite), sites, backend, Some(name)),
            crate::webserver::remove_file_step(crate::webserver::caddy_file(name)),
        ),
        crate::text::contains(
            webserver_script(Some(Operation::RemoveSite), sites, backend, Some(name)),
            crate::webserver::remove_file_step(crate::webserver::nginx_available_file(name)),
        ),
        crate::text::contains(
            webserver_script(Some(Operation::RemoveSite), sites, backend, Some(name)),
            crate::webserver::remove_file_step(crate::webserver::nginx_enabled_file(name)),
        ),
{
    let script = webserver_script(Some(Operation::RemoveSite), sites, backend, Some(name));
    let head = crate::webserver::SCRIPT_HEADER@ + crate::webserver::script_preamble();
    let first = crate::webserver::remove_file_step(crate::webserver::caddy_file(name));
    let second = crate::webserver::remove_file_step(crate::webserver::nginx_available_file(name));
    let third = crate::webserver::remove_file_step(crate::webserver::nginx_enabled_file(name));
    let a = head.len() as int;
    let b = a + first.len();
    let c = b + second.len();
    assert(script.subrange(a, a + first.len()) =~= first);
    assert(crate::text::occurs_at(script, first, a));
    assert(script.subrange(b, b + second.len()) =~= second);
    assert(crate::text::occurs_at(script, second, b));
    assert(script.subrange(c, c + third.len()) =~= third);
    assert(crate::text::occurs_at(script, third, c));
}

/// The script of a backend switch deletes the fragments that were generated
/// for the backend that is left, before it writes those of the new one.
pub proof fn law_switch_leaves_no_fragment_behind(sites: Seq<SiteView>, backend: Backend)
    ensures
        crate::text::contains(
            webserver_script(Some(Operation::SwitchServer), sites, backend, None),
            crate::webserver::remove_fragments_step(backend.other()),
        ),
{
    let script = webserver_script(Some(Operation::SwitchServer), sites, backend, None);
    let head = crate::webserver::SCRIPT_HEADER@ + crate::webserver::script_preamble();
    let open = match backend {
        Backend::Caddy => crate::webserver::SWITCH_TO_CADDY@ + crate::webserver::LEAVE_NGINX@,
        Backend::Nginx => crate::webserver::SWITCH_TO_NGINX@ + crate::webserver::LEAVE_CADDY@,
    };
    let step = crate::webserver::remove_fragments_step(backend.other());
    let at = (head.len() + open.len()) as int;
    assert(script.subrange(at, at + step.len()) =~= step);
    assert(crate::text::occurs_at(script, step, at));
}

} // verus!
