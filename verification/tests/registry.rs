use servermark::errors::{Error, ErrorKind};
use servermark::webserver::{generate_config, Backend};
use servermark::sites::{
    add_site, add_site_at, change_site, compute_domain, detect_laravel_info, detect_site_type,
    get_config_path, get_sites_config, list_sites, load_sites_config, make_site_id, registry_path,
    remove_site, secure_site, unsecure_site, update_site_php, update_sites_config, LaravelInfo,
    ProjectFacts, SiteChange, SiteType, SitesConfig, StoredRegistry,
};

fn empty_registry() -> SitesConfig {
    SitesConfig {
        sites: Vec::new(),
        tld: "test".to_string(),
        sites_path: "/home/dev/Code".to_string(),
        last_id: 0,
    }
}

fn plain_directory() -> ProjectFacts {
    ProjectFacts {
        exists: true,
        has_artisan: false,
        has_composer_json: false,
        has_bin_console: false,
        has_symfony_lock: false,
        has_wp_config: false,
        has_wp_content: false,
        composer_json: None,
    }
}

fn laravel_directory() -> ProjectFacts {
    ProjectFacts {
        exists: true,
        has_artisan: true,
        has_composer_json: true,
        has_bin_console: false,
        has_symfony_lock: false,
        has_wp_config: false,
        has_wp_content: false,
        composer_json: Some(
            "{\"name\": \"acme/shop\", \"require\": {\"php\": \"^8.2\", \"laravel/framework\": \"^11.0\"}}"
                .to_string(),
        ),
    }
}

fn three_sites() -> SitesConfig {
    let mut config = empty_registry();
    add_site_at(&mut config, "caddy", "/home/dev/blog".to_string(), None, None, &plain_directory(), "8.3", 1).unwrap();
    add_site_at(&mut config, "caddy", "/home/dev/shop".to_string(), None, Some("8.2".to_string()), &laravel_directory(), "8.3", 2).unwrap();
    add_site_at(&mut config, "caddy", "/srv/api".to_string(), None, None, &plain_directory(), "8.3", 3).unwrap();
    config
}

#[test]
fn add_to_empty_registry() {
    let mut config = empty_registry();
    let done = add_site_at(
        &mut config,
        "caddy",
        "/home/dev/blog".to_string(),
        None,
        None,
        &plain_directory(),
        "8.3",
        1700000000000,
    )
    .unwrap();
    assert_eq!(done.site.name, "blog");
    assert_eq!(done.site.domain, "blog.test");
    assert_eq!(done.site.path, "/home/dev/blog");
    assert_eq!(done.site.id, "site-1700000000000");
    assert_eq!(done.site.php_version, "8.3");
    assert_eq!(done.site.site_type, SiteType::Static);
    assert!(!done.site.secured);
    assert_eq!(done.site.proxy_target, None);
    assert_eq!(done.site.laravel, None);
    assert!(!done.refresh_env);
    assert!(!done.prepare_project);
    assert_eq!(config.sites.len(), 1);
    assert_eq!(config.sites[0], done.site);
    assert_eq!(config.last_id, 1700000000000);
    assert_eq!(done.script, EXPECTED_ADD_BLOG);
}

const EXPECTED_ADD_BLOG: &str = "#!/bin/bash\nset -e\n\n\n# Ensure directories exist\nmkdir -p /etc/caddy/sites.d\nmkdir -p /etc/nginx/sites-available\nmkdir -p /etc/nginx/sites-enabled\nmkdir -p /etc/servermark/ssl\nchown -R root:root /etc/caddy/sites.d 2>/dev/null || true\nchmod 755 /etc/caddy/sites.d\n\n# Add common Docker hostnames to /etc/hosts (for Laravel projects migrated from Docker)\nfor hostname in mysql mariadb postgres redis memcached mailhog mailpit meilisearch elasticsearch mongo mongodb rabbitmq minio; do\n    grep -q \"127.0.0.1.*\\b${hostname}\\b\" /etc/hosts 2>/dev/null || echo \"127.0.0.1 ${hostname}\" >> /etc/hosts\ndone\n\ncat > '/etc/caddy/sites.d/blog.conf' << 'SITEEOF'\nhttp://blog.test {\n    root * /home/dev/blog\n\n    php_fastcgi unix//var/run/php/php8.3-fpm.sock\n    file_server\n\n    encode gzip\n}\n\nSITEEOF\nsystemctl reload caddy || systemctl restart caddy\ngrep -q 'blog.test' /etc/hosts || echo '127.0.0.1 blog.test' >> /etc/hosts\n";

#[test]
fn add_reads_the_clock_for_the_identifier() {
    let mut config = empty_registry();
    let done = add_site(&mut config, "caddy", "/home/dev/blog".to_string(), None, None, &plain_directory(), "8.3").unwrap();
    let digits = done.site.id.strip_prefix("site-").unwrap();
    assert!(!digits.is_empty());
    assert!(digits.chars().all(|c| c.is_ascii_digit()));
    assert!(digits.parse::<i64>().unwrap() > 1_500_000_000_000);
    assert_eq!(config.sites.len(), 1);
    assert_eq!(done.site.domain, "blog.test");
}

#[test]
fn add_detects_laravel_and_reads_the_manifest() {
    let mut config = empty_registry();
    let done = add_site_at(
        &mut config,
        "nginx",
        "/home/dev/shop".to_string(),
        Some("Shop".to_string()),
        Some("8.2".to_string()),
        &laravel_directory(),
        "8.3",
        42,
    )
    .unwrap();
    assert_eq!(done.site.site_type, SiteType::Laravel);
    assert_eq!(done.site.name, "Shop");
    assert_eq!(done.site.domain, "shop.test");
    assert_eq!(done.site.php_version, "8.2");
    assert_eq!(
        done.site.laravel,
        Some(LaravelInfo {
            detected: true,
            version: None,
            constraint: Some("^11.0".to_string()),
            php_version: Some("^8.2".to_string()),
        })
    );
    assert!(done.refresh_env);
    assert!(done.prepare_project);
    assert!(done.script.contains("cat > '/etc/nginx/sites-available/servermark-Shop' << 'SITEEOF'\n"));
    assert!(done.script.contains("    root /home/dev/shop/public;\n"));
}

#[test]
fn add_laravel_without_readable_manifest_has_no_metadata() {
    let mut config = empty_registry();
    let mut facts = laravel_directory();
    facts.composer_json = None;
    let done = add_site_at(&mut config, "caddy", "/p".to_string(), Some("p".to_string()), None, &facts, "8.3", 1).unwrap();
    assert_eq!(done.site.site_type, SiteType::Laravel);
    assert_eq!(done.site.laravel, None);
    let mut facts = laravel_directory();
    facts.composer_json = Some("not json".to_string());
    let done = add_site_at(&mut config, "caddy", "/q".to_string(), Some("q".to_string()), None, &facts, "8.3", 2).unwrap();
    assert_eq!(done.site.laravel, None);
}

#[test]
fn domain_is_lowercase_with_dashes_for_white_space() {
    assert_eq!(compute_domain("blog", "test"), "blog.test");
    assert_eq!(compute_domain("Blog", "test"), "blog.test");
    assert_eq!(compute_domain("My Shop", "test"), "my-shop.test");
    assert_eq!(compute_domain("My\tBig  Shop", "localhost"), "my-big--shop.localhost");
    assert_eq!(compute_domain("ÉCOLE", "dev"), "école.dev");
    assert_eq!(compute_domain("", "test"), ".test");
}

#[test]
fn identifier_spells_the_moment_in_decimal() {
    assert_eq!(make_site_id(0), "site-0");
    assert_eq!(make_site_id(7), "site-7");
    assert_eq!(make_site_id(1700000000000), "site-1700000000000");
    assert_eq!(make_site_id(10), "site-10");
    assert_eq!(make_site_id(9223372036854775807), "site-9223372036854775807");
    assert_eq!(make_site_id(u64::MAX), "site-18446744073709551615");
}

#[test]
fn name_defaults_to_the_last_component_of_the_path() {
    let mut config = empty_registry();
    let done = add_site_at(&mut config, "caddy", "/srv/www/My Shop/".to_string(), None, None, &plain_directory(), "8.3", 1).unwrap();
    assert_eq!(done.site.name, "My Shop");
    assert_eq!(done.site.domain, "my-shop.test");
    let done = add_site_at(&mut config, "caddy", "/".to_string(), None, None, &plain_directory(), "8.3", 2).unwrap();
    assert_eq!(done.site.name, "site");
    let done = add_site_at(&mut config, "caddy", "/srv/..".to_string(), None, Some("8.0".to_string()), &plain_directory(), "8.3", 3);
    assert_eq!(done, Err(Error::DuplicateName));
}

#[test]
fn add_refuses_a_missing_path() {
    let mut config = three_sites();
    let before = config.clone();
    let mut facts = plain_directory();
    facts.exists = false;
    let r = add_site_at(&mut config, "caddy", "/nowhere".to_string(), None, None, &facts, "8.3", 9);
    assert_eq!(r, Err(Error::PathMissing));
    assert_eq!(config, before);
    let r = add_site(&mut config, "caddy", "/nowhere".to_string(), None, None, &facts, "8.3");
    assert_eq!(r, Err(Error::PathMissing));
    assert_eq!(config, before);
}

#[test]
fn add_refuses_a_registered_path() {
    let mut config = three_sites();
    let before = config.clone();
    let r = add_site_at(&mut config, "caddy", "/home/dev/blog".to_string(), Some("other".to_string()), None, &plain_directory(), "8.3", 9);
    assert_eq!(r, Err(Error::DuplicatePath));
    assert_eq!(config, before);
}

#[test]
fn add_refuses_a_registered_name() {
    let mut config = three_sites();
    let before = config.clone();
    let r = add_site_at(&mut config, "caddy", "/elsewhere".to_string(), Some("blog".to_string()), None, &plain_directory(), "8.3", 9);
    assert_eq!(r, Err(Error::DuplicateName));
    assert_eq!(config, before);
    let r = add_site_at(&mut config, "caddy", "/elsewhere/blog".to_string(), None, None, &plain_directory(), "8.3", 9);
    assert_eq!(r, Err(Error::DuplicateName));
    assert_eq!(config, before);
}

#[test]
fn add_refuses_a_colliding_domain() {
    let mut config = three_sites();
    let before = config.clone();
    let r = add_site_at(&mut config, "caddy", "/elsewhere".to_string(), Some("Blog".to_string()), None, &plain_directory(), "8.3", 9);
    assert_eq!(r, Err(Error::DomainCollision));
    assert_eq!(config, before);
    add_site_at(&mut config, "caddy", "/a".to_string(), Some("my shop".to_string()), None, &plain_directory(), "8.3", 10).unwrap();
    let before = config.clone();
    let r = add_site_at(&mut config, "caddy", "/b".to_string(), Some("my-shop".to_string()), None, &plain_directory(), "8.3", 11);
    assert_eq!(r, Err(Error::DomainCollision));
    assert_eq!(config, before);
}

#[test]
fn an_identifier_in_use_is_passed_over() {
    let mut config = three_sites();
    let done = add_site_at(&mut config, "caddy", "/elsewhere".to_string(), Some("fresh".to_string()), None, &plain_directory(), "8.3", 2).unwrap();
    assert_eq!(done.site.id, "site-4");
    assert_eq!(config.last_id, 4);
    assert_eq!(config.sites.len(), 4);
    let mut config = three_sites();
    config.last_id = 0;
    let done = add_site_at(&mut config, "caddy", "/elsewhere".to_string(), Some("fresh".to_string()), None, &plain_directory(), "8.3", 2).unwrap();
    assert_eq!(done.site.id, "site-4");
    assert_eq!(config.last_id, 4);
    let mut config = three_sites();
    config.sites[1].id = "site-5".to_string();
    config.sites[2].id = "site-6".to_string();
    config.last_id = 3;
    let done = add_site_at(&mut config, "caddy", "/elsewhere".to_string(), Some("fresh".to_string()), None, &plain_directory(), "8.3", 5).unwrap();
    assert_eq!(done.site.id, "site-7");
}

#[test]
fn an_identifier_is_never_given_out_twice() {
    let mut config = three_sites();
    remove_site(&mut config, "caddy", "site-3").unwrap();
    assert_eq!(config.last_id, 3);
    let done = add_site_at(&mut config, "caddy", "/srv/api".to_string(), None, None, &plain_directory(), "8.3", 3).unwrap();
    assert_eq!(done.site.id, "site-4");
    remove_site(&mut config, "caddy", "site-4").unwrap();
    remove_site(&mut config, "caddy", "site-1").unwrap();
    remove_site(&mut config, "caddy", "site-2").unwrap();
    assert!(config.sites.is_empty());
    assert_eq!(config.last_id, 4);
    let done = add_site_at(&mut config, "caddy", "/srv/api".to_string(), None, None, &plain_directory(), "8.3", -5).unwrap();
    assert_eq!(done.site.id, "site-5");
    let done = add_site_at(&mut config, "caddy", "/srv/web".to_string(), None, None, &plain_directory(), "8.3", i64::MIN).unwrap();
    assert_eq!(done.site.id, "site-6");
    let done = add_site_at(&mut config, "caddy", "/srv/far".to_string(), None, None, &plain_directory(), "8.3", i64::MAX).unwrap();
    assert_eq!(done.site.id, "site-9223372036854775807");
    let done = add_site(&mut config, "caddy", "/srv/next".to_string(), None, None, &plain_directory(), "8.3").unwrap();
    assert_eq!(done.site.id, "site-9223372036854775808");
    assert_eq!(config.last_id, 9223372036854775808);
    secure_site(&mut config, "caddy", "site-5").unwrap();
    update_site_php(&mut config, "caddy", "site-5", "8.4".to_string()).unwrap();
    update_sites_config(&mut config, Some("localhost".to_string()), Some("/srv".to_string())).unwrap();
    assert_eq!(config.last_id, 9223372036854775808);
}

#[test]
fn no_identifier_is_left_after_the_last_number() {
    let mut config = three_sites();
    config.last_id = u64::MAX;
    let before = config.clone();
    let r = add_site_at(&mut config, "caddy", "/elsewhere".to_string(), Some("fresh".to_string()), None, &plain_directory(), "8.3", 9);
    assert_eq!(r, Err(Error::IdentifiersExhausted));
    assert_eq!(config, before);
    let r = add_site_at(&mut config, "caddy", "/home/dev/blog".to_string(), None, None, &plain_directory(), "8.3", 9);
    assert_eq!(r, Err(Error::DuplicatePath));
    config.last_id = u64::MAX - 1;
    let done = add_site_at(&mut config, "caddy", "/elsewhere".to_string(), Some("fresh".to_string()), None, &plain_directory(), "8.3", 9).unwrap();
    assert_eq!(done.site.id, "site-18446744073709551615");
    assert_eq!(config.last_id, u64::MAX);
}

#[test]
fn a_changed_tld_moves_every_site() {
    let mut config = three_sites();
    assert_eq!(update_sites_config(&mut config, Some("localhost".to_string()), None), Ok(()));
    assert_eq!(config.tld, "localhost");
    assert_eq!(config.sites_path, "/home/dev/Code");
    assert_eq!(config.sites[0].domain, "blog.localhost");
    assert_eq!(config.sites[1].domain, "shop.localhost");
    assert_eq!(config.sites[2].domain, "api.localhost");
    let mut expected = three_sites();
    expected.tld = "localhost".to_string();
    for site in expected.sites.iter_mut() {
        site.domain = compute_domain(&site.name, "localhost");
    }
    assert_eq!(config, expected);
    let r = add_site_at(&mut config, "caddy", "/n".to_string(), Some("Blog".to_string()), None, &plain_directory(), "8.3", 9);
    assert_eq!(r, Err(Error::DomainCollision));
    let done = add_site_at(&mut config, "caddy", "/n".to_string(), Some("News".to_string()), None, &plain_directory(), "8.3", 9).unwrap();
    assert_eq!(done.site.domain, "news.localhost");
    assert_eq!(update_sites_config(&mut config, None, Some("/srv".to_string())), Ok(()));
    assert_eq!(config.tld, "localhost");
    assert_eq!(config.sites_path, "/srv");
    assert_eq!(config.sites.len(), 4);
    assert_eq!(config.sites[3].domain, "news.localhost");
}

#[test]
fn the_same_tld_leaves_the_domains_alone() {
    let mut config = three_sites();
    config.sites[0].domain = "kept.example".to_string();
    let before = config.clone();
    assert_eq!(update_sites_config(&mut config, Some("test".to_string()), None), Ok(()));
    assert_eq!(config, before);
    assert_eq!(update_sites_config(&mut config, None, None), Ok(()));
    assert_eq!(config, before);
    assert_eq!(update_sites_config(&mut config, Some("dev".to_string()), None), Ok(()));
    assert_eq!(config.sites[0].domain, "blog.dev");
}

#[test]
fn a_tld_under_which_two_domains_collide_is_refused() {
    let mut config = three_sites();
    config.sites[1].name = "Blog".to_string();
    config.sites[1].domain = "other.test".to_string();
    let before = config.clone();
    let r = update_sites_config(&mut config, Some("localhost".to_string()), Some("/srv".to_string()));
    assert_eq!(r, Err(Error::DomainCollision));
    assert_eq!(config, before);
    assert_eq!(r.unwrap_err().kind(), ErrorKind::Validation);
    config.sites[1].name = "my blog".to_string();
    config.sites[2].name = "My\tBlog".to_string();
    let before = config.clone();
    let r = update_sites_config(&mut config, Some("localhost".to_string()), None);
    assert_eq!(r, Err(Error::DomainCollision));
    assert_eq!(config, before);
}

#[test]
fn site_type_follows_the_marker_files() {
    let mut facts = plain_directory();
    assert_eq!(detect_site_type(&facts), Ok(SiteType::Static));
    facts.has_wp_content = true;
    assert_eq!(detect_site_type(&facts), Ok(SiteType::WordPress));
    facts.has_wp_content = false;
    facts.has_wp_config = true;
    assert_eq!(detect_site_type(&facts), Ok(SiteType::WordPress));
    facts.has_bin_console = true;
    assert_eq!(detect_site_type(&facts), Ok(SiteType::WordPress));
    facts.has_symfony_lock = true;
    assert_eq!(detect_site_type(&facts), Ok(SiteType::Symfony));
    facts.has_artisan = true;
    assert_eq!(detect_site_type(&facts), Ok(SiteType::Symfony));
    facts.has_composer_json = true;
    assert_eq!(detect_site_type(&facts), Ok(SiteType::Laravel));
    facts.exists = false;
    assert_eq!(detect_site_type(&facts), Err(Error::PathMissing));
}

#[test]
fn manifest_info_reads_the_require_section() {
    assert_eq!(detect_laravel_info("{"), None);
    assert_eq!(detect_laravel_info(""), None);
    assert_eq!(
        detect_laravel_info("{}"),
        Some(LaravelInfo { detected: true, version: None, constraint: None, php_version: None })
    );
    assert_eq!(
        detect_laravel_info("[1, 2]"),
        Some(LaravelInfo { detected: true, version: None, constraint: None, php_version: None })
    );
    assert_eq!(
        detect_laravel_info("{\"require\": {\"php\": 8, \"laravel/framework\": \"^10.10\"}}"),
        Some(LaravelInfo {
            detected: true,
            version: None,
            constraint: Some("^10.10".to_string()),
            php_version: None,
        })
    );
    assert_eq!(
        detect_laravel_info("{\"require\": \"php\", \"php\": \"^8.1\"}"),
        Some(LaravelInfo { detected: true, version: None, constraint: None, php_version: None })
    );
    assert_eq!(
        detect_laravel_info("{\"require\": {\"php\": \"^8.1\"}, \"require-dev\": {\"laravel/framework\": \"^9\"}}"),
        Some(LaravelInfo {
            detected: true,
            version: None,
            constraint: None,
            php_version: Some("^8.1".to_string()),
        })
    );
}

#[test]
fn remove_unknown_site() {
    let mut config = three_sites();
    let before = config.clone();
    assert_eq!(remove_site(&mut config, "caddy", "site-99"), Err(Error::SiteNotFound));
    assert_eq!(config, before);
    let mut empty = empty_registry();
    assert_eq!(remove_site(&mut empty, "caddy", "site-1"), Err(Error::SiteNotFound));
}

#[test]
fn remove_takes_the_site_out_and_cleans_both_backends() {
    let mut config = three_sites();
    let done = remove_site(&mut config, "nginx", "site-2").unwrap();
    assert_eq!(done.site.name, "shop");
    assert_eq!(done.site.id, "site-2");
    assert!(!done.refresh_env);
    assert!(!done.prepare_project);
    assert_eq!(config.sites.len(), 2);
    assert_eq!(config.sites[0].name, "blog");
    assert_eq!(config.sites[1].name, "api");
    assert_eq!(done.script, EXPECTED_REMOVE_SHOP);
    assert_eq!(remove_site(&mut config, "nginx", "site-2"), Err(Error::SiteNotFound));
}

const EXPECTED_REMOVE_SHOP: &str = "#!/bin/bash\nset -e\n\n\n# Ensure directories exist\nmkdir -p /etc/caddy/sites.d\nmkdir -p /etc/nginx/sites-available\nmkdir -p /etc/nginx/sites-enabled\nmkdir -p /etc/servermark/ssl\nchown -R root:root /etc/caddy/sites.d 2>/dev/null || true\nchmod 755 /etc/caddy/sites.d\n\n# Add common Docker hostnames to /etc/hosts (for Laravel projects migrated from Docker)\nfor hostname in mysql mariadb postgres redis memcached mailhog mailpit meilisearch elasticsearch mongo mongodb rabbitmq minio; do\n    grep -q \"127.0.0.1.*\\b${hostname}\\b\" /etc/hosts 2>/dev/null || echo \"127.0.0.1 ${hostname}\" >> /etc/hosts\ndone\n\nrm -f '/etc/caddy/sites.d/shop.conf'\nrm -f '/etc/nginx/sites-available/servermark-shop'\nrm -f '/etc/nginx/sites-enabled/servermark-shop'\nnginx -t && systemctl reload nginx 2>/dev/null || true\nsed -i '/shop.test/d' /etc/hosts\n";

#[test]
fn remove_takes_every_site_with_the_identifier() {
    let mut config = three_sites();
    config.sites[2].id = "site-1".to_string();
    let done = remove_site(&mut config, "caddy", "site-1").unwrap();
    assert_eq!(done.site.name, "blog");
    assert_eq!(config.sites.len(), 1);
    assert_eq!(config.sites[0].name, "shop");
}

#[test]
fn removal_after_a_backend_switch_still_cleans_both() {
    let mut config = empty_registry();
    let added = add_site_at(&mut config, "caddy", "/home/dev/blog".to_string(), None, None, &plain_directory(), "8.3", 1).unwrap();
    assert!(added.script.contains("cat > '/etc/caddy/sites.d/blog.conf'"));
    let done = remove_site(&mut config, "nginx", "site-1").unwrap();
    assert!(done.script.contains("rm -f '/etc/caddy/sites.d/blog.conf'\n"));
    assert!(done.script.contains("rm -f '/etc/nginx/sites-available/servermark-blog'\n"));
    assert!(done.script.contains("rm -f '/etc/nginx/sites-enabled/servermark-blog'\n"));
    assert!(done.script.contains("nginx -t && systemctl reload nginx 2>/dev/null || true\n"));
    assert!(!done.script.contains("systemctl reload caddy"));
    assert!(config.sites.is_empty());
}

#[test]
fn remove_then_add_gives_the_same_fragments() {
    let mut config = three_sites();
    let original = config.sites[0].clone();
    remove_site(&mut config, "caddy", "site-1").unwrap();
    let again = add_site_at(
        &mut config,
        "caddy",
        original.path.clone(),
        Some(original.name.clone()),
        Some(original.php_version.clone()),
        &plain_directory(),
        "7.4",
        77,
    )
    .unwrap();
    assert_eq!(generate_config(&again.site, Backend::Caddy), generate_config(&original, Backend::Caddy));
    assert_eq!(generate_config(&again.site, Backend::Nginx), generate_config(&original, Backend::Nginx));
    assert_ne!(again.site.id, original.id);
    assert_eq!(again.site.id, "site-77");
    let mut config = three_sites();
    remove_site(&mut config, "caddy", "site-1").unwrap();
    let again = add_site_at(&mut config, "caddy", original.path.clone(), Some(original.name.clone()), None, &plain_directory(), "8.3", 1).unwrap();
    assert_eq!(generate_config(&again.site, Backend::Caddy), generate_config(&original, Backend::Caddy));
    assert_eq!(generate_config(&again.site, Backend::Nginx), generate_config(&original, Backend::Nginx));
    assert_eq!(again.site.id, "site-4");
    assert_ne!(again.site.id, original.id);
}

#[test]
fn secure_then_unsecure() {
    let mut config = three_sites();
    let secured = secure_site(&mut config, "caddy", "site-2").unwrap();
    assert!(secured.site.secured);
    assert!(secured.refresh_env);
    assert!(!secured.prepare_project);
    assert!(config.sites[1].secured);
    assert_eq!(secured.script, EXPECTED_SECURE_SHOP);
    let again = secure_site(&mut config, "caddy", "site-2").unwrap();
    assert_eq!(again.site, secured.site);
    let plain = unsecure_site(&mut config, "caddy", "site-2").unwrap();
    assert!(!plain.site.secured);
    assert!(plain.refresh_env);
    assert!(!config.sites[1].secured);
    assert_eq!(plain.script, EXPECTED_UNSECURE_SHOP);
    assert_eq!(config, three_sites());
}

const EXPECTED_SECURE_SHOP: &str = "#!/bin/bash\nset -e\n\n\n# Ensure directories exist\nmkdir -p /etc/caddy/sites.d\nmkdir -p /etc/nginx/sites-available\nmkdir -p /etc/nginx/sites-enabled\nmkdir -p /etc/servermark/ssl\nchown -R root:root /etc/caddy/sites.d 2>/dev/null || true\nchmod 755 /etc/caddy/sites.d\n\n# Add common Docker hostnames to /etc/hosts (for Laravel projects migrated from Docker)\nfor hostname in mysql mariadb postgres redis memcached mailhog mailpit meilisearch elasticsearch mongo mongodb rabbitmq minio; do\n    grep -q \"127.0.0.1.*\\b${hostname}\\b\" /etc/hosts 2>/dev/null || echo \"127.0.0.1 ${hostname}\" >> /etc/hosts\ndone\n\ncat > '/etc/caddy/sites.d/shop.conf' << 'SITEEOF'\nhttps://shop.test {\n    tls internal\n    root * /home/dev/shop/public\n\n    php_fastcgi unix//var/run/php/php8.2-fpm.sock\n    file_server\n\n    encode gzip\n}\n\nSITEEOF\nsystemctl reload caddy || systemctl restart caddy\ngrep -q 'shop.test' /etc/hosts || echo '127.0.0.1 shop.test' >> /etc/hosts\n";

const EXPECTED_UNSECURE_SHOP: &str = "#!/bin/bash\nset -e\n\n\n# Ensure directories exist\nmkdir -p /etc/caddy/sites.d\nmkdir -p /etc/nginx/sites-available\nmkdir -p /etc/nginx/sites-enabled\nmkdir -p /etc/servermark/ssl\nchown -R root:root /etc/caddy/sites.d 2>/dev/null || true\nchmod 755 /etc/caddy/sites.d\n\n# Add common Docker hostnames to /etc/hosts (for Laravel projects migrated from Docker)\nfor hostname in mysql mariadb postgres redis memcached mailhog mailpit meilisearch elasticsearch mongo mongodb rabbitmq minio; do\n    grep -q \"127.0.0.1.*\\b${hostname}\\b\" /etc/hosts 2>/dev/null || echo \"127.0.0.1 ${hostname}\" >> /etc/hosts\ndone\n\ncat > '/etc/caddy/sites.d/shop.conf' << 'SITEEOF'\nhttp://shop.test {\n    root * /home/dev/shop/public\n\n    php_fastcgi unix//var/run/php/php8.2-fpm.sock\n    file_server\n\n    encode gzip\n}\n\nSITEEOF\nsystemctl reload caddy || systemctl restart caddy\ngrep -q 'shop.test' /etc/hosts || echo '127.0.0.1 shop.test' >> /etc/hosts\n";

#[test]
fn securing_a_static_site_leaves_the_environment_file_alone() {
    let mut config = three_sites();
    let done = secure_site(&mut config, "nginx", "site-1").unwrap();
    assert!(done.site.secured);
    assert!(!done.refresh_env);
    assert!(done.script.contains("if [ ! -f \"/etc/servermark/ssl/blog.test.crt\" ]; then\n"));
}

#[test]
fn changes_to_unknown_sites_are_refused() {
    let mut config = three_sites();
    let before = config.clone();
    assert_eq!(secure_site(&mut config, "caddy", "site-0"), Err(Error::SiteNotFound));
    assert_eq!(unsecure_site(&mut config, "caddy", "site-0"), Err(Error::SiteNotFound));
    assert_eq!(update_site_php(&mut config, "caddy", "site-0", "8.4".to_string()), Err(Error::SiteNotFound));
    assert_eq!(change_site(&mut config, "caddy", "", SiteChange::Secured(true)), Err(Error::SiteNotFound));
    assert_eq!(config, before);
}

#[test]
fn update_php_version() {
    let mut config = three_sites();
    let done = update_site_php(&mut config, "caddy", "site-1", "8.1".to_string()).unwrap();
    assert_eq!(done.site.php_version, "8.1");
    assert_eq!(done.site.name, "blog");
    assert!(!done.refresh_env);
    assert_eq!(config.sites[0].php_version, "8.1");
    assert_eq!(config.sites[1].php_version, "8.2");
    assert_eq!(config.sites.len(), 3);
    assert_eq!(done.script, EXPECTED_PHP_BLOG);
}

const EXPECTED_PHP_BLOG: &str = "#!/bin/bash\nset -e\n\n\n# Ensure directories exist\nmkdir -p /etc/caddy/sites.d\nmkdir -p /etc/nginx/sites-available\nmkdir -p /etc/nginx/sites-enabled\nmkdir -p /etc/servermark/ssl\nchown -R root:root /etc/caddy/sites.d 2>/dev/null || true\nchmod 755 /etc/caddy/sites.d\n\n# Add common Docker hostnames to /etc/hosts (for Laravel projects migrated from Docker)\nfor hostname in mysql mariadb postgres redis memcached mailhog mailpit meilisearch elasticsearch mongo mongodb rabbitmq minio; do\n    grep -q \"127.0.0.1.*\\b${hostname}\\b\" /etc/hosts 2>/dev/null || echo \"127.0.0.1 ${hostname}\" >> /etc/hosts\ndone\n\ncat > '/etc/caddy/sites.d/blog.conf' << 'SITEEOF'\nhttp://blog.test {\n    root * /home/dev/blog\n\n    php_fastcgi unix//var/run/php/php8.1-fpm.sock\n    file_server\n\n    encode gzip\n}\n\nSITEEOF\nsystemctl reload caddy || systemctl restart caddy\ngrep -q 'blog.test' /etc/hosts || echo '127.0.0.1 blog.test' >> /etc/hosts\n";

#[test]
fn listing_copies_the_registry() {
    let config = three_sites();
    assert_eq!(list_sites(StoredRegistry::Found(config.clone())), Ok(config.sites.clone()));
    assert_eq!(list_sites(StoredRegistry::Found(empty_registry())), Ok(Vec::new()));
    assert_eq!(list_sites(StoredRegistry::Missing), Ok(Vec::new()));
    assert_eq!(get_sites_config(&config), config);
}

#[test]
fn an_unreadable_registry_is_a_persistence_error() {
    let cause = "Failed to parse sites config: expected value at line 1 column 1";
    let listed = list_sites(StoredRegistry::Unreadable(cause.to_string()));
    assert_eq!(listed, Err(Error::Persistence(cause.to_string())));
    let loaded = load_sites_config(StoredRegistry::Unreadable(cause.to_string()));
    assert_eq!(loaded, Err(Error::Persistence(cause.to_string())));
    let error = loaded.unwrap_err();
    assert_eq!(error.kind(), ErrorKind::Persistence);
    assert_eq!(error.message(), cause);
}

#[test]
fn a_fresh_registry_has_defaults() {
    let config = SitesConfig::with_home(&Some("/home/dev".to_string()));
    assert!(config.sites.is_empty());
    assert_eq!(config.tld, "test");
    assert_eq!(config.sites_path, "/home/dev/Code");
    let config = SitesConfig::with_home(&Some("/home/dev/".to_string()));
    assert_eq!(config.sites_path, "/home/dev/Code");
    let config = SitesConfig::with_home(&None);
    assert_eq!(config.sites_path, "/home");
    let config = SitesConfig::default();
    assert!(config.sites.is_empty());
    assert_eq!(config.tld, "test");
    assert!(config.sites_path == "/home" || config.sites_path.ends_with("Code"));
    assert_eq!(config.last_id, 0);
    assert_eq!(load_sites_config(StoredRegistry::Found(three_sites())), Ok(three_sites()));
    let loaded = load_sites_config(StoredRegistry::Missing).unwrap();
    assert!(loaded.sites.is_empty());
    assert_eq!(loaded.tld, "test");
    assert_eq!(loaded.last_id, 0);
}

#[test]
fn registry_document_location() {
    assert_eq!(registry_path(&Some("/home/dev/.config".to_string())), "/home/dev/.config/servermark/sites.json");
    assert_eq!(registry_path(&None), "/tmp/servermark/sites.json");
    assert!(get_config_path().ends_with("servermark/sites.json"));
}

#[test]
fn error_kinds_and_messages() {
    assert_eq!(Error::PathMissing.kind(), ErrorKind::Validation);
    assert_eq!(Error::DuplicatePath.kind(), ErrorKind::Validation);
    assert_eq!(Error::DuplicateName.kind(), ErrorKind::Validation);
    assert_eq!(Error::DomainCollision.kind(), ErrorKind::Validation);
    assert_eq!(Error::IdentifiersExhausted.kind(), ErrorKind::Validation);
    assert_eq!(Error::InvalidBackend.kind(), ErrorKind::Validation);
    assert_eq!(Error::NotLaravelProject.kind(), ErrorKind::Validation);
    assert_eq!(Error::SiteNotFound.kind(), ErrorKind::NotFound);
    assert_eq!(Error::ElevationDenied("x".to_string()).kind(), ErrorKind::ElevationDenied);
    assert_eq!(Error::ScriptFailure("x".to_string()).kind(), ErrorKind::ScriptFailure);
    assert_eq!(Error::Persistence("x".to_string()).kind(), ErrorKind::Persistence);
    assert_eq!(Error::PathMissing.message(), "Path does not exist");
    assert_eq!(Error::DuplicatePath.message(), "Site already exists");
    assert_eq!(Error::DuplicateName.message(), "Site already exists");
    assert_eq!(Error::DomainCollision.message(), "Domain already in use");
    assert_eq!(Error::IdentifiersExhausted.message(), "No site identifier is left");
    assert_eq!(Error::InvalidBackend.message(), "Unknown web server");
    assert_eq!(Error::NotLaravelProject.message(), "Not a Laravel project");
    assert_eq!(Error::SiteNotFound.message(), "Site not found");
    assert_eq!(Error::ElevationDenied("No such file".to_string()).message(), "Failed to execute: No such file");
    assert_eq!(Error::ScriptFailure("nginx: [emerg] bad\n".to_string()).message(), "Operation failed: nginx: [emerg] bad\n");
    assert_eq!(Error::Persistence("Failed to write config: denied".to_string()).message(), "Failed to write config: denied");
}
