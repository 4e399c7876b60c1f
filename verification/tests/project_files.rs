use servermark::dotenv::{app_url_entry, fix_docker_hostnames_in_env, update_laravel_env};
use servermark::errors::Error;
use servermark::permissions::{
    fix_laravel_permissions, fix_laravel_permissions_internal, script_for_directories,
};
use servermark::sites::{Site, SiteType};

fn site(domain: &str, secured: bool) -> Site {
    Site {
        id: "site-1".to_string(),
        name: "shop".to_string(),
        path: "/home/dev/shop".to_string(),
        domain: domain.to_string(),
        php_version: "8.3".to_string(),
        secured,
        site_type: SiteType::Laravel,
        proxy_target: None,
        laravel: None,
    }
}

#[test]
fn url_entry_follows_the_scheme() {
    assert_eq!(app_url_entry(&site("shop.test", false)), "APP_URL=http://shop.test");
    assert_eq!(app_url_entry(&site("shop.test", true)), "APP_URL=https://shop.test");
}

#[test]
fn existing_url_line_is_replaced() {
    let env = "APP_NAME=Shop\nAPP_ENV=local\nAPP_URL=http://localhost\nDB_HOST=mysql\n";
    assert_eq!(
        update_laravel_env(&site("shop.test", false), env),
        "APP_NAME=Shop\nAPP_ENV=local\nAPP_URL=http://shop.test\nDB_HOST=mysql\n"
    );
    assert_eq!(
        update_laravel_env(&site("shop.test", true), env),
        "APP_NAME=Shop\nAPP_ENV=local\nAPP_URL=https://shop.test\nDB_HOST=mysql\n"
    );
}

#[test]
fn secure_then_unsecure_restores_the_plain_url() {
    let env = "APP_NAME=Shop\nAPP_URL=http://shop.test\n";
    let secured = update_laravel_env(&site("shop.test", true), env);
    assert_eq!(secured, "APP_NAME=Shop\nAPP_URL=https://shop.test\n");
    let plain = update_laravel_env(&site("shop.test", false), &secured);
    assert_eq!(plain, env);
}

#[test]
fn url_lines_edge_cases() {
    let s = site("shop.test", false);
    assert_eq!(update_laravel_env(&s, "APP_URL="), "APP_URL=http://shop.test");
    assert_eq!(
        update_laravel_env(&s, "APP_URL=a\r\nB=1\r\nAPP_URL=b"),
        "APP_URL=http://shop.test\nB=1\r\nAPP_URL=http://shop.test"
    );
    assert_eq!(
        update_laravel_env(&s, "VITE_APP_URL=x\n\nB=1\n"),
        "APP_URL=http://shop.test\nVITE_APP_URL=x\n\nB=1\n"
    );
    assert_eq!(
        update_laravel_env(&s, " APP_URL=x\nB=1\r"),
        "APP_URL=http://shop.test\n APP_URL=x\nB=1\r"
    );
    assert_eq!(
        update_laravel_env(&s, "VITE_APP_URL=x\nAPP_NAME=Shop\n"),
        "VITE_APP_URL=x\nAPP_URL=http://shop.test\nAPP_NAME=Shop\n"
    );
    assert_eq!(
        update_laravel_env(&s, "A=1\n\n\nAPP_URL=x\n\n"),
        "A=1\n\n\nAPP_URL=http://shop.test\n\n"
    );
}

#[test]
fn url_is_inserted_before_the_name() {
    let s = site("shop.test", true);
    assert_eq!(
        update_laravel_env(&s, "APP_NAME=Shop\nAPP_ENV=local\n"),
        "APP_URL=https://shop.test\nAPP_NAME=Shop\nAPP_ENV=local\n"
    );
    assert_eq!(
        update_laravel_env(&s, "X=1\nAPP_NAME=Shop\nOLD_APP_NAME=Old"),
        "X=1\nAPP_URL=https://shop.test\nAPP_NAME=Shop\nOLD_APP_NAME=Old"
    );
    assert_eq!(
        update_laravel_env(&s, "OLD_APP_NAME=Old\nAPP_NAME=A\nAPP_NAME=B"),
        "OLD_APP_NAME=Old\nAPP_URL=https://shop.test\nAPP_NAME=A\nAPP_NAME=B"
    );
}

#[test]
fn url_is_put_first_otherwise() {
    let s = site("shop.test", false);
    assert_eq!(update_laravel_env(&s, ""), "APP_URL=http://shop.test\n");
    assert_eq!(update_laravel_env(&s, "DB_HOST=mysql\n"), "APP_URL=http://shop.test\nDB_HOST=mysql\n");
    assert_eq!(
        update_laravel_env(&s, "MY_APP_NAME=x\nDB_HOST=mysql"),
        "APP_URL=http://shop.test\nMY_APP_NAME=x\nDB_HOST=mysql"
    );
}

#[test]
fn an_inserted_entry_is_a_line_of_its_own_and_every_line_stays() {
    let inputs = [
        "",
        "DB_HOST=mysql\n",
        "APP_NAME=Shop\nAPP_ENV=local\n",
        "X=1\nAPP_NAME=Shop\nOLD_APP_NAME=Old",
        "VITE_APP_URL=x\r\nAPP_NAME=Shop\r\n",
    ];
    for secured in [false, true] {
        let s = site("shop.test", secured);
        let entry = app_url_entry(&s);
        for input in inputs {
            let out = update_laravel_env(&s, input);
            let after: Vec<&str> = out.split('\n').collect();
            let before: Vec<&str> = input.split('\n').collect();
            assert_eq!(after.iter().filter(|line| **line == entry).count(), 1);
            let rest: Vec<&str> = after.iter().filter(|line| **line != entry).cloned().collect();
            assert_eq!(rest, before);
        }
    }
}

#[test]
fn every_url_line_is_rewritten_and_the_others_stay() {
    let s = site("shop.test", true);
    let input = "A=1\nAPP_URL=x\nB=2\r\nAPP_URL=\nC=3\n";
    let out = update_laravel_env(&s, input);
    assert_eq!(out, "A=1\nAPP_URL=https://shop.test\nB=2\r\nAPP_URL=https://shop.test\nC=3\n");
    assert_eq!(update_laravel_env(&s, &out), out);
}

#[test]
fn container_hosts_become_loopback() {
    let env = "DB_HOST=mysql\nREDIS_HOST=redis\nMAIL_HOST=mailpit\nMONGODB_HOST=mongodb\nOTHER=1\n";
    assert_eq!(
        fix_docker_hostnames_in_env(env),
        ("DB_HOST=127.0.0.1\nREDIS_HOST=127.0.0.1\nMAIL_HOST=127.0.0.1\nMONGODB_HOST=127.0.0.1\nOTHER=1\n".to_string(), true)
    );
    for (setting, host) in [
        ("DB", "mysql"),
        ("DB", "mariadb"),
        ("DB", "postgres"),
        ("REDIS", "redis"),
        ("CACHE", "redis"),
        ("SESSION", "redis"),
        ("QUEUE", "redis"),
        ("MAIL", "mailhog"),
        ("MAIL", "mailpit"),
        ("MEILISEARCH", "meilisearch"),
        ("ELASTICSEARCH", "elasticsearch"),
        ("MONGODB", "mongo"),
        ("MONGODB", "mongodb"),
    ] {
        let env = format!("A=1\n{}_HOST={}\nB=2\n", setting, host);
        let want = format!("A=1\n{}_HOST=127.0.0.1\nB=2\n", setting);
        assert_eq!(fix_docker_hostnames_in_env(&env), (want, true));
    }
}

#[test]
fn other_hosts_stay() {
    let env = "DB_HOST=127.0.0.1\nREDIS_HOST=cache.internal\nMAIL_HOST=smtp\nDB_HOSTNAME=mysql\n";
    assert_eq!(fix_docker_hostnames_in_env(env), (env.to_string(), false));
    assert_eq!(fix_docker_hostnames_in_env(""), ("".to_string(), false));
    assert_eq!(
        fix_docker_hostnames_in_env("DB_HOST=mysql DB_HOST=mysql"),
        ("DB_HOST=127.0.0.1 DB_HOST=127.0.0.1".to_string(), true)
    );
}

#[test]
fn permissions_script() {
    assert_eq!(fix_laravel_permissions("/home/dev/shop", true, true, Some("dev")), Ok("\nset -e\n\n# Fix storage directory\nif [ -d \"/home/dev/shop/storage\" ]; then\n    chown -R dev:www-data \"/home/dev/shop/storage\"\n    chmod -R 775 \"/home/dev/shop/storage\"\n    find \"/home/dev/shop/storage\" -type d -exec chmod 775 {} \\;\n    find \"/home/dev/shop/storage\" -type f -exec chmod 664 {} \\;\nfi\n\n# Fix bootstrap/cache directory\nif [ -d \"/home/dev/shop/bootstrap/cache\" ]; then\n    chown -R dev:www-data \"/home/dev/shop/bootstrap/cache\"\n    chmod -R 775 \"/home/dev/shop/bootstrap/cache\"\nfi\n\n# Ensure directories exist\nmkdir -p \"/home/dev/shop/storage/app/public\"\nmkdir -p \"/home/dev/shop/storage/framework/cache\"\nmkdir -p \"/home/dev/shop/storage/framework/sessions\"\nmkdir -p \"/home/dev/shop/storage/framework/views\"\nmkdir -p \"/home/dev/shop/storage/logs\"\nmkdir -p \"/home/dev/shop/bootstrap/cache\"\n\n# Set permissions on newly created dirs\nchown -R dev:www-data \"/home/dev/shop/storage\"\nchown -R dev:www-data \"/home/dev/shop/bootstrap/cache\"\nchmod -R 775 \"/home/dev/shop/storage\"\nchmod -R 775 \"/home/dev/shop/bootstrap/cache\"\n\necho \"Permissions fixed successfully\"\n".to_string()));
    assert_eq!(fix_laravel_permissions("/srv/app/", true, true, None), Ok("\nset -e\n\n# Fix storage directory\nif [ -d \"/srv/app/storage\" ]; then\n    chown -R www-data:www-data \"/srv/app/storage\"\n    chmod -R 775 \"/srv/app/storage\"\n    find \"/srv/app/storage\" -type d -exec chmod 775 {} \\;\n    find \"/srv/app/storage\" -type f -exec chmod 664 {} \\;\nfi\n\n# Fix bootstrap/cache directory\nif [ -d \"/srv/app/bootstrap/cache\" ]; then\n    chown -R www-data:www-data \"/srv/app/bootstrap/cache\"\n    chmod -R 775 \"/srv/app/bootstrap/cache\"\nfi\n\n# Ensure directories exist\nmkdir -p \"/srv/app/storage/app/public\"\nmkdir -p \"/srv/app/storage/framework/cache\"\nmkdir -p \"/srv/app/storage/framework/sessions\"\nmkdir -p \"/srv/app/storage/framework/views\"\nmkdir -p \"/srv/app/storage/logs\"\nmkdir -p \"/srv/app/bootstrap/cache\"\n\n# Set permissions on newly created dirs\nchown -R www-data:www-data \"/srv/app/storage\"\nchown -R www-data:www-data \"/srv/app/bootstrap/cache\"\nchmod -R 775 \"/srv/app/storage\"\nchmod -R 775 \"/srv/app/bootstrap/cache\"\n\necho \"Permissions fixed successfully\"\n".to_string()));
    assert_eq!(
        fix_laravel_permissions_internal("/home/dev/shop", true, true, Some("dev")),
        fix_laravel_permissions("/home/dev/shop", true, true, Some("dev"))
    );
}

#[test]
fn permissions_script_over_given_directories() {
    let script = script_for_directories("dev", "/home/dev/shop/storage", "/home/dev/shop/bootstrap/cache");
    assert_eq!(Ok(script.clone()), fix_laravel_permissions("/home/dev/shop", true, true, Some("dev")));
    assert!(script.starts_with("\nset -e\n\n# Fix storage directory\nif [ -d \"/home/dev/shop/storage\" ]; then\n    chown -R dev:www-data \"/home/dev/shop/storage\"\n"));
    assert!(script.contains("mkdir -p \"/home/dev/shop/storage/framework/sessions\"\n"));
    assert!(script.contains("mkdir -p \"/home/dev/shop/bootstrap/cache\"\n"));
    assert!(script.ends_with("\necho \"Permissions fixed successfully\"\n"));
    let other = script_for_directories("www-data", "s", "c");
    assert!(other.contains("if [ -d \"c\" ]; then\n    chown -R www-data:www-data \"c\"\n    chmod -R 775 \"c\"\nfi\n"));
    assert!(other.contains("    find \"s\" -type d -exec chmod 775 {} \\;\n    find \"s\" -type f -exec chmod 664 {} \\;\n"));
}

#[test]
fn permissions_refusals() {
    assert_eq!(fix_laravel_permissions("/nowhere", false, false, Some("dev")), Err(Error::PathMissing));
    assert_eq!(fix_laravel_permissions("/nowhere", false, true, Some("dev")), Err(Error::PathMissing));
    assert_eq!(fix_laravel_permissions("/home/dev/blog", true, false, None), Err(Error::NotLaravelProject));
    assert_eq!(fix_laravel_permissions_internal("/home/dev/blog", true, false, None), Err(Error::NotLaravelProject));
}
