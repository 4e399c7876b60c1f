use servermark::sites::{Site, SiteType};
use servermark::webserver::{build_script, build_webserver_script, sync_webserver_configs, webserver_add_site, webserver_remove_site, webserver_update_site, Backend, Operation};

fn site(name: &str, path: &str, domain: &str, php: &str, secured: bool, site_type: SiteType) -> Site {
    Site {
        id: format!("site-{}", name),
        name: name.to_string(),
        path: path.to_string(),
        domain: domain.to_string(),
        php_version: php.to_string(),
        secured,
        site_type,
        proxy_target: None,
        laravel: None,
    }
}

#[test]
fn script_sync_all_caddy() {
    let sites = vec![site("blog", "/home/dev/blog", "blog.test", "8.3", false, SiteType::Static), site("shop", "/home/dev/shop", "shop.test", "8.2", true, SiteType::Laravel), site("api", "/srv/api", "api.test", "8.1", true, SiteType::Symfony)];
    assert_eq!(build_webserver_script("sync_all", &sites, "caddy", None), "#!/bin/bash\nset -e\n\n\n# Ensure directories exist\nmkdir -p /etc/caddy/sites.d\nmkdir -p /etc/nginx/sites-available\nmkdir -p /etc/nginx/sites-enabled\nmkdir -p /etc/servermark/ssl\nchown -R root:root /etc/caddy/sites.d 2>/dev/null || true\nchmod 755 /etc/caddy/sites.d\n\n# Add common Docker hostnames to /etc/hosts (for Laravel projects migrated from Docker)\nfor hostname in mysql mariadb postgres redis memcached mailhog mailpit meilisearch elasticsearch mongo mongodb rabbitmq minio; do\n    grep -q \"127.0.0.1.*\\b${hostname}\\b\" /etc/hosts 2>/dev/null || echo \"127.0.0.1 ${hostname}\" >> /etc/hosts\ndone\n\n# Clear old Caddy configs\nrm -f /etc/caddy/sites.d/*.conf\n\n# Site: blog\ncat > '/etc/caddy/sites.d/blog.conf' << 'SITEEOF'\nhttp://blog.test {\n    root * /home/dev/blog\n\n    php_fastcgi unix//var/run/php/php8.3-fpm.sock\n    file_server\n\n    encode gzip\n}\n\nSITEEOF\n\n# Site: shop\ncat > '/etc/caddy/sites.d/shop.conf' << 'SITEEOF'\nhttps://shop.test {\n    tls internal\n    root * /home/dev/shop/public\n\n    php_fastcgi unix//var/run/php/php8.2-fpm.sock\n    file_server\n\n    encode gzip\n}\n\nSITEEOF\n\n# Site: api\ncat > '/etc/caddy/sites.d/api.conf' << 'SITEEOF'\nhttps://api.test {\n    tls internal\n    root * /srv/api/public\n\n    php_fastcgi unix//var/run/php/php8.1-fpm.sock\n    file_server\n\n    encode gzip\n}\n\nSITEEOF\n\nsystemctl reload caddy || systemctl restart caddy\n");
}

#[test]
fn script_sync_all_nginx() {
    let sites = vec![site("blog", "/home/dev/blog", "blog.test", "8.3", false, SiteType::Static), site("shop", "/home/dev/shop", "shop.test", "8.2", true, SiteType::Laravel), site("api", "/srv/api", "api.test", "8.1", true, SiteType::Symfony)];
    assert_eq!(build_webserver_script("sync_all", &sites, "nginx", None), "#!/bin/bash\nset -e\n\n\n# Ensure directories exist\nmkdir -p /etc/caddy/sites.d\nmkdir -p /etc/nginx/sites-available\nmkdir -p /etc/nginx/sites-enabled\nmkdir -p /etc/servermark/ssl\nchown -R root:root /etc/caddy/sites.d 2>/dev/null || true\nchmod 755 /etc/caddy/sites.d\n\n# Add common Docker hostnames to /etc/hosts (for Laravel projects migrated from Docker)\nfor hostname in mysql mariadb postgres redis memcached mailhog mailpit meilisearch elasticsearch mongo mongodb rabbitmq minio; do\n    grep -q \"127.0.0.1.*\\b${hostname}\\b\" /etc/hosts 2>/dev/null || echo \"127.0.0.1 ${hostname}\" >> /etc/hosts\ndone\n\n# Clear old Nginx configs\nrm -f /etc/nginx/sites-enabled/servermark-*\nrm -f /etc/nginx/sites-available/servermark-*\n\n# Site: blog\ncat > '/etc/nginx/sites-available/servermark-blog' << 'SITEEOF'\nserver {\n    server_name blog.test;\n    listen 80;\n    root /home/dev/blog;\n    index index.php index.html;\n\n    location / {\n        try_files $uri $uri/ /index.php?$query_string;\n    }\n\n    location ~ \\.php$ {\n        fastcgi_pass unix:/var/run/php/php8.3-fpm.sock;\n        fastcgi_param SCRIPT_FILENAME $realpath_root$fastcgi_script_name;\n        include fastcgi_params;\n    }\n\n    location ~ /\\.(?!well-known).* {\n        deny all;\n    }\n}\n\nSITEEOF\nln -sf '/etc/nginx/sites-available/servermark-blog' '/etc/nginx/sites-enabled/servermark-blog'\n\n# Site: shop\ncat > '/etc/nginx/sites-available/servermark-shop' << 'SITEEOF'\nserver {\n    server_name shop.test;\n\n    listen 443 ssl;\n    ssl_certificate /etc/servermark/ssl/shop.test.crt;\n    ssl_certificate_key /etc/servermark/ssl/shop.test.key;\n\n    root /home/dev/shop/public;\n    index index.php index.html;\n\n    location / {\n        try_files $uri $uri/ /index.php?$query_string;\n    }\n\n    location ~ \\.php$ {\n        fastcgi_pass unix:/var/run/php/php8.2-fpm.sock;\n        fastcgi_param SCRIPT_FILENAME $realpath_root$fastcgi_script_name;\n        include fastcgi_params;\n    }\n\n    location ~ /\\.(?!well-known).* {\n        deny all;\n    }\n}\n\nSITEEOF\nln -sf '/etc/nginx/sites-available/servermark-shop' '/etc/nginx/sites-enabled/servermark-shop'\n\nif [ ! -f \"/etc/servermark/ssl/shop.test.crt\" ]; then\n    openssl req -x509 -nodes -days 365 -newkey rsa:2048 \\\n        -keyout \"/etc/servermark/ssl/shop.test.key\" \\\n        -out \"/etc/servermark/ssl/shop.test.crt\" \\\n        -subj \"/CN=shop.test\" 2>/dev/null\nfi\n# Site: api\ncat > '/etc/nginx/sites-available/servermark-api' << 'SITEEOF'\nserver {\n    server_name api.test;\n\n    listen 443 ssl;\n    ssl_certificate /etc/servermark/ssl/api.test.crt;\n    ssl_certificate_key /etc/servermark/ssl/api.test.key;\n\n    root /srv/api/public;\n    index index.php index.html;\n\n    location / {\n        try_files $uri $uri/ /index.php?$query_string;\n    }\n\n    location ~ \\.php$ {\n        fastcgi_pass unix:/var/run/php/php8.1-fpm.sock;\n        fastcgi_param SCRIPT_FILENAME $realpath_root$fastcgi_script_name;\n        include fastcgi_params;\n    }\n\n    location ~ /\\.(?!well-known).* {\n        deny all;\n    }\n}\n\nSITEEOF\nln -sf '/etc/nginx/sites-available/servermark-api' '/etc/nginx/sites-enabled/servermark-api'\n\nif [ ! -f \"/etc/servermark/ssl/api.test.crt\" ]; then\n    openssl req -x509 -nodes -days 365 -newkey rsa:2048 \\\n        -keyout \"/etc/servermark/ssl/api.test.key\" \\\n        -out \"/etc/servermark/ssl/api.test.crt\" \\\n        -subj \"/CN=api.test\" 2>/dev/null\nfi\nnginx -t && systemctl reload nginx || systemctl restart nginx\n");
}

#[test]
fn script_add_site_caddy() {
    let sites = vec![site("blog", "/home/dev/blog", "blog.test", "8.3", false, SiteType::Static), site("shop", "/home/dev/shop", "shop.test", "8.2", true, SiteType::Laravel), site("api", "/srv/api", "api.test", "8.1", true, SiteType::Symfony)];
    assert_eq!(build_webserver_script("add_site", &sites, "caddy", Some("blog")), "#!/bin/bash\nset -e\n\n\n# Ensure directories exist\nmkdir -p /etc/caddy/sites.d\nmkdir -p /etc/nginx/sites-available\nmkdir -p /etc/nginx/sites-enabled\nmkdir -p /etc/servermark/ssl\nchown -R root:root /etc/caddy/sites.d 2>/dev/null || true\nchmod 755 /etc/caddy/sites.d\n\n# Add common Docker hostnames to /etc/hosts (for Laravel projects migrated from Docker)\nfor hostname in mysql mariadb postgres redis memcached mailhog mailpit meilisearch elasticsearch mongo mongodb rabbitmq minio; do\n    grep -q \"127.0.0.1.*\\b${hostname}\\b\" /etc/hosts 2>/dev/null || echo \"127.0.0.1 ${hostname}\" >> /etc/hosts\ndone\n\ncat > '/etc/caddy/sites.d/blog.conf' << 'SITEEOF'\nhttp://blog.test {\n    root * /home/dev/blog\n\n    php_fastcgi unix//var/run/php/php8.3-fpm.sock\n    file_server\n\n    encode gzip\n}\n\nSITEEOF\nsystemctl reload caddy || systemctl restart caddy\ngrep -q 'blog.test' /etc/hosts || echo '127.0.0.1 blog.test' >> /etc/hosts\n");
}

#[test]
fn script_add_site_nginx_secured() {
    let sites = vec![site("blog", "/home/dev/blog", "blog.test", "8.3", false, SiteType::Static), site("shop", "/home/dev/shop", "shop.test", "8.2", true, SiteType::Laravel), site("api", "/srv/api", "api.test", "8.1", true, SiteType::Symfony)];
    assert_eq!(build_webserver_script("add_site", &sites, "nginx", Some("shop")), "#!/bin/bash\nset -e\n\n\n# Ensure directories exist\nmkdir -p /etc/caddy/sites.d\nmkdir -p /etc/nginx/sites-available\nmkdir -p /etc/nginx/sites-enabled\nmkdir -p /etc/servermark/ssl\nchown -R root:root /etc/caddy/sites.d 2>/dev/null || true\nchmod 755 /etc/caddy/sites.d\n\n# Add common Docker hostnames to /etc/hosts (for Laravel projects migrated from Docker)\nfor hostname in mysql mariadb postgres redis memcached mailhog mailpit meilisearch elasticsearch mongo mongodb rabbitmq minio; do\n    grep -q \"127.0.0.1.*\\b${hostname}\\b\" /etc/hosts 2>/dev/null || echo \"127.0.0.1 ${hostname}\" >> /etc/hosts\ndone\n\ncat > '/etc/nginx/sites-available/servermark-shop' << 'SITEEOF'\nserver {\n    server_name shop.test;\n\n    listen 443 ssl;\n    ssl_certificate /etc/servermark/ssl/shop.test.crt;\n    ssl_certificate_key /etc/servermark/ssl/shop.test.key;\n\n    root /home/dev/shop/public;\n    index index.php index.html;\n\n    location / {\n        try_files $uri $uri/ /index.php?$query_string;\n    }\n\n    location ~ \\.php$ {\n        fastcgi_pass unix:/var/run/php/php8.2-fpm.sock;\n        fastcgi_param SCRIPT_FILENAME $realpath_root$fastcgi_script_name;\n        include fastcgi_params;\n    }\n\n    location ~ /\\.(?!well-known).* {\n        deny all;\n    }\n}\n\nSITEEOF\nln -sf '/etc/nginx/sites-available/servermark-shop' '/etc/nginx/sites-enabled/servermark-shop'\nif [ ! -f \"/etc/servermark/ssl/shop.test.crt\" ]; then\n    openssl req -x509 -nodes -days 365 -newkey rsa:2048 \\\n        -keyout \"/etc/servermark/ssl/shop.test.key\" \\\n        -out \"/etc/servermark/ssl/shop.test.crt\" \\\n        -subj \"/CN=shop.test\" 2>/dev/null\nfi\nnginx -t && systemctl reload nginx || systemctl restart nginx\ngrep -q 'shop.test' /etc/hosts || echo '127.0.0.1 shop.test' >> /etc/hosts\n");
}

#[test]
fn script_add_site_nginx_plain() {
    let sites = vec![site("blog", "/home/dev/blog", "blog.test", "8.3", false, SiteType::Static), site("shop", "/home/dev/shop", "shop.test", "8.2", true, SiteType::Laravel), site("api", "/srv/api", "api.test", "8.1", true, SiteType::Symfony)];
    assert_eq!(build_webserver_script("add_site", &sites, "nginx", Some("blog")), "#!/bin/bash\nset -e\n\n\n# Ensure directories exist\nmkdir -p /etc/caddy/sites.d\nmkdir -p /etc/nginx/sites-available\nmkdir -p /etc/nginx/sites-enabled\nmkdir -p /etc/servermark/ssl\nchown -R root:root /etc/caddy/sites.d 2>/dev/null || true\nchmod 755 /etc/caddy/sites.d\n\n# Add common Docker hostnames to /etc/hosts (for Laravel projects migrated from Docker)\nfor hostname in mysql mariadb postgres redis memcached mailhog mailpit meilisearch elasticsearch mongo mongodb rabbitmq minio; do\n    grep -q \"127.0.0.1.*\\b${hostname}\\b\" /etc/hosts 2>/dev/null || echo \"127.0.0.1 ${hostname}\" >> /etc/hosts\ndone\n\ncat > '/etc/nginx/sites-available/servermark-blog' << 'SITEEOF'\nserver {\n    server_name blog.test;\n    listen 80;\n    root /home/dev/blog;\n    index index.php index.html;\n\n    location / {\n        try_files $uri $uri/ /index.php?$query_string;\n    }\n\n    location ~ \\.php$ {\n        fastcgi_pass unix:/var/run/php/php8.3-fpm.sock;\n        fastcgi_param SCRIPT_FILENAME $realpath_root$fastcgi_script_name;\n        include fastcgi_params;\n    }\n\n    location ~ /\\.(?!well-known).* {\n        deny all;\n    }\n}\n\nSITEEOF\nln -sf '/etc/nginx/sites-available/servermark-blog' '/etc/nginx/sites-enabled/servermark-blog'\nnginx -t && systemctl reload nginx || systemctl restart nginx\ngrep -q 'blog.test' /etc/hosts || echo '127.0.0.1 blog.test' >> /etc/hosts\n");
}

#[test]
fn script_update_site_caddy_secured() {
    let sites = vec![site("blog", "/home/dev/blog", "blog.test", "8.3", false, SiteType::Static), site("shop", "/home/dev/shop", "shop.test", "8.2", true, SiteType::Laravel), site("api", "/srv/api", "api.test", "8.1", true, SiteType::Symfony)];
    assert_eq!(build_webserver_script("update_site", &sites, "caddy", Some("shop")), "#!/bin/bash\nset -e\n\n\n# Ensure directories exist\nmkdir -p /etc/caddy/sites.d\nmkdir -p /etc/nginx/sites-available\nmkdir -p /etc/nginx/sites-enabled\nmkdir -p /etc/servermark/ssl\nchown -R root:root /etc/caddy/sites.d 2>/dev/null || true\nchmod 755 /etc/caddy/sites.d\n\n# Add common Docker hostnames to /etc/hosts (for Laravel projects migrated from Docker)\nfor hostname in mysql mariadb postgres redis memcached mailhog mailpit meilisearch elasticsearch mongo mongodb rabbitmq minio; do\n    grep -q \"127.0.0.1.*\\b${hostname}\\b\" /etc/hosts 2>/dev/null || echo \"127.0.0.1 ${hostname}\" >> /etc/hosts\ndone\n\ncat > '/etc/caddy/sites.d/shop.conf' << 'SITEEOF'\nhttps://shop.test {\n    tls internal\n    root * /home/dev/shop/public\n\n    php_fastcgi unix//var/run/php/php8.2-fpm.sock\n    file_server\n\n    encode gzip\n}\n\nSITEEOF\nsystemctl reload caddy || systemctl restart caddy\ngrep -q 'shop.test' /etc/hosts || echo '127.0.0.1 shop.test' >> /etc/hosts\n");
}

#[test]
fn script_update_site_unknown_name() {
    let sites = vec![site("blog", "/home/dev/blog", "blog.test", "8.3", false, SiteType::Static), site("shop", "/home/dev/shop", "shop.test", "8.2", true, SiteType::Laravel), site("api", "/srv/api", "api.test", "8.1", true, SiteType::Symfony)];
    assert_eq!(build_webserver_script("update_site", &sites, "caddy", Some("nobody")), "#!/bin/bash\nset -e\n\n\n# Ensure directories exist\nmkdir -p /etc/caddy/sites.d\nmkdir -p /etc/nginx/sites-available\nmkdir -p /etc/nginx/sites-enabled\nmkdir -p /etc/servermark/ssl\nchown -R root:root /etc/caddy/sites.d 2>/dev/null || true\nchmod 755 /etc/caddy/sites.d\n\n# Add common Docker hostnames to /etc/hosts (for Laravel projects migrated from Docker)\nfor hostname in mysql mariadb postgres redis memcached mailhog mailpit meilisearch elasticsearch mongo mongodb rabbitmq minio; do\n    grep -q \"127.0.0.1.*\\b${hostname}\\b\" /etc/hosts 2>/dev/null || echo \"127.0.0.1 ${hostname}\" >> /etc/hosts\ndone\n\n");
}

#[test]
fn script_add_site_without_name() {
    let sites = vec![site("blog", "/home/dev/blog", "blog.test", "8.3", false, SiteType::Static), site("shop", "/home/dev/shop", "shop.test", "8.2", true, SiteType::Laravel), site("api", "/srv/api", "api.test", "8.1", true, SiteType::Symfony)];
    assert_eq!(build_webserver_script("add_site", &sites, "caddy", None), "#!/bin/bash\nset -e\n\n\n# Ensure directories exist\nmkdir -p /etc/caddy/sites.d\nmkdir -p /etc/nginx/sites-available\nmkdir -p /etc/nginx/sites-enabled\nmkdir -p /etc/servermark/ssl\nchown -R root:root /etc/caddy/sites.d 2>/dev/null || true\nchmod 755 /etc/caddy/sites.d\n\n# Add common Docker hostnames to /etc/hosts (for Laravel projects migrated from Docker)\nfor hostname in mysql mariadb postgres redis memcached mailhog mailpit meilisearch elasticsearch mongo mongodb rabbitmq minio; do\n    grep -q \"127.0.0.1.*\\b${hostname}\\b\" /etc/hosts 2>/dev/null || echo \"127.0.0.1 ${hostname}\" >> /etc/hosts\ndone\n\n");
}

#[test]
fn script_remove_site_caddy() {
    let sites = vec![site("blog", "/home/dev/blog", "blog.test", "8.3", false, SiteType::Static), site("shop", "/home/dev/shop", "shop.test", "8.2", true, SiteType::Laravel), site("api", "/srv/api", "api.test", "8.1", true, SiteType::Symfony)];
    assert_eq!(build_webserver_script("remove_site", &sites, "caddy", Some("shop")), "#!/bin/bash\nset -e\n\n\n# Ensure directories exist\nmkdir -p /etc/caddy/sites.d\nmkdir -p /etc/nginx/sites-available\nmkdir -p /etc/nginx/sites-enabled\nmkdir -p /etc/servermark/ssl\nchown -R root:root /etc/caddy/sites.d 2>/dev/null || true\nchmod 755 /etc/caddy/sites.d\n\n# Add common Docker hostnames to /etc/hosts (for Laravel projects migrated from Docker)\nfor hostname in mysql mariadb postgres redis memcached mailhog mailpit meilisearch elasticsearch mongo mongodb rabbitmq minio; do\n    grep -q \"127.0.0.1.*\\b${hostname}\\b\" /etc/hosts 2>/dev/null || echo \"127.0.0.1 ${hostname}\" >> /etc/hosts\ndone\n\nrm -f '/etc/caddy/sites.d/shop.conf'\nrm -f '/etc/nginx/sites-available/servermark-shop'\nrm -f '/etc/nginx/sites-enabled/servermark-shop'\nsystemctl reload caddy 2>/dev/null || true\nsed -i '/shop.test/d' /etc/hosts\n");
}

#[test]
fn script_remove_site_nginx() {
    let sites = vec![site("blog", "/home/dev/blog", "blog.test", "8.3", false, SiteType::Static), site("shop", "/home/dev/shop", "shop.test", "8.2", true, SiteType::Laravel), site("api", "/srv/api", "api.test", "8.1", true, SiteType::Symfony)];
    assert_eq!(build_webserver_script("remove_site", &sites, "nginx", Some("blog")), "#!/bin/bash\nset -e\n\n\n# Ensure directories exist\nmkdir -p /etc/caddy/sites.d\nmkdir -p /etc/nginx/sites-available\nmkdir -p /etc/nginx/sites-enabled\nmkdir -p /etc/servermark/ssl\nchown -R root:root /etc/caddy/sites.d 2>/dev/null || true\nchmod 755 /etc/caddy/sites.d\n\n# Add common Docker hostnames to /etc/hosts (for Laravel projects migrated from Docker)\nfor hostname in mysql mariadb postgres redis memcached mailhog mailpit meilisearch elasticsearch mongo mongodb rabbitmq minio; do\n    grep -q \"127.0.0.1.*\\b${hostname}\\b\" /etc/hosts 2>/dev/null || echo \"127.0.0.1 ${hostname}\" >> /etc/hosts\ndone\n\nrm -f '/etc/caddy/sites.d/blog.conf'\nrm -f '/etc/nginx/sites-available/servermark-blog'\nrm -f '/etc/nginx/sites-enabled/servermark-blog'\nnginx -t && systemctl reload nginx 2>/dev/null || true\nsed -i '/blog.test/d' /etc/hosts\n");
}

#[test]
fn script_remove_site_unknown_name() {
    let sites = vec![site("blog", "/home/dev/blog", "blog.test", "8.3", false, SiteType::Static), site("shop", "/home/dev/shop", "shop.test", "8.2", true, SiteType::Laravel), site("api", "/srv/api", "api.test", "8.1", true, SiteType::Symfony)];
    assert_eq!(build_webserver_script("remove_site", &sites, "nginx", Some("gone")), "#!/bin/bash\nset -e\n\n\n# Ensure directories exist\nmkdir -p /etc/caddy/sites.d\nmkdir -p /etc/nginx/sites-available\nmkdir -p /etc/nginx/sites-enabled\nmkdir -p /etc/servermark/ssl\nchown -R root:root /etc/caddy/sites.d 2>/dev/null || true\nchmod 755 /etc/caddy/sites.d\n\n# Add common Docker hostnames to /etc/hosts (for Laravel projects migrated from Docker)\nfor hostname in mysql mariadb postgres redis memcached mailhog mailpit meilisearch elasticsearch mongo mongodb rabbitmq minio; do\n    grep -q \"127.0.0.1.*\\b${hostname}\\b\" /etc/hosts 2>/dev/null || echo \"127.0.0.1 ${hostname}\" >> /etc/hosts\ndone\n\nrm -f '/etc/caddy/sites.d/gone.conf'\nrm -f '/etc/nginx/sites-available/servermark-gone'\nrm -f '/etc/nginx/sites-enabled/servermark-gone'\nnginx -t && systemctl reload nginx 2>/dev/null || true\n");
}

#[test]
fn script_remove_site_without_name() {
    let sites = vec![site("blog", "/home/dev/blog", "blog.test", "8.3", false, SiteType::Static), site("shop", "/home/dev/shop", "shop.test", "8.2", true, SiteType::Laravel), site("api", "/srv/api", "api.test", "8.1", true, SiteType::Symfony)];
    assert_eq!(build_webserver_script("remove_site", &sites, "nginx", None), "#!/bin/bash\nset -e\n\n\n# Ensure directories exist\nmkdir -p /etc/caddy/sites.d\nmkdir -p /etc/nginx/sites-available\nmkdir -p /etc/nginx/sites-enabled\nmkdir -p /etc/servermark/ssl\nchown -R root:root /etc/caddy/sites.d 2>/dev/null || true\nchmod 755 /etc/caddy/sites.d\n\n# Add common Docker hostnames to /etc/hosts (for Laravel projects migrated from Docker)\nfor hostname in mysql mariadb postgres redis memcached mailhog mailpit meilisearch elasticsearch mongo mongodb rabbitmq minio; do\n    grep -q \"127.0.0.1.*\\b${hostname}\\b\" /etc/hosts 2>/dev/null || echo \"127.0.0.1 ${hostname}\" >> /etc/hosts\ndone\n\n");
}

#[test]
fn script_switch_server_caddy() {
    let sites = vec![site("blog", "/home/dev/blog", "blog.test", "8.3", false, SiteType::Static), site("shop", "/home/dev/shop", "shop.test", "8.2", true, SiteType::Laravel), site("api", "/srv/api", "api.test", "8.1", true, SiteType::Symfony)];
    assert_eq!(build_webserver_script("switch_server", &sites, "caddy", None), "#!/bin/bash\nset -e\n\n\n# Ensure directories exist\nmkdir -p /etc/caddy/sites.d\nmkdir -p /etc/nginx/sites-available\nmkdir -p /etc/nginx/sites-enabled\nmkdir -p /etc/servermark/ssl\nchown -R root:root /etc/caddy/sites.d 2>/dev/null || true\nchmod 755 /etc/caddy/sites.d\n\n# Add common Docker hostnames to /etc/hosts (for Laravel projects migrated from Docker)\nfor hostname in mysql mariadb postgres redis memcached mailhog mailpit meilisearch elasticsearch mongo mongodb rabbitmq minio; do\n    grep -q \"127.0.0.1.*\\b${hostname}\\b\" /etc/hosts 2>/dev/null || echo \"127.0.0.1 ${hostname}\" >> /etc/hosts\ndone\n\n\n# Switch to Caddy\nsystemctl stop nginx 2>/dev/null || true\nsystemctl disable nginx 2>/dev/null || true\n\n# Remove the Nginx configs\nrm -f /etc/nginx/sites-enabled/servermark-*\nrm -f /etc/nginx/sites-available/servermark-*\n\n# Regenerate all Caddy configs\nrm -f /etc/caddy/sites.d/*.conf\ncat > '/etc/caddy/sites.d/blog.conf' << 'SITEEOF'\nhttp://blog.test {\n    root * /home/dev/blog\n\n    php_fastcgi unix//var/run/php/php8.3-fpm.sock\n    file_server\n\n    encode gzip\n}\n\nSITEEOF\ncat > '/etc/caddy/sites.d/shop.conf' << 'SITEEOF'\nhttps://shop.test {\n    tls internal\n    root * /home/dev/shop/public\n\n    php_fastcgi unix//var/run/php/php8.2-fpm.sock\n    file_server\n\n    encode gzip\n}\n\nSITEEOF\ncat > '/etc/caddy/sites.d/api.conf' << 'SITEEOF'\nhttps://api.test {\n    tls internal\n    root * /srv/api/public\n\n    php_fastcgi unix//var/run/php/php8.1-fpm.sock\n    file_server\n\n    encode gzip\n}\n\nSITEEOF\n\nsystemctl enable caddy\nsystemctl start caddy\n");
}

#[test]
fn script_switch_server_nginx() {
    let sites = vec![site("blog", "/home/dev/blog", "blog.test", "8.3", false, SiteType::Static), site("shop", "/home/dev/shop", "shop.test", "8.2", true, SiteType::Laravel), site("api", "/srv/api", "api.test", "8.1", true, SiteType::Symfony)];
    assert_eq!(build_webserver_script("switch_server", &sites, "nginx", None), "#!/bin/bash\nset -e\n\n\n# Ensure directories exist\nmkdir -p /etc/caddy/sites.d\nmkdir -p /etc/nginx/sites-available\nmkdir -p /etc/nginx/sites-enabled\nmkdir -p /etc/servermark/ssl\nchown -R root:root /etc/caddy/sites.d 2>/dev/null || true\nchmod 755 /etc/caddy/sites.d\n\n# Add common Docker hostnames to /etc/hosts (for Laravel projects migrated from Docker)\nfor hostname in mysql mariadb postgres redis memcached mailhog mailpit meilisearch elasticsearch mongo mongodb rabbitmq minio; do\n    grep -q \"127.0.0.1.*\\b${hostname}\\b\" /etc/hosts 2>/dev/null || echo \"127.0.0.1 ${hostname}\" >> /etc/hosts\ndone\n\n\n# Switch to Nginx\nsystemctl stop caddy 2>/dev/null || true\nsystemctl disable caddy 2>/dev/null || true\n\n# Remove the Caddy configs\nrm -f /etc/caddy/sites.d/*.conf\n\n# Regenerate all Nginx configs\nrm -f /etc/nginx/sites-enabled/servermark-*\nrm -f /etc/nginx/sites-available/servermark-*\ncat > '/etc/nginx/sites-available/servermark-blog' << 'SITEEOF'\nserver {\n    server_name blog.test;\n    listen 80;\n    root /home/dev/blog;\n    index index.php index.html;\n\n    location / {\n        try_files $uri $uri/ /index.php?$query_string;\n    }\n\n    location ~ \\.php$ {\n        fastcgi_pass unix:/var/run/php/php8.3-fpm.sock;\n        fastcgi_param SCRIPT_FILENAME $realpath_root$fastcgi_script_name;\n        include fastcgi_params;\n    }\n\n    location ~ /\\.(?!well-known).* {\n        deny all;\n    }\n}\n\nSITEEOF\nln -sf '/etc/nginx/sites-available/servermark-blog' '/etc/nginx/sites-enabled/servermark-blog'\ncat > '/etc/nginx/sites-available/servermark-shop' << 'SITEEOF'\nserver {\n    server_name shop.test;\n\n    listen 443 ssl;\n    ssl_certificate /etc/servermark/ssl/shop.test.crt;\n    ssl_certificate_key /etc/servermark/ssl/shop.test.key;\n\n    root /home/dev/shop/public;\n    index index.php index.html;\n\n    location / {\n        try_files $uri $uri/ /index.php?$query_string;\n    }\n\n    location ~ \\.php$ {\n        fastcgi_pass unix:/var/run/php/php8.2-fpm.sock;\n        fastcgi_param SCRIPT_FILENAME $realpath_root$fastcgi_script_name;\n        include fastcgi_params;\n    }\n\n    location ~ /\\.(?!well-known).* {\n        deny all;\n    }\n}\n\nSITEEOF\nln -sf '/etc/nginx/sites-available/servermark-shop' '/etc/nginx/sites-enabled/servermark-shop'\nif [ ! -f \"/etc/servermark/ssl/shop.test.crt\" ]; then\n    openssl req -x509 -nodes -days 365 -newkey rsa:2048 \\\n        -keyout \"/etc/servermark/ssl/shop.test.key\" \\\n        -out \"/etc/servermark/ssl/shop.test.crt\" \\\n        -subj \"/CN=shop.test\" 2>/dev/null\nfi\ncat > '/etc/nginx/sites-available/servermark-api' << 'SITEEOF'\nserver {\n    server_name api.test;\n\n    listen 443 ssl;\n    ssl_certificate /etc/servermark/ssl/api.test.crt;\n    ssl_certificate_key /etc/servermark/ssl/api.test.key;\n\n    root /srv/api/public;\n    index index.php index.html;\n\n    location / {\n        try_files $uri $uri/ /index.php?$query_string;\n    }\n\n    location ~ \\.php$ {\n        fastcgi_pass unix:/var/run/php/php8.1-fpm.sock;\n        fastcgi_param SCRIPT_FILENAME $realpath_root$fastcgi_script_name;\n        include fastcgi_params;\n    }\n\n    location ~ /\\.(?!well-known).* {\n        deny all;\n    }\n}\n\nSITEEOF\nln -sf '/etc/nginx/sites-available/servermark-api' '/etc/nginx/sites-enabled/servermark-api'\nif [ ! -f \"/etc/servermark/ssl/api.test.crt\" ]; then\n    openssl req -x509 -nodes -days 365 -newkey rsa:2048 \\\n        -keyout \"/etc/servermark/ssl/api.test.key\" \\\n        -out \"/etc/servermark/ssl/api.test.crt\" \\\n        -subj \"/CN=api.test\" 2>/dev/null\nfi\n\nsystemctl enable nginx\nnginx -t && systemctl start nginx\n");
}

#[test]
fn script_unknown_operation_is_preamble_only() {
    let sites = vec![site("blog", "/home/dev/blog", "blog.test", "8.3", false, SiteType::Static), site("shop", "/home/dev/shop", "shop.test", "8.2", true, SiteType::Laravel), site("api", "/srv/api", "api.test", "8.1", true, SiteType::Symfony)];
    assert_eq!(build_webserver_script("restart_everything", &sites, "caddy", Some("blog")), "#!/bin/bash\nset -e\n\n\n# Ensure directories exist\nmkdir -p /etc/caddy/sites.d\nmkdir -p /etc/nginx/sites-available\nmkdir -p /etc/nginx/sites-enabled\nmkdir -p /etc/servermark/ssl\nchown -R root:root /etc/caddy/sites.d 2>/dev/null || true\nchmod 755 /etc/caddy/sites.d\n\n# Add common Docker hostnames to /etc/hosts (for Laravel projects migrated from Docker)\nfor hostname in mysql mariadb postgres redis memcached mailhog mailpit meilisearch elasticsearch mongo mongodb rabbitmq minio; do\n    grep -q \"127.0.0.1.*\\b${hostname}\\b\" /etc/hosts 2>/dev/null || echo \"127.0.0.1 ${hostname}\" >> /etc/hosts\ndone\n\n");
}

#[test]
fn script_other_selection_means_nginx() {
    let sites = vec![site("blog", "/home/dev/blog", "blog.test", "8.3", false, SiteType::Static), site("shop", "/home/dev/shop", "shop.test", "8.2", true, SiteType::Laravel), site("api", "/srv/api", "api.test", "8.1", true, SiteType::Symfony)];
    assert_eq!(build_webserver_script("sync_all", &sites, "apache", None), "#!/bin/bash\nset -e\n\n\n# Ensure directories exist\nmkdir -p /etc/caddy/sites.d\nmkdir -p /etc/nginx/sites-available\nmkdir -p /etc/nginx/sites-enabled\nmkdir -p /etc/servermark/ssl\nchown -R root:root /etc/caddy/sites.d 2>/dev/null || true\nchmod 755 /etc/caddy/sites.d\n\n# Add common Docker hostnames to /etc/hosts (for Laravel projects migrated from Docker)\nfor hostname in mysql mariadb postgres redis memcached mailhog mailpit meilisearch elasticsearch mongo mongodb rabbitmq minio; do\n    grep -q \"127.0.0.1.*\\b${hostname}\\b\" /etc/hosts 2>/dev/null || echo \"127.0.0.1 ${hostname}\" >> /etc/hosts\ndone\n\n# Clear old Nginx configs\nrm -f /etc/nginx/sites-enabled/servermark-*\nrm -f /etc/nginx/sites-available/servermark-*\n\n# Site: blog\ncat > '/etc/nginx/sites-available/servermark-blog' << 'SITEEOF'\nserver {\n    server_name blog.test;\n    listen 80;\n    root /home/dev/blog;\n    index index.php index.html;\n\n    location / {\n        try_files $uri $uri/ /index.php?$query_string;\n    }\n\n    location ~ \\.php$ {\n        fastcgi_pass unix:/var/run/php/php8.3-fpm.sock;\n        fastcgi_param SCRIPT_FILENAME $realpath_root$fastcgi_script_name;\n        include fastcgi_params;\n    }\n\n    location ~ /\\.(?!well-known).* {\n        deny all;\n    }\n}\n\nSITEEOF\nln -sf '/etc/nginx/sites-available/servermark-blog' '/etc/nginx/sites-enabled/servermark-blog'\n\n# Site: shop\ncat > '/etc/nginx/sites-available/servermark-shop' << 'SITEEOF'\nserver {\n    server_name shop.test;\n\n    listen 443 ssl;\n    ssl_certificate /etc/servermark/ssl/shop.test.crt;\n    ssl_certificate_key /etc/servermark/ssl/shop.test.key;\n\n    root /home/dev/shop/public;\n    index index.php index.html;\n\n    location / {\n        try_files $uri $uri/ /index.php?$query_string;\n    }\n\n    location ~ \\.php$ {\n        fastcgi_pass unix:/var/run/php/php8.2-fpm.sock;\n        fastcgi_param SCRIPT_FILENAME $realpath_root$fastcgi_script_name;\n        include fastcgi_params;\n    }\n\n    location ~ /\\.(?!well-known).* {\n        deny all;\n    }\n}\n\nSITEEOF\nln -sf '/etc/nginx/sites-available/servermark-shop' '/etc/nginx/sites-enabled/servermark-shop'\n\nif [ ! -f \"/etc/servermark/ssl/shop.test.crt\" ]; then\n    openssl req -x509 -nodes -days 365 -newkey rsa:2048 \\\n        -keyout \"/etc/servermark/ssl/shop.test.key\" \\\n        -out \"/etc/servermark/ssl/shop.test.crt\" \\\n        -subj \"/CN=shop.test\" 2>/dev/null\nfi\n# Site: api\ncat > '/etc/nginx/sites-available/servermark-api' << 'SITEEOF'\nserver {\n    server_name api.test;\n\n    listen 443 ssl;\n    ssl_certificate /etc/servermark/ssl/api.test.crt;\n    ssl_certificate_key /etc/servermark/ssl/api.test.key;\n\n    root /srv/api/public;\n    index index.php index.html;\n\n    location / {\n        try_files $uri $uri/ /index.php?$query_string;\n    }\n\n    location ~ \\.php$ {\n        fastcgi_pass unix:/var/run/php/php8.1-fpm.sock;\n        fastcgi_param SCRIPT_FILENAME $realpath_root$fastcgi_script_name;\n        include fastcgi_params;\n    }\n\n    location ~ /\\.(?!well-known).* {\n        deny all;\n    }\n}\n\nSITEEOF\nln -sf '/etc/nginx/sites-available/servermark-api' '/etc/nginx/sites-enabled/servermark-api'\n\nif [ ! -f \"/etc/servermark/ssl/api.test.crt\" ]; then\n    openssl req -x509 -nodes -days 365 -newkey rsa:2048 \\\n        -keyout \"/etc/servermark/ssl/api.test.key\" \\\n        -out \"/etc/servermark/ssl/api.test.crt\" \\\n        -subj \"/CN=api.test\" 2>/dev/null\nfi\nnginx -t && systemctl reload nginx || systemctl restart nginx\n");
}

#[test]
fn script_empty_registry_sync() {
    let sites: Vec<Site> = Vec::new();
    assert_eq!(build_webserver_script("sync_all", &sites, "caddy", None), "#!/bin/bash\nset -e\n\n\n# Ensure directories exist\nmkdir -p /etc/caddy/sites.d\nmkdir -p /etc/nginx/sites-available\nmkdir -p /etc/nginx/sites-enabled\nmkdir -p /etc/servermark/ssl\nchown -R root:root /etc/caddy/sites.d 2>/dev/null || true\nchmod 755 /etc/caddy/sites.d\n\n# Add common Docker hostnames to /etc/hosts (for Laravel projects migrated from Docker)\nfor hostname in mysql mariadb postgres redis memcached mailhog mailpit meilisearch elasticsearch mongo mongodb rabbitmq minio; do\n    grep -q \"127.0.0.1.*\\b${hostname}\\b\" /etc/hosts 2>/dev/null || echo \"127.0.0.1 ${hostname}\" >> /etc/hosts\ndone\n\n# Clear old Caddy configs\nrm -f /etc/caddy/sites.d/*.conf\n\nsystemctl reload caddy || systemctl restart caddy\n");
    assert_eq!(build_webserver_script("switch_server", &sites, "nginx", None), "#!/bin/bash\nset -e\n\n\n# Ensure directories exist\nmkdir -p /etc/caddy/sites.d\nmkdir -p /etc/nginx/sites-available\nmkdir -p /etc/nginx/sites-enabled\nmkdir -p /etc/servermark/ssl\nchown -R root:root /etc/caddy/sites.d 2>/dev/null || true\nchmod 755 /etc/caddy/sites.d\n\n# Add common Docker hostnames to /etc/hosts (for Laravel projects migrated from Docker)\nfor hostname in mysql mariadb postgres redis memcached mailhog mailpit meilisearch elasticsearch mongo mongodb rabbitmq minio; do\n    grep -q \"127.0.0.1.*\\b${hostname}\\b\" /etc/hosts 2>/dev/null || echo \"127.0.0.1 ${hostname}\" >> /etc/hosts\ndone\n\n\n# Switch to Nginx\nsystemctl stop caddy 2>/dev/null || true\nsystemctl disable caddy 2>/dev/null || true\n\n# Remove the Caddy configs\nrm -f /etc/caddy/sites.d/*.conf\n\n# Regenerate all Nginx configs\nrm -f /etc/nginx/sites-enabled/servermark-*\nrm -f /etc/nginx/sites-available/servermark-*\n\nsystemctl enable nginx\nnginx -t && systemctl start nginx\n");
}

#[test]
fn typed_builder_agrees_with_tagged_builder() {
    let sites = vec![site("blog", "/home/dev/blog", "blog.test", "8.3", false, SiteType::Static), site("shop", "/home/dev/shop", "shop.test", "8.2", true, SiteType::Laravel), site("api", "/srv/api", "api.test", "8.1", true, SiteType::Symfony)];
    assert_eq!(
        build_script(Some(Operation::SyncAll), &sites, Backend::Nginx, None),
        build_webserver_script("sync_all", &sites, "nginx", None)
    );
    assert_eq!(
        build_script(Some(Operation::RemoveSite), &sites, Backend::Caddy, Some("api")),
        build_webserver_script("remove_site", &sites, "caddy", Some("api"))
    );
    assert_eq!(
        build_script(None, &sites, Backend::Caddy, None),
        build_webserver_script("", &sites, "caddy", None)
    );
}

#[test]
fn named_operations_are_the_tagged_scripts() {
    let sites = vec![site("blog", "/home/dev/blog", "blog.test", "8.3", false, SiteType::Static), site("shop", "/home/dev/shop", "shop.test", "8.2", true, SiteType::Laravel), site("api", "/srv/api", "api.test", "8.1", true, SiteType::Symfony)];
    assert_eq!(sync_webserver_configs(&sites, "caddy"), build_webserver_script("sync_all", &sites, "caddy", None));
    assert_eq!(webserver_add_site(&sites, "nginx", "shop"), build_webserver_script("add_site", &sites, "nginx", Some("shop")));
    assert_eq!(webserver_update_site(&sites, "caddy", "api"), build_webserver_script("update_site", &sites, "caddy", Some("api")));
    assert_eq!(webserver_remove_site(&sites, "caddy", "blog"), build_webserver_script("remove_site", &sites, "caddy", Some("blog")));
}

#[test]
fn sync_all_twice_gives_the_same_bytes() {
    let sites = vec![site("blog", "/home/dev/blog", "blog.test", "8.3", false, SiteType::Static), site("shop", "/home/dev/shop", "shop.test", "8.2", true, SiteType::Laravel), site("api", "/srv/api", "api.test", "8.1", true, SiteType::Symfony)];
    let first = sync_webserver_configs(&sites, "nginx");
    let second = sync_webserver_configs(&sites, "nginx");
    assert_eq!(first.as_bytes(), second.as_bytes());
}

#[test]
fn first_site_of_a_name_is_the_one_published() {
    let mut sites = vec![site("blog", "/home/dev/blog", "blog.test", "8.3", false, SiteType::Static), site("shop", "/home/dev/shop", "shop.test", "8.2", true, SiteType::Laravel), site("api", "/srv/api", "api.test", "8.1", true, SiteType::Symfony)];
    let mut twin = site("blog", "/elsewhere", "twin.test", "8.0", false, SiteType::Static);
    twin.id = "site-twin".to_string();
    sites.push(twin);
    let script = build_webserver_script("add_site", &sites, "caddy", Some("blog"));
    assert!(script.contains("http://blog.test {"));
    assert!(!script.contains("twin.test"));
}

#[test]
fn removal_script_cleans_both_backends() {
    let sites = vec![site("blog", "/home/dev/blog", "blog.test", "8.3", false, SiteType::Static), site("shop", "/home/dev/shop", "shop.test", "8.2", true, SiteType::Laravel), site("api", "/srv/api", "api.test", "8.1", true, SiteType::Symfony)];
    for active in ["caddy", "nginx"] {
        let script = webserver_remove_site(&sites, active, "shop");
        assert!(script.contains("rm -f '/etc/caddy/sites.d/shop.conf'\n"));
        assert!(script.contains("rm -f '/etc/nginx/sites-available/servermark-shop'\n"));
        assert!(script.contains("rm -f '/etc/nginx/sites-enabled/servermark-shop'\n"));
        assert!(script.contains("sed -i '/shop.test/d' /etc/hosts\n"));
    }
}

#[test]
fn preamble_lists_the_container_hosts() {
    let hosts = servermark::webserver::container_hostnames();
    assert_eq!(
        hosts,
        vec![
            "mysql", "mariadb", "postgres", "redis", "memcached", "mailhog", "mailpit", "meilisearch",
            "elasticsearch", "mongo", "mongodb", "rabbitmq", "minio"
        ]
    );
    let preamble = servermark::webserver::preamble();
    assert!(preamble.contains(&format!("for hostname in {}; do\n", hosts.join(" "))));
    let sites: Vec<Site> = Vec::new();
    assert_eq!(
        build_webserver_script("nothing", &sites, "caddy", None),
        format!("#!/bin/bash\nset -e\n\n{}", preamble)
    );
}

#[test]
fn a_switch_deletes_the_fragments_of_the_backend_that_is_left() {
    let sites = vec![site("shop", "/srv/shop", "shop.test", "8.3", false, SiteType::Laravel)];
    let to_nginx = build_script(Some(Operation::SwitchServer), &sites, Backend::Nginx, None);
    let gone = to_nginx.find("rm -f /etc/caddy/sites.d/*.conf\n").expect("the Caddy fragments go");
    let written = to_nginx.find("cat > '/etc/nginx/sites-available/servermark-shop'").expect("written");
    assert!(gone < written);
    assert!(to_nginx.contains("systemctl stop caddy 2>/dev/null || true\n"));
    let to_caddy = build_script(Some(Operation::SwitchServer), &sites, Backend::Caddy, None);
    let first = to_caddy.find("rm -f /etc/nginx/sites-enabled/servermark-*\n").expect("enabled go");
    let second = to_caddy.find("rm -f /etc/nginx/sites-available/servermark-*\n").expect("available go");
    let written = to_caddy.find("cat > '/etc/caddy/sites.d/shop.conf'").expect("written");
    assert!(first < second && second < written);
    let none: Vec<Site> = Vec::new();
    let empty = build_script(Some(Operation::SwitchServer), &none, Backend::Caddy, None);
    assert!(empty.contains("rm -f /etc/nginx/sites-enabled/servermark-*\n"));
    assert!(empty.contains("rm -f /etc/caddy/sites.d/*.conf\n"));
}
