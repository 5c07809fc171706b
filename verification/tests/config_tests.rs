use std::collections::HashMap;

use blog::config::{
    CurrentThemeConfig, CustomThemeConfig, DatabaseConfig, DatabaseLogConfig,
    DatabaseMigrationsConfig, DatabasePoolConfig, DatabaseSqliteConfig, ThemeCodeSource,
    ThemeConfig,
};
use blog::db::{file_name_ends_with, join_schema_scripts, sqlite_extensions, TargetFamily};
use blog::markdown::{code_block_language, code_syntax_dir, code_themes_dir, heading_anchor, version};
use blog::time::TimeSpan;

fn theme(syntax: ThemeCodeSource, themes: ThemeCodeSource) -> ThemeConfig {
    ThemeConfig::new(
        String::from("themes"),
        String::from("custom/"),
        syntax,
        themes,
        String::from("plain"),
        String::from("InspiredGitHub"),
        String::from("v3"),
        HashMap::new(),
    )
}

#[test]
fn current_theme_directories() {
    let c = CurrentThemeConfig::new("themes/", "dark");
    assert_eq!(c.assets_dir, "themes/dark/assets");
    assert_eq!(c.templates_dir, "themes/dark/templates");
    assert_eq!(c.code_themes_dir, "themes/dark/code/themes");
    assert_eq!(c.code_syntax_dir, "themes/dark/code/syntax");
}

#[test]
fn custom_theme_directories() {
    let c = CustomThemeConfig::new("mine");
    assert_eq!(c.templates_dir, "mine/templates");
    assert_eq!(c.code_themes_dir, "mine/code/themes");
    assert_eq!(c.code_syntax_dir, "mine/code/syntax");
}

#[test]
fn theme_config_derives_directories() {
    let t = theme(ThemeCodeSource::Default, ThemeCodeSource::Default);
    assert_eq!(t.current().templates_dir, "themes/plain/templates");
    assert_eq!(t.custom().templates_dir, "custom/templates");
    assert_eq!(version(&t), "v3");
}

#[test]
fn code_sources_choose_directories() {
    let t = theme(ThemeCodeSource::Theme, ThemeCodeSource::Custom);
    assert_eq!(code_syntax_dir(&t), Some("themes/plain/code/syntax"));
    assert_eq!(code_themes_dir(&t), Some("custom/code/themes"));
    let d = theme(ThemeCodeSource::Default, ThemeCodeSource::Default);
    assert_eq!(code_syntax_dir(&d), None);
    assert_eq!(code_themes_dir(&d), None);
    let c = theme(ThemeCodeSource::Custom, ThemeCodeSource::Theme);
    assert_eq!(code_syntax_dir(&c), Some("custom/code/syntax"));
    assert_eq!(code_themes_dir(&c), Some("themes/plain/code/themes"));
}

#[test]
fn code_block_and_heading_markup() {
    assert_eq!(code_block_language(""), "plaintext");
    assert_eq!(code_block_language("rust"), "rust");
    assert_eq!(heading_anchor("intro", "h-"), "<a href=\"#intro\" class=\"anchor\" id=\"h-intro\">");
}

fn database() -> DatabaseConfig {
    DatabaseConfig {
        url: String::from("sqlite://blog.db"),
        migrations: DatabaseMigrationsConfig {
            auto_migrate: true,
            script_extension: String::from(".sql"),
            script_dir: String::from("migrations"),
        },
        log: DatabaseLogConfig { acquire_slow_level: None, acquire_slow_threshold: None },
        pool: DatabasePoolConfig {
            min_connections: 1,
            max_connections: 4,
            acquire_timeout: TimeSpan::from_secs(3),
            idle_timeout: TimeSpan::from_secs(60),
            max_lifetime: TimeSpan::from_secs(600),
        },
        sqlite: DatabaseSqliteConfig { extensions_dir: String::from("ext") },
    }
}

#[test]
fn sqlite_extension_paths() {
    let db = database();
    assert_eq!(sqlite_extensions(&db, TargetFamily::Unix), vec![String::from("ext/libsimple/linux/libsimple")]);
    assert_eq!(sqlite_extensions(&db, TargetFamily::Other), vec![String::from("ext/libsimple/windows/simple")]);
}

#[test]
fn schema_script_names() {
    assert!(file_name_ends_with("migrations/001_init.sql", ".sql"));
    assert!(!file_name_ends_with("migrations/001_init.sql.bak", ".sql"));
    assert!(!file_name_ends_with("migrations.sql/readme", ".sql"));
    assert!(file_name_ends_with("a/b.sql/", ".sql"));
    assert!(!file_name_ends_with("a/..", ".."));
    assert!(file_name_ends_with("a/..", ""));
}

#[test]
fn schema_joined_with_line_breaks() {
    let scripts = vec![String::from("CREATE TABLE a;"), String::from("CREATE TABLE b;")];
    assert_eq!(join_schema_scripts(&scripts), "\nCREATE TABLE a;\nCREATE TABLE b;");
    assert_eq!(join_schema_scripts(&vec![]), "");
}
