//! The application's configuration, and the theme directories derived
//! from it.

use std::collections::HashMap;

use vstd::prelude::*;

use crate::path::{join_path, joined};
use crate::time::TimeSpan;

verus! {

/// Security settings.
#[derive(Clone, Debug)]
pub struct SecurityConfig {
    /// Whether cookies carry the `Secure` attribute.
    pub cookie_secure: bool,
}

/// Logging settings.
#[derive(Clone, Debug)]
pub struct LoggerConfig {
    /// Level of the records kept.
    pub level: String,
    /// Whether records are also written to files.
    pub enable_file_output: bool,
    /// Directory of the log files.
    pub file_dir: String,
    /// Prefix of the log files' names.
    pub file_prefix: String,
    /// Most log files kept.
    pub max_keep_files: usize,
}

/// A limit on the size of request bodies for one path.
#[derive(Clone, Debug)]
pub struct BodyLimitRule {
    /// Request path.
    pub path: String,
    /// Request method, if the rule holds for one only.
    pub method: Option<String>,
    /// Largest body in bytes.
    pub limit: Option<u64>,
}

/// Limits on the size of request bodies.
#[derive(Clone, Debug)]
pub struct BodyLimitConfig {
    /// Largest body in bytes where no rule applies.
    pub default_limit: Option<u64>,
    /// Rules for given paths.
    pub rules: Vec<BodyLimitRule>,
}

/// Database settings.
#[derive(Clone, Debug)]
pub struct DatabaseConfig {
    /// Connection string.
    pub url: String,
    /// Schema scripts.
    pub migrations: DatabaseMigrationsConfig,
    /// Logging of the connection pool.
    pub log: DatabaseLogConfig,
    /// The connection pool.
    pub pool: DatabasePoolConfig,
    /// SQLite settings.
    pub sqlite: DatabaseSqliteConfig,
}

/// SQLite settings.
#[derive(Clone, Debug)]
pub struct DatabaseSqliteConfig {
    /// Directory of the extensions loaded into each connection.
    pub extensions_dir: String,
}

/// Schema scripts.
#[derive(Clone, Debug)]
pub struct DatabaseMigrationsConfig {
    /// Whether the scripts run at start.
    pub auto_migrate: bool,
    /// The ending of the scripts' file names.
    pub script_extension: String,
    /// Directory of the scripts.
    pub script_dir: String,
}

/// Logging of the connection pool.
#[derive(Clone, Debug)]
pub struct DatabaseLogConfig {
    /// Level of the record of a slow acquisition.
    pub acquire_slow_level: Option<String>,
    /// How long an acquisition takes before it counts as slow.
    pub acquire_slow_threshold: Option<TimeSpan>,
}

/// The connection pool.
#[derive(Clone, Debug)]
pub struct DatabasePoolConfig {
    pub min_connections: u32,
    pub max_connections: u32,
    pub acquire_timeout: TimeSpan,
    pub idle_timeout: TimeSpan,
    pub max_lifetime: TimeSpan,
}

/// Uploaded files.
#[derive(Clone, Debug)]
pub struct ResourceConfig {
    /// Directory of the uploads.
    pub upload_dir: String,
    /// Largest upload in bytes.
    pub upload_file_max_size: u64,
    /// Directory of the trash.
    pub trash_dir: String,
    /// How old an orphaned upload is before it goes to the trash.
    pub trash_threshold: TimeSpan,
    /// Directory of the public files.
    pub public_dir: String,
}

/// The administrator.
#[derive(Clone, Debug)]
pub struct AdminConfig {
    /// Password.
    pub password: String,
    /// The OTPAuth link of the one-time password generator.
    pub totp_url: String,
    /// How long a session lasts.
    pub session_ttl: TimeSpan,
    /// The window over which failed logins are counted.
    pub login_try_window: TimeSpan,
    /// Failed logins allowed in the window.
    pub login_try_max_times: u32,
    /// How long a ban after too many failed logins lasts.
    pub login_ban_ttl: TimeSpan,
}

/// Signed tokens.
#[derive(Clone, Debug)]
pub struct JwtConfig {
    /// Signing secret.
    pub secret: String,
}

/// Where the syntax definitions and the themes of code come from.
#[derive(Clone, Copy, Debug, PartialEq, Eq, Structural)]
pub enum ThemeCodeSource {
    /// The built-in ones.
    Default,
    /// The ones of the page theme.
    Theme,
    /// The user's own.
    Custom,
}

/// Directories of the page theme in use.
#[derive(Clone, Debug)]
pub struct CurrentThemeConfig {
    pub assets_dir: String,
    pub templates_dir: String,
    pub code_themes_dir: String,
    pub code_syntax_dir: String,
}

impl CurrentThemeConfig {
    /// The directories of the theme `name` inside the theme directory `dir`.
    pub fn new(dir: &str, name: &str) -> (r: Self)
        ensures
            r.assets_dir@ == joined(joined(dir@, name@), "assets"@),
            r.templates_dir@ == joined(joined(dir@, name@), "templates"@),
            r.code_themes_dir@ == joined(joined(dir@, name@), "code/themes"@),
            r.code_syntax_dir@ == joined(joined(dir@, name@), "code/syntax"@),
    {
        let base = join_path(dir, name);
        CurrentThemeConfig {
            assets_dir: join_path(base.as_str(), "assets"),
            templates_dir: join_path(base.as_str(), "templates"),
            code_themes_dir: join_path(base.as_str(), "code/themes"),
            code_syntax_dir: join_path(base.as_str(), "code/syntax"),
        }
    }
}

/// The user's own templates and code themes.
#[derive(Clone, Debug)]
pub struct CustomThemeConfig {
    pub templates_dir: String,
    pub code_themes_dir: String,
    pub code_syntax_dir: String,
}

impl CustomThemeConfig {
    /// The directories of the user's own files inside `dir`.
    pub fn new(dir: &str) -> (r: Self)
        ensures
            r.templates_dir@ == joined(dir@, "templates"@),
            r.code_themes_dir@ == joined(dir@, "code/themes"@),
            r.code_syntax_dir@ == joined(dir@, "code/syntax"@),
    {
        CustomThemeConfig {
            templates_dir: join_path(dir, "templates"),
            code_themes_dir: join_path(dir, "code/themes"),
            code_syntax_dir: join_path(dir, "code/syntax"),
        }
    }
}

/// Themes.
#[derive(Clone, Debug)]
pub struct ThemeConfig {
    /// Directory of the page themes.
    pub dir: String,
    /// Directory of the user's own files.
    pub custom_dir: String,
    /// Where the syntax definitions of code come from.
    pub code_syntax_source: ThemeCodeSource,
    /// Where the themes of code come from.
    pub code_themes_source: ThemeCodeSource,
    /// Name of the page theme in use.
    pub current_page_theme: String,
    /// Name of the code theme in use.
    pub current_code_theme: String,
    /// Version of the rendering of articles.
    pub render_version: String,
    /// Further settings.
    pub extensions: HashMap<String, String>,
    /// Directories of the page theme in use, derived from `dir` and
    /// `current_page_theme`.
    pub current: CurrentThemeConfig,
    /// Directories of the user's own files, derived from `custom_dir`.
    pub custom: CustomThemeConfig,
}

impl ThemeConfig {
    /// The theme settings, with the directories of the page theme in use
    /// and of the user's own files derived from them.
    pub fn new(
        dir: String,
        custom_dir: String,
        code_syntax_source: ThemeCodeSource,
        code_themes_source: ThemeCodeSource,
        current_page_theme: String,
        current_code_theme: String,
        render_version: String,
        extensions: HashMap<String, String>,
    ) -> (r: Self)
        ensures
            r.dir == dir,
            r.custom_dir == custom_dir,
            r.code_syntax_source == code_syntax_source,
            r.code_themes_source == code_themes_source,
            r.current_page_theme == current_page_theme,
            r.current_code_theme == current_code_theme,
            r.render_version == render_version,
            r.extensions == extensions,
            r.current.assets_dir@ == joined(joined(dir@, current_page_theme@), "assets"@),
            r.current.templates_dir@ == joined(
                joined(dir@, current_page_theme@),
                "templates"@,
            ),
            r.current.code_themes_dir@ == joined(
                joined(dir@, current_page_theme@),
                "code/themes"@,
            ),
            r.current.code_syntax_dir@ == joined(
                joined(dir@, current_page_theme@),
                "code/syntax"@,
            ),
            r.custom.templates_dir@ == joined(custom_dir@, "templates"@),
            r.custom.code_themes_dir@ == joined(custom_dir@, "code/themes"@),
            r.custom.code_syntax_dir@ == joined(custom_dir@, "code/syntax"@),
    {
        let current = CurrentThemeConfig::new(dir.as_str(), current_page_theme.as_str());
        let custom = CustomThemeConfig::new(custom_dir.as_str());
        ThemeConfig {
            dir,
            custom_dir,
            code_syntax_source,
            code_themes_source,
            current_page_theme,
            current_code_theme,
            render_version,
            extensions,
            current,
            custom,
        }
    }

    pub fn current(&self) -> (r: &CurrentThemeConfig)
        ensures
            *r == self.current,
    {
        &self.current
    }

    pub fn custom(&self) -> (r: &CustomThemeConfig)
        ensures
            *r == self.custom,
    {
        &self.custom
    }
}

/// One scheduled task.
#[derive(Clone, Debug)]
pub struct CronTaskConfig {
    /// Whether the task runs.
    pub enabled: bool,
    /// Its schedule.
    pub schedule: String,
}

/// Scheduled tasks.
#[derive(Clone, Debug)]
pub struct CronConfig {
    /// The tasks by name.
    pub tasks: HashMap<String, CronTaskConfig>,
}

/// Paging of the article list.
#[derive(Clone, Debug)]
pub struct ArticlePaginationConfig {
    /// Largest page number.
    pub max_page_number: u64,
    /// Page size where none is asked for.
    pub default_page_size: u64,
    /// Page sizes that may be asked for.
    pub allowed_page_sizes: Vec<u64>,
    /// Page numbers shown in the navigation bar.
    pub page_nav_max_visible: u64,
}

/// Articles.
#[derive(Clone, Debug)]
pub struct ArticleConfig {
    /// How long a permit to read a protected article lasts.
    pub access_ttl: TimeSpan,
    /// Most results of a full text search.
    pub full_text_search_limit: u64,
    /// Longest title.
    pub title_max_length: usize,
    /// Longest excerpt.
    pub excerpt_max_length: usize,
    /// Largest text in bytes.
    pub content_max_size: usize,
    /// The window over which failed unlocks are counted.
    pub unlock_try_window: TimeSpan,
    /// Failed unlocks allowed in the window.
    pub unlock_try_max_times: u32,
    /// How long a ban after too many failed unlocks lasts.
    pub unlock_ban_ttl: TimeSpan,
    /// The article shown as the about page.
    pub about_article_id: Option<String>,
    /// Paging of the article list.
    pub pagination: ArticlePaginationConfig,
}

/// Visitors.
#[derive(Clone, Debug)]
pub struct VisitorConfig {
    /// How long a visitor's session lasts.
    pub session_ttl: TimeSpan,
    /// The time left under which a session is renewed.
    pub session_keep_threshold: TimeSpan,
}

} // verus!
