//! The choices behind the database: the extensions that each connection
//! loads, the schema scripts that are picked and how they are put together.

use vstd::prelude::*;

use crate::config::DatabaseConfig;
use crate::path::{ends_with, has_suffix, join_path, joined};

verus! {

/// The family of the platform that the server runs on.
#[derive(Clone, Copy, Debug, PartialEq, Eq, Structural)]
pub enum TargetFamily {
    Unix,
    Other,
}

/// The path of the `simple` extension inside the extensions directory.
pub open spec fn simple_extension_path(family: TargetFamily) -> Seq<char> {
    match family {
        TargetFamily::Unix => "libsimple/linux/libsimple"@,
        TargetFamily::Other => "libsimple/windows/simple"@,
    }
}

/// The SQLite extensions that each connection loads on a platform of
/// `family`.
pub fn sqlite_extensions(config: &DatabaseConfig, family: TargetFamily) -> (r: Vec<String>)
    ensures
        r@.len() == 1,
        r@[0]@ == joined(config.sqlite.extensions_dir@, simple_extension_path(family)),
{
    let rel = match family {
        TargetFamily::Unix => "libsimple/linux/libsimple",
        TargetFamily::Other => "libsimple/windows/simple",
    };
    let mut v: Vec<String> = Vec::new();
    v.push(join_path(config.sqlite.extensions_dir.as_str(), rel));
    v
}

/// The last component of the path `path`, as `std::path::Path::file_name`
/// reads it.
pub uninterp spec fn path_file_name(path: Seq<char>) -> Option<Seq<char>>;

/// `std::path::Path::file_name`, then `OsStr::to_str`: the result is the
/// named last component of `path`.
#[verifier::external_body]
fn file_name_of(path: &str) -> (r: Option<String>)
    ensures
        r is Some <==> path_file_name(path@) is Some,
        r matches Some(n) ==> path_file_name(path@) == Some(n@),
{
    match std::path::Path::new(path).file_name() {
        Some(name) => match name.to_str() {
            Some(t) => Some(t.to_owned()),
            None => None,
        },
        None => None,
    }
}

/// The file name of `path`, or the empty text where it has none.
pub open spec fn file_name_or_empty(path: Seq<char>) -> Seq<char> {
    match path_file_name(path) {
        Some(n) => n,
        None => Seq::empty(),
    }
}

/// Whether the file name of `path` ends with `extension`; a path without a
/// file name counts as an empty name.
pub fn file_name_ends_with(path: &str, extension: &str) -> (r: bool)
    ensures
        r == has_suffix(file_name_or_empty(path@), extension@),
{
    match file_name_of(path) {
        Some(name) => ends_with(name.as_str(), extension),
        None => {
            let empty = String::new();
            ends_with(empty.as_str(), extension)
        },
    }
}

/// The schema: every script in turn, each after a line break.
pub open spec fn schema_sql(scripts: Seq<Seq<char>>) -> Seq<char>
    decreases scripts.len(),
{
    if scripts.len() == 0 {
        Seq::empty()
    } else {
        schema_sql(scripts.drop_last()) + seq!['\n'] + scripts.last()
    }
}

/// The schema put together from the texts of the scripts, in order.
pub fn join_schema_scripts(scripts: &Vec<String>) -> (r: String)
    ensures
        r@ == schema_sql(scripts@.map_values(|s: String| s@)),
{
    proof {
        reveal_strlit("\n");
    }
    let ghost sv = scripts@.map_values(|s: String| s@);
    let mut sql = String::new();
    let mut i: usize = 0;
    while i < scripts.len()
        invariant
            i <= scripts@.len(),
            sv == scripts@.map_values(|s: String| s@),
            sql@ == schema_sql(sv.subrange(0, i as int)),
            "\n"@ == seq!['\n'],
        decreases scripts.len() - i,
    {
        assert(sv.subrange(0, i + 1).drop_last() =~= sv.subrange(0, i as int));
        sql.append("\n");
        sql.append(scripts[i].as_str());
        i = i + 1;
    }
    assert(sv.subrange(0, scripts@.len() as int) =~= sv);
    sql
}

} // verus!
