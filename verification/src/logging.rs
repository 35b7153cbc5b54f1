//! The log filter: the level asked for, then the rules that quiet the
//! framework's own logs.

use vstd::prelude::*;

verus! {

/// Rules always appended: the framework logs more than the service does.
/// `sqlx` and `sqlx_postgres` are distinct targets, so both are named.
pub const EXTRA_DIRECTIVES: &'static str = "tower_http=debug,sqlx=warn,sqlx_postgres=warn";

/// The filter directives: `RUST_LOG` when set, else `level`, then the extra
/// rules. The more specific targets of the extra rules win over the base.
pub fn filter_directives(rust_log: Option<String>, level: &str) -> (r: String)
    ensures
        r@ == (match rust_log {
            Some(l) => l@,
            None => level@,
        }) + ","@ + EXTRA_DIRECTIVES@,
{
    let base = match rust_log {
        Some(l) => l,
        None => String::from_str(level),
    };
    base.concat(",").concat(EXTRA_DIRECTIVES)
}

} // verus!
