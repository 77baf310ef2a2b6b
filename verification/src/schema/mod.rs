//! The schema command: print the JSON schemas of the config and report
//! documents.

pub mod config;
pub mod report;

use vstd::prelude::*;

use vstd::string::StringExecFns;

verus! {

/// The line printed above and below a schema.
pub const BANNER: &'static str = "==================================";

/// What the schema command prints for `schema`: the banner, the schema and
/// the banner again, each on a line of its own.
pub open spec fn framed_spec(schema: Seq<char>) -> Seq<char> {
    BANNER@ + seq!['\n'] + schema + seq!['\n'] + BANNER@ + seq!['\n']
}

/// The text that frames `schema` between two banner lines.
pub fn framed(schema: &str) -> (res: String)
    ensures
        res@ == framed_spec(schema@),
{
    proof {
        reveal_strlit("\n");
    }
    let mut out = BANNER.to_owned();
    out.append("\n");
    out.append(schema);
    out.append("\n");
    out.append(BANNER);
    out.append("\n");
    assert(out@ =~= framed_spec(schema@));
    out
}

} // verus!
