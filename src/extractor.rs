//! What the declaration extractor is asked to scrape: one composite header,
//! the host's include directory, and the functions it must leave out.
use vstd::prelude::*;

verus! {

/// The functions that the extractor leaves out because this layer supplies
/// its own meaning for them: the size of a variable-length record, the tree
/// walkers, the non-local jump primitives and the raw allocation primitives.
pub open spec fn denylist() -> Seq<Seq<char>> {
    seq![
        "varsize_any"@,
        "query_tree_walker"@,
        "expression_tree_walker"@,
        "sigsetjmp"@,
        "siglongjmp"@,
        "pg_re_throw"@,
        "palloc"@,
        "palloc0"@,
        "repalloc"@,
        "pfree"@,
    ]
}

/// A request to scrape the declarations of one header.
pub struct PgBindingsGenerator {
    pub header: String,
    pub include_dir: String,
}

impl PgBindingsGenerator {
    pub fn new(header: String, include_dir: String) -> (r: PgBindingsGenerator)
        ensures
            r.header == header,
            r.include_dir == include_dir,
    {
        PgBindingsGenerator { header, include_dir }
    }

    /// The argument that adds the include directory to the search path.
    pub fn include_arg(&self) -> (r: String)
        ensures
            r@ == "-I"@ + self.include_dir@,
    {
        proof {
            reveal_strlit("-I");
        }
        let mut arg = "-I".to_owned();
        arg.append(self.include_dir.as_str());
        arg
    }

    /// The functions to leave out, in order.
    pub fn blocked_functions() -> (r: Vec<String>)
        ensures
            r@.len() == denylist().len(),
            forall|i: int| 0 <= i < r@.len() ==> #[trigger] r@[i]@ == denylist()[i],
    {
        proof {
            reveal_strlit("varsize_any");
            reveal_strlit("query_tree_walker");
            reveal_strlit("expression_tree_walker");
            reveal_strlit("sigsetjmp");
            reveal_strlit("siglongjmp");
            reveal_strlit("pg_re_throw");
            reveal_strlit("palloc");
            reveal_strlit("palloc0");
            reveal_strlit("repalloc");
            reveal_strlit("pfree");
        }
        let mut r: Vec<String> = Vec::new();
        r.push("varsize_any".to_owned());
        r.push("query_tree_walker".to_owned());
        r.push("expression_tree_walker".to_owned());
        r.push("sigsetjmp".to_owned());
        r.push("siglongjmp".to_owned());
        r.push("pg_re_throw".to_owned());
        r.push("palloc".to_owned());
        r.push("palloc0".to_owned());
        r.push("repalloc".to_owned());
        r.push("pfree".to_owned());
        r
    }
}

} // verus!
