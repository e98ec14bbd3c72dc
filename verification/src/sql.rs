use vstd::prelude::*;

verus! {

/// The upsert statement used when a metadata snapshot is written
/// through to the relational cache: insert, or update the row whose
/// merge column conflicts.
pub fn compose_upsert_sql(table_name: &str, merge_column: &str) -> (r: String)
    ensures
        r@ == "INSERT INTO "@ + table_name@ + " *\n            ON CONFLICT("@ + merge_column@
            + ") DO UPDATE SET * "@,
{
    let mut s = String::from_str("INSERT INTO ");
    s.append(table_name);
    s.append(" *\n            ON CONFLICT(");
    s.append(merge_column);
    s.append(") DO UPDATE SET * ");
    proof {
        assert(s@ =~= "INSERT INTO "@ + table_name@ + " *\n            ON CONFLICT("@
            + merge_column@ + ") DO UPDATE SET * "@);
    }
    s
}

} // verus!
