use vstd::prelude::*;
use vstd::string::StringExecFns;
use crate::schema::{SqliteDatabaseInfo, TableInfoV};

verus! {

/// The one output line of a record: its table name and its declared
/// type. The column's own name is deliberately not part of the line.
pub open spec fn line_of(rec: TableInfoV) -> Seq<char> {
    "Table: "@ + rec.table_name + " Type: "@ + rec.declared_type + "\n"@
}

/// The full textual rendering of a record sequence: the lines of the
/// records, concatenated in order.
pub open spec fn rendering(recs: Seq<TableInfoV>) -> Seq<char>
    decreases recs.len(),
{
    if recs.len() == 0 {
        Seq::empty()
    } else {
        rendering(recs.drop_last()) + line_of(recs.last())
    }
}

/// Render the introspection result as text, one line per column
/// record, in record order.
pub fn render(info: &SqliteDatabaseInfo) -> (r: String)
    ensures
        r@ == rendering(info.tables.deep_view()),
{
    let mut out = String::new();
    let mut i: usize = 0;
    while i < info.tables.len()
        invariant
            i <= info.tables@.len(),
            out@ == rendering(info.tables.deep_view().take(i as int)),
        decreases info.tables@.len() - i,
    {
        let rec = &info.tables[i];
        out.append("Table: ");
        out.append(rec.table_name.as_str());
        out.append(" Type: ");
        out.append(rec.declared_type.as_str());
        out.append("\n");
        proof {
            let rs = info.tables.deep_view();
            assert(rs.take(i as int + 1).drop_last() =~= rs.take(i as int));
            assert(rs.take(i as int + 1).last() == rs[i as int]);
            assert(rendering(rs.take(i as int + 1)) == rendering(rs.take(i as int)) + line_of(
                rs[i as int],
            ));
            assert(out@ =~= rendering(rs.take(i as int)) + line_of(rs[i as int]));
        }
        i += 1;
    }
    proof {
        assert(info.tables.deep_view().take(info.tables@.len() as int) =~= info.tables.deep_view());
    }
    out
}

} // verus!
