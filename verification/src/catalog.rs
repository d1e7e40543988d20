//! Engine-facing projections.
//!
//! The query engine addresses objects of this store through logical
//! paths under a fixed URL scheme, and the calling application asks
//! for a table's schema as a small JSON description.  Both shapes are
//! built here: the registration path for an ingested or raw object,
//! and the JSON listing one `{"label": ..., "type": "property"}`
//! record per column.

use vstd::prelude::*;
use vstd::string::*;
use crate::ingest::ColumnDesc;

verus! {

/// The logical path under which an ingested columnar object is
/// registered with the query engine.
pub fn arrow_table_path(content_key: &str) -> (r: String)
    ensures
        r@ == "opfs:///"@ + content_key@ + ".arrow"@,
{
    let mut path = String::from_str("opfs:///");
    path.append(content_key);
    path.append(".arrow");
    path
}

/// The logical path under which a raw delimited-text object is
/// registered with the query engine.
pub fn csv_table_path(content_key: &str) -> (r: String)
    ensures
        r@ == "opfs:///"@ + content_key@ + ".csv"@,
{
    let mut path = String::from_str("opfs:///");
    path.append(content_key);
    path.append(".csv");
    path
}

/// The JSON record describing one column.
pub open spec fn spec_field_json(name: Seq<char>) -> Seq<char> {
    "{\"label\":\""@ + name + "\", \"type\":\"property\"}"@
}

/// The JSON records of all columns, joined by commas.
pub open spec fn spec_fields_json(names: Seq<Seq<char>>) -> Seq<char>
    decreases names.len(),
{
    if names.len() == 0 {
        Seq::<char>::empty()
    } else if names.len() == 1 {
        spec_field_json(names[0])
    } else {
        spec_fields_json(names.drop_last()) + ","@ + spec_field_json(names.last())
    }
}

/// The JSON description of a whole table schema.
pub open spec fn spec_schema_json(table_name: Seq<char>, names: Seq<Seq<char>>) -> Seq<char> {
    "{\""@ + table_name + "\":["@ + spec_fields_json(names) + "]}"@
}

/// Render a table's column schema as the JSON description served to
/// the calling application: the table name mapped to one
/// `{"label": <column>, "type": "property"}` record per column.
pub fn schema_json(table_name: &str, columns: &Vec<ColumnDesc>) -> (r: String)
    ensures
        r@ == spec_schema_json(table_name@, columns@.map_values(|c: ColumnDesc| c@.name)),
{
    let ghost names = columns@.map_values(|c: ColumnDesc| c@.name);
    let mut out = String::from_str("{\"");
    out.append(table_name);
    out.append("\":[");
    let ghost head = "{\""@ + table_name@ + "\":["@;
    proof {
        assert(out@ =~= head + spec_fields_json(names.take(0)));
    }
    let mut i: usize = 0;
    while i < columns.len()
        invariant
            i <= columns@.len(),
            names == columns@.map_values(|c: ColumnDesc| c@.name),
            head == "{\""@ + table_name@ + "\":["@,
            out@ == head + spec_fields_json(names.take(i as int)),
        decreases columns@.len() - i,
    {
        if i > 0 {
            out.append(",");
        }
        out.append("{\"label\":\"");
        out.append(columns[i].name.as_str());
        out.append("\", \"type\":\"property\"}");
        proof {
            let k = i as int;
            assert(names.take(k + 1).drop_last() =~= names.take(k));
            assert(names.take(k + 1).last() == names[k]);
            assert(out@ =~= head + spec_fields_json(names.take(k + 1)));
        }
        i = i + 1;
    }
    proof {
        assert(names.take(columns@.len() as int) =~= names);
    }
    out.append("]}");
    proof {
        assert(out@ =~= spec_schema_json(table_name@, names));
    }
    out
}

} // verus!
