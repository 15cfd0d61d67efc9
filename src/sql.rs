//! Parameterised insert statements and the values bound to them.
use vstd::prelude::*;
use vstd::string::StringExecFns;

verus! {

/// A value bound to one `?` of a statement.
#[derive(Clone, Debug, PartialEq, Eq)]
pub enum SqlValue {
    Integer(i64),
    Text(String),
    /// A single-precision float, kept as its IEEE-754 bit pattern; it is stored
    /// in the database as a real number.
    Real32(u32),
}

/// SQL text together with the values for its `?` placeholders, in order.
#[derive(Clone, Debug)]
pub struct Statement {
    pub sql: String,
    pub values: Vec<SqlValue>,
}

/// `n` question marks separated by commas.
pub open spec fn placeholders(n: nat) -> Seq<char>
    decreases n,
{
    if n == 0 {
        Seq::empty()
    } else if n == 1 {
        seq!['?']
    } else {
        placeholders((n - 1) as nat) + seq![',', '?']
    }
}

/// `INSERT INTO <table>(<columns>) VALUES(?,...)` with one `?` per column.
pub open spec fn insert_sql(table: Seq<char>, columns: Seq<char>, count: nat) -> Seq<char> {
    "INSERT INTO "@ + table + "("@ + columns + ") VALUES("@ + placeholders(count) + ")"@
}

/// Builds the statement that inserts one row of `column_count` values into
/// `table_name`, naming the columns in the order given.
pub fn get_sql_text(table_name: &str, column_names: &str, column_count: usize) -> (r: String)
    ensures
        r@ == insert_sql(table_name@, column_names@, column_count as nat),
{
    let mut marks = String::new();
    let mut i: usize = 0;
    while i < column_count
        invariant
            i <= column_count,
            marks@ == placeholders(i as nat),
        decreases column_count - i,
    {
        proof {
            reveal_strlit("?");
            reveal_strlit(",?");
        }
        if i == 0 {
            marks.append("?");
            assert(marks@ =~= placeholders(1));
        } else {
            marks.append(",?");
            assert(marks@ =~= placeholders((i + 1) as nat));
        }
        i = i + 1;
    }
    let mut s = String::from_str("INSERT INTO ");
    s.append(table_name);
    s.append("(");
    s.append(column_names);
    s.append(") VALUES(");
    s.append(marks.as_str());
    s.append(")");
    s
}

} // verus!
