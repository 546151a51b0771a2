use vstd::prelude::*;
use vstd::string::StringExecFns;

verus! {

/// An identifier wrapped in double quotes.
pub open spec fn spec_quoted(name: Seq<char>) -> Seq<char> {
    "\""@ + name + "\""@
}

/// A table name, qualified by its schema when one is present: each part is
/// quoted, and the parts are joined by a bare `.` separator.
pub open spec fn spec_table_name(schema: Option<String>, name: Seq<char>) -> Seq<char> {
    match schema {
        Some(s) => spec_quoted(s@) + "."@ + spec_quoted(name),
        None => spec_quoted(name),
    }
}

/// A comma-and-space separated list of quoted identifiers, in order.
pub open spec fn spec_quoted_list(names: Seq<String>) -> Seq<char>
    decreases names.len(),
{
    if names.len() == 0 {
        Seq::empty()
    } else {
        spec_quoted_list(names.drop_last()) + (if names.len() > 1 {
            ", "@
        } else {
            Seq::<char>::empty()
        }) + spec_quoted(names.last()@)
    }
}

/// A qualified table name is the quoted schema, a `.`, and the quoted table
/// name when a schema is present; with no schema it is the quoted table name
/// alone, with no separator.
pub proof fn lemma_table_name_qualification(schema: String, name: Seq<char>)
    ensures
        spec_table_name(Some(schema), name) == spec_quoted(schema@) + "."@ + spec_quoted(name),
        spec_table_name(None, name) == spec_quoted(name),
{
}

/// Taking one more element extends the rendered identifier list by a
/// separator (except before the first element) and the next quoted name.
pub proof fn lemma_quoted_list_take_step(names: Seq<String>, i: int)
    requires
        0 <= i < names.len(),
    ensures
        spec_quoted_list(names.take(i + 1)) == spec_quoted_list(names.take(i)) + (if i > 0 {
            ", "@
        } else {
            Seq::<char>::empty()
        }) + spec_quoted(names[i]@),
{
    assert(names.take(i + 1).drop_last() =~= names.take(i));
    assert(names.take(i + 1).last() == names[i]);
}

/// Append `name` wrapped in double quotes.
pub fn push_quoted(buf: &mut String, name: &str)
    ensures
        final(buf)@ == old(buf)@ + spec_quoted(name@),
{
    buf.append("\"");
    buf.append(name);
    buf.append("\"");
    proof {
        assert(buf@ =~= old(buf)@ + spec_quoted(name@));
    }
}

/// Append the table name, qualified by the schema when one is present.
pub fn push_table_name(buf: &mut String, schema: &Option<String>, name: &str)
    ensures
        final(buf)@ == old(buf)@ + spec_table_name(*schema, name@),
{
    match schema {
        Some(s) => {
            push_quoted(buf, s.as_str());
            buf.append(".");
            push_quoted(buf, name);
            proof {
                assert(buf@ =~= old(buf)@ + spec_table_name(*schema, name@));
            }
        },
        None => {
            push_quoted(buf, name);
        },
    }
}

/// Append every name of `names`, each wrapped in double quotes, separated by
/// `, `.
pub fn push_quoted_list(buf: &mut String, names: &Vec<String>)
    ensures
        final(buf)@ == old(buf)@ + spec_quoted_list(names@),
{
    let ghost prefix: Seq<char> = buf@;
    proof {
        assert(buf@ =~= prefix + spec_quoted_list(names@.take(0)));
    }
    let mut i: usize = 0;
    while i < names.len()
        invariant
            i <= names.len(),
            buf@ == prefix + spec_quoted_list(names@.take(i as int)),
        decreases names.len() - i,
    {
        if i > 0 {
            buf.append(", ");
        }
        let name = &names[i];
        push_quoted(buf, name.as_str());
        proof {
            lemma_quoted_list_take_step(names@, i as int);
            assert(buf@ =~= prefix + spec_quoted_list(names@.take(i as int + 1)));
        }
        i = i + 1;
    }
    proof {
        assert(names@.take(names@.len() as int) =~= names@);
        assert(buf@ =~= old(buf)@ + spec_quoted_list(names@));
    }
}

} // verus!
