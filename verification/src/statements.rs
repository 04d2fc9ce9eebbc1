//! The SQL statements that store a user, and the quoting of their values.

use vstd::prelude::*;

verus! {

/// How one character stands inside a quoted SQL value: a single quote is
/// doubled, every other character stands for itself.
pub open spec fn escaped_char(c: char) -> Seq<char> {
    if c == '\'' {
        seq!['\'', '\'']
    } else {
        seq![c]
    }
}

/// How a value stands inside a quoted SQL value: each of its characters
/// escaped, in order.
pub open spec fn escaped(value: Seq<char>) -> Seq<char>
    decreases value.len(),
{
    if value.len() == 0 {
        Seq::empty()
    } else {
        escaped_char(value[0]) + escaped(value.skip(1))
    }
}

/// What SQL reads between the quotes of a quoted value: two single quotes in
/// a row are one, every other character is itself.
pub open spec fn unquoted(text: Seq<char>) -> Seq<char>
    decreases text.len(),
{
    if text.len() == 0 {
        Seq::empty()
    } else if text.len() >= 2 && text[0] == '\'' && text[1] == '\'' {
        seq!['\''] + unquoted(text.skip(2))
    } else {
        seq![text[0]] + unquoted(text.skip(1))
    }
}

/// Whether `text` holds a single quote that stands alone, so that it would end
/// a quoted value early.
pub open spec fn ends_early(text: Seq<char>) -> bool
    decreases text.len(),
{
    if text.len() == 0 {
        false
    } else if text.len() >= 2 && text[0] == '\'' && text[1] == '\'' {
        ends_early(text.skip(2))
    } else {
        text[0] == '\'' || ends_early(text.skip(1))
    }
}

/// A value as SQL writes it: escaped, between single quotes.
pub open spec fn sql_literal(value: Seq<char>) -> Seq<char> {
    "'"@ + escaped(value) + "'"@
}

/// The text of the statement that inserts a user's row.
pub open spec fn user_insert_text(id: Seq<char>, name: Seq<char>, email: Seq<char>) -> Seq<char> {
    "insert into USERS (id, name, email) values ("@ + sql_literal(id) + ", "@ + sql_literal(name)
        + ", "@ + sql_literal(email) + ");"@
}

/// The text of the statement that inserts a user's credential row.
pub open spec fn password_insert_text(
    id: Seq<char>,
    salt: Seq<char>,
    hash: Seq<char>,
) -> Seq<char> {
    "insert into PASSWORDS (userid, salt, hash) values ("@ + sql_literal(id) + ", "@
        + sql_literal(salt) + ", "@ + sql_literal(hash) + ");"@
}

/// Escaping a value that ends in `c` is escaping what comes before, then `c`.
proof fn lemma_escaped_push(value: Seq<char>, c: char)
    ensures
        escaped(value.push(c)) == escaped(value) + escaped_char(c),
    decreases value.len(),
{
    if value.len() == 0 {
        assert(escaped(value.push(c).skip(1)) =~= Seq::<char>::empty());
    } else {
        assert(value.push(c).skip(1) =~= value.skip(1).push(c));
        lemma_escaped_push(value.skip(1), c);
    }
}

/// An escaped value reads back as the value, and no quote in it stands
/// alone: whatever the value holds, the quoted value ends where it should and
/// SQL stores the value itself.
pub proof fn lemma_escaped_reads_back(value: Seq<char>)
    ensures
        unquoted(escaped(value)) == value,
        !ends_early(escaped(value)),
    decreases value.len(),
{
    if value.len() > 0 {
        let text = escaped(value);
        let rest = escaped(value.skip(1));
        lemma_escaped_reads_back(value.skip(1));
        if value[0] == '\'' {
            assert(text.skip(2) =~= rest);
        } else {
            assert(text.skip(1) =~= rest);
        }
    }
}

/// A value without a single quote is escaped as itself.
pub proof fn lemma_escaped_without_quote(value: Seq<char>)
    requires
        forall|i: int| 0 <= i < value.len() ==> value[i] != '\'',
    ensures
        escaped(value) == value,
    decreases value.len(),
{
    if value.len() > 0 {
        lemma_escaped_without_quote(value.skip(1));
    }
}

/// Escapes a value for a quoted SQL value: copies it, with every single quote
/// doubled.
pub fn escape(value: &str) -> (text: String)
    ensures
        text@ == escaped(value@),
{
    let len = value.unicode_len();
    let mut text = String::new();
    let mut start: usize = 0;
    let mut at: usize = 0;
    while at < len
        invariant
            start <= at <= len,
            len == value@.len(),
            text@ + value@.subrange(start as int, at as int) == escaped(value@.take(at as int)),
        decreases len - at,
    {
        let c = value.get_char(at);
        proof {
            assert(value@.take(at + 1) =~= value@.take(at as int).push(c));
            lemma_escaped_push(value@.take(at as int), c);
        }
        if c == '\'' {
            text.append(value.substring_char(start, at));
            text.append("''");
            proof {
                reveal_strlit("''");
            }
            start = at + 1;
        }
        at = at + 1;
    }
    text.append(value.substring_char(start, len));
    proof {
        assert(value@.take(len as int) =~= value@);
    }
    text
}

/// Writes a value as SQL does: escaped, between single quotes.
pub fn quote(value: &str) -> (text: String)
    ensures
        text@ == sql_literal(value@),
{
    let mut text = "'".to_owned();
    let inner = escape(value);
    text.append(inner.as_str());
    text.append("'");
    text
}

/// The two statements that store a user with the id `id` and the credential
/// `salt`, `hash`. Every value is quoted, so that the statements store the
/// values themselves whatever characters they hold.
pub fn user_statements(
    id: &str,
    name: &str,
    email: &str,
    salt: &str,
    hash: &str,
) -> (statements: (String, String))
    ensures
        statements.0@ == user_insert_text(id@, name@, email@),
        statements.1@ == password_insert_text(id@, salt@, hash@),
{
    let quoted_id = quote(id);
    let mut user_insert = "insert into USERS (id, name, email) values (".to_owned();
    user_insert.append(quoted_id.as_str());
    user_insert.append(", ");
    user_insert.append(quote(name).as_str());
    user_insert.append(", ");
    user_insert.append(quote(email).as_str());
    user_insert.append(");");
    let mut password_insert = "insert into PASSWORDS (userid, salt, hash) values (".to_owned();
    password_insert.append(quoted_id.as_str());
    password_insert.append(", ");
    password_insert.append(quote(salt).as_str());
    password_insert.append(", ");
    password_insert.append(quote(hash).as_str());
    password_insert.append(");");
    (user_insert, password_insert)
}

} // verus!
