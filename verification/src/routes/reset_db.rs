//! Emptying every table of the database (a development aid).

use vstd::prelude::*;

verus! {

/// The statements that empty each named table, in order; unnamed entries are skipped.
pub open spec fn reset_statements_of(tables: Seq<Option<String>>) -> Seq<Seq<char>>
    decreases tables.len(),
{
    if tables.len() == 0 {
        Seq::empty()
    } else {
        let rest = reset_statements_of(tables.drop_last());
        match tables.last() {
            Some(t) => rest.push("DELETE FROM "@ + t@ + " CASCADE;"@),
            None => rest,
        }
    }
}

/// The statements that empty the given tables.
pub fn reset_statements(tables: &Vec<Option<String>>) -> (r: Vec<String>)
    ensures
        r.deep_view() == reset_statements_of(tables@),
        r@.len() == named_count(tables@),
        forall|i: int|
            0 <= i < tables@.len() && #[trigger] tables@[i] is Some ==> r.deep_view()[named_count(
                tables@.take(i),
            ) as int] == delete_statement(tables@[i]->Some_0@),
{
    let mut r: Vec<String> = Vec::new();
    let mut i: usize = 0;
    while i < tables.len()
        invariant
            0 <= i <= tables@.len(),
            r.deep_view() == reset_statements_of(tables@.take(i as int)),
        decreases tables@.len() - i,
    {
        assert(tables@.take(i + 1).drop_last() =~= tables@.take(i as int));
        if let Some(t) = &tables[i] {
            let mut s = String::from_str("DELETE FROM ");
            s.append(t.as_str());
            s.append(" CASCADE;");
            let ghost before = r.deep_view();
            r.push(s);
            assert(r.deep_view() =~= before.push(s@));
        }
        i = i + 1;
    }
    assert(tables@.take(tables@.len() as int) =~= tables@);
    proof {
        lemma_reset_statement_count(tables@);
        assert forall|i: int|
            0 <= i < tables@.len() && #[trigger] tables@[i] is Some implies r.deep_view()[named_count(
                tables@.take(i),
            ) as int] == delete_statement(tables@[i]->Some_0@) by {
            lemma_reset_empties_every_named_table(tables@, i);
        }
    }
    r
}

/// How many of the tables have a name.
pub open spec fn named_count(tables: Seq<Option<String>>) -> nat
    decreases tables.len(),
{
    if tables.len() == 0 {
        0
    } else {
        named_count(tables.drop_last()) + if tables.last() is Some {
            1nat
        } else {
            0nat
        }
    }
}

/// The statement that empties the table named `t`.
pub open spec fn delete_statement(t: Seq<char>) -> Seq<char> {
    "DELETE FROM "@ + t + " CASCADE;"@
}

/// A prefix holds no more named tables than the whole list.
pub proof fn lemma_named_count_prefix(tables: Seq<Option<String>>, j: int)
    requires
        0 <= j <= tables.len(),
    ensures
        named_count(tables.take(j)) <= named_count(tables),
    decreases tables.len(),
{
    if j == tables.len() {
        assert(tables.take(j) =~= tables);
    } else {
        assert(tables.drop_last().take(j) =~= tables.take(j));
        lemma_named_count_prefix(tables.drop_last(), j);
    }
}

/// One statement is made per named table.
pub proof fn lemma_reset_statement_count(tables: Seq<Option<String>>)
    ensures
        reset_statements_of(tables).len() == named_count(tables),
    decreases tables.len(),
{
    if tables.len() > 0 {
        lemma_reset_statement_count(tables.drop_last());
    }
}

/// Every named table is emptied, in the order of the list: the table at
/// position `i`, named `t`, gets the statement `DELETE FROM <t> CASCADE;`,
/// placed after the statements of the named tables before it. With
/// [`lemma_reset_statement_count`], the statements are exactly one per named
/// table, in order.
pub proof fn lemma_reset_empties_every_named_table(tables: Seq<Option<String>>, i: int)
    requires
        0 <= i < tables.len(),
        tables[i] is Some,
    ensures
        named_count(tables.take(i)) < reset_statements_of(tables).len(),
        reset_statements_of(tables)[named_count(tables.take(i)) as int] == delete_statement(
            tables[i]->Some_0@,
        ),
    decreases tables.len(),
{
    let n = tables.len() as int;
    let rest = tables.drop_last();
    lemma_reset_statement_count(rest);
    lemma_reset_statement_count(tables);
    if i == n - 1 {
        assert(tables.take(i) =~= rest);
    } else {
        assert(rest.take(i) =~= tables.take(i));
        lemma_reset_empties_every_named_table(rest, i);
        assert(tables.take(i + 1).drop_last() =~= tables.take(i));
        assert(tables.take(i + 1).last() == tables[i]);
        assert(named_count(tables.take(i + 1)) == named_count(tables.take(i)) + 1);
        assert(rest.take(i + 1) =~= tables.take(i + 1));
        lemma_named_count_prefix(rest, i + 1);
    }
}

} // verus!
