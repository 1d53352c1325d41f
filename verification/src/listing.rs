//! The human-readable rendering of the person table that the list-records
//! route embeds in its JSON message, together with lemmas showing that the
//! rendering carries every row's fields verbatim.

use vstd::prelude::*;
use crate::types::{PersonRecord, PersonView};
use crate::text::{append_int, contains_part, int_chars, lemma_part_concat_left,
    lemma_part_concat_right, lemma_part_refl, lemma_part_trans};

verus! {

/// The rendering of one row: `Person { name: "<name>", number: <number> }`.
pub open spec fn person_chars(p: PersonView) -> Seq<char> {
    ("Person { name: \"")@ + p.name + ("\", number: ")@ + int_chars(p.number) + (" }")@
}

/// The comma-joined renderings of the rows, without the brackets.
pub open spec fn persons_inner(ps: Seq<PersonView>) -> Seq<char>
    decreases ps.len(),
{
    if ps.len() == 0 {
        Seq::empty()
    } else if ps.len() == 1 {
        person_chars(ps[0])
    } else {
        persons_inner(ps.drop_last()) + (", ")@ + person_chars(ps.last())
    }
}

/// The rendering of the whole row list: `[` rows `]`.
pub open spec fn persons_list(ps: Seq<PersonView>) -> Seq<char> {
    ("[")@ + persons_inner(ps) + ("]")@
}

/// The message text of the list-records route: a fixed prefix and the
/// rendered row list.
pub open spec fn retrieved_chars(ps: Seq<PersonView>) -> Seq<char> {
    ("Retrieved persons: ")@ + persons_list(ps)
}

/// The views of the rows in a sequence.
pub open spec fn person_views(ps: Seq<PersonRecord>) -> Seq<PersonView> {
    ps.map_values(|p: PersonRecord| p@)
}

/// Every row's rendering stands contiguously inside the rendered list.
proof fn lemma_inner_contains(ps: Seq<PersonView>, i: int)
    requires
        0 <= i < ps.len(),
    ensures
        contains_part(persons_inner(ps), person_chars(ps[i])),
    decreases ps.len(),
{
    lemma_part_refl(person_chars(ps[i]));
    if ps.len() == 1 {
    } else if i == ps.len() - 1 {
        lemma_part_concat_right(
            persons_inner(ps.drop_last()) + (", ")@,
            person_chars(ps.last()),
            person_chars(ps[i]),
        );
    } else {
        lemma_inner_contains(ps.drop_last(), i);
        assert(ps.drop_last()[i] == ps[i]);
        lemma_part_concat_left(
            persons_inner(ps.drop_last()),
            (", ")@,
            person_chars(ps[i]),
        );
        lemma_part_concat_left(
            persons_inner(ps.drop_last()) + (", ")@,
            person_chars(ps.last()),
            person_chars(ps[i]),
        );
    }
}

/// The list-records message carries each row verbatim: the row's whole
/// rendering, its name and its rendered number all occur inside the text.
pub proof fn lemma_message_contains_row(ps: Seq<PersonView>, i: int)
    requires
        0 <= i < ps.len(),
    ensures
        contains_part(retrieved_chars(ps), person_chars(ps[i])),
        contains_part(retrieved_chars(ps), ps[i].name),
        contains_part(retrieved_chars(ps), int_chars(ps[i].number)),
{
    lemma_inner_contains(ps, i);
    lemma_part_concat_right(("[")@, persons_inner(ps), person_chars(ps[i]));
    lemma_part_concat_left(("[")@ + persons_inner(ps), ("]")@, person_chars(ps[i]));
    lemma_part_concat_right(("Retrieved persons: ")@, persons_list(ps), person_chars(ps[i]));

    let p = ps[i];
    lemma_part_refl(p.name);
    lemma_part_concat_right(("Person { name: \"")@, p.name, p.name);
    lemma_part_concat_left(("Person { name: \"")@ + p.name, ("\", number: ")@, p.name);
    lemma_part_concat_left(
        ("Person { name: \"")@ + p.name + ("\", number: ")@,
        int_chars(p.number),
        p.name,
    );
    lemma_part_concat_left(
        ("Person { name: \"")@ + p.name + ("\", number: ")@ + int_chars(p.number),
        (" }")@,
        p.name,
    );
    lemma_part_trans(retrieved_chars(ps), person_chars(p), p.name);

    lemma_part_refl(int_chars(p.number));
    lemma_part_concat_right(
        ("Person { name: \"")@ + p.name + ("\", number: ")@,
        int_chars(p.number),
        int_chars(p.number),
    );
    lemma_part_concat_left(
        ("Person { name: \"")@ + p.name + ("\", number: ")@ + int_chars(p.number),
        (" }")@,
        int_chars(p.number),
    );
    lemma_part_trans(retrieved_chars(ps), person_chars(p), int_chars(p.number));
}

fn append_person(out: &mut String, p: &PersonRecord)
    ensures
        final(out)@ == old(out)@ + person_chars(p@),
{
    out.append("Person { name: \"");
    out.append(p.name.as_str());
    out.append("\", number: ");
    append_int(out, p.number);
    out.append(" }");
    proof {
        assert(out@ =~= old(out)@ + person_chars(p@));
    }
}

proof fn lemma_persons_inner_step(vs: Seq<PersonView>, i: int)
    requires
        0 <= i < vs.len(),
    ensures
        i == 0 ==> persons_inner(vs.subrange(0, 1)) == person_chars(vs[0]),
        i > 0 ==> persons_inner(vs.subrange(0, i + 1)) == persons_inner(vs.subrange(0, i))
            + (", ")@ + person_chars(vs[i]),
{
    let pre = vs.subrange(0, i + 1);
    assert(pre.drop_last() =~= vs.subrange(0, i));
    assert(pre.last() == vs[i]);
}

/// Renders the message text of the list-records route for the given rows.
pub fn persons_message(rows: &Vec<PersonRecord>) -> (r: String)
    ensures
        r@ == retrieved_chars(person_views(rows@)),
{
    let ghost vs = person_views(rows@);
    let mut out = String::new();
    out.append("Retrieved persons: ");
    out.append("[");
    let n = rows.len();
    let mut i: usize = 0;
    proof {
        assert(out@ =~= ("Retrieved persons: ")@ + ("[")@ + persons_inner(vs.subrange(0, 0)));
    }
    while i < n
        invariant
            n == rows@.len(),
            vs == person_views(rows@),
            i <= n,
            out@ == ("Retrieved persons: ")@ + ("[")@ + persons_inner(vs.subrange(0, i as int)),
        decreases n - i,
    {
        if i > 0 {
            out.append(", ");
        }
        append_person(&mut out, &rows[i]);
        proof {
            lemma_persons_inner_step(vs, i as int);
            assert(vs[i as int] == rows@[i as int]@);
            assert(out@ =~= ("Retrieved persons: ")@ + ("[")@
                + persons_inner(vs.subrange(0, i + 1)));
        }
        i = i + 1;
    }
    out.append("]");
    proof {
        assert(vs.subrange(0, n as int) =~= vs);
        assert(out@ =~= retrieved_chars(vs));
    }
    out
}

} // verus!
