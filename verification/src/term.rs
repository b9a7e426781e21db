use vstd::prelude::*;

verus! {

/// A dynamic host value as it crosses the boundary in either direction.
///
/// The variants mirror the shapes the host runtime can hand over: signed
/// integers; floats, carried as 64-bit IEEE-754 bit patterns so that this
/// model never computes on them; binaries that decode as UTF-8 text;
/// binaries that do not; booleans; named atoms other than the null sentinel;
/// the null sentinel itself; lists; tuples; and maps restricted to their
/// atom-named entries. `BigNumber` stands for a numeric value that fits
/// neither a signed 64-bit integer nor a 64-bit float; `Other` for any shape
/// outside this model.
#[derive(Debug, PartialEq, Eq)]
pub enum Term {
    Int(i64),
    Float(u64),
    Text(String),
    Binary(Vec<u8>),
    Bool(bool),
    Atom(String),
    Nil,
    List(Vec<Term>),
    Tuple(Vec<Term>),
    Mapping(Vec<(String, Term)>),
    BigNumber,
    Other,
}

/// The mathematical shape of a `Term`: strings as character sequences,
/// binaries as byte sequences, containers as sequences of models.
pub enum TermModel {
    Int(i64),
    Float(u64),
    Text(Seq<char>),
    Binary(Seq<u8>),
    Bool(bool),
    Atom(Seq<char>),
    Nil,
    List(Seq<TermModel>),
    Tuple(Seq<TermModel>),
    Mapping(Seq<(Seq<char>, TermModel)>),
    BigNumber,
    Other,
}

/// The model of a term.
pub open spec fn term_model(t: Term) -> TermModel
    decreases t,
{
    match t {
        Term::Int(i) => TermModel::Int(i),
        Term::Float(bits) => TermModel::Float(bits),
        Term::Text(s) => TermModel::Text(s@),
        Term::Binary(b) => TermModel::Binary(b@),
        Term::Bool(b) => TermModel::Bool(b),
        Term::Atom(s) => TermModel::Atom(s@),
        Term::Nil => TermModel::Nil,
        Term::List(items) => TermModel::List(terms_model(items@)),
        Term::Tuple(items) => TermModel::Tuple(terms_model(items@)),
        Term::Mapping(entries) => TermModel::Mapping(term_entries_model(entries@)),
        Term::BigNumber => TermModel::BigNumber,
        Term::Other => TermModel::Other,
    }
}

/// The models of a sequence of terms, in order.
pub open spec fn terms_model(items: Seq<Term>) -> Seq<TermModel>
    decreases items,
{
    if items.len() == 0 {
        Seq::empty()
    } else {
        terms_model(items.drop_last()).push(term_model(items.last()))
    }
}

/// The models of a map's entries, in entry order.
pub open spec fn term_entries_model(entries: Seq<(String, Term)>) -> Seq<(Seq<char>, TermModel)>
    decreases entries,
{
    if entries.len() == 0 {
        Seq::empty()
    } else {
        term_entries_model(entries.drop_last()).push(
            (entries.last().0@, term_model(entries.last().1)),
        )
    }
}

/// Each position of `terms_model` is the model of the term at that position.
pub proof fn lemma_terms_model(items: Seq<Term>)
    ensures
        terms_model(items).len() == items.len(),
        forall|i: int|
            0 <= i < items.len() ==> #[trigger] terms_model(items)[i] == term_model(items[i]),
    decreases items,
{
    if items.len() > 0 {
        lemma_terms_model(items.drop_last());
    }
}

/// Each position of `term_entries_model` carries the entry's key characters
/// and the model of its value.
pub proof fn lemma_term_entries_model(entries: Seq<(String, Term)>)
    ensures
        term_entries_model(entries).len() == entries.len(),
        forall|i: int|
            0 <= i < entries.len() ==> #[trigger] term_entries_model(entries)[i] == (
            entries[i].0@,
            term_model(entries[i].1),
            ),
    decreases entries,
{
    if entries.len() > 0 {
        lemma_term_entries_model(entries.drop_last());
    }
}

impl View for Term {
    type V = TermModel;

    open spec fn view(&self) -> TermModel {
        term_model(*self)
    }
}

/// Look a key up among map entries the way repeated insertion into a keyed
/// table would resolve it: the last entry with that key wins.
pub open spec fn spec_map_get(entries: Seq<(Seq<char>, TermModel)>, key: Seq<char>) -> Option<
    TermModel,
>
    decreases entries.len(),
{
    if entries.len() == 0 {
        None
    } else if entries.last().0 == key {
        Some(entries.last().1)
    } else {
        spec_map_get(entries.drop_last(), key)
    }
}

/// Find the value of the last map entry named `key`, if any.
pub fn map_get<'a>(entries: &'a Vec<(String, Term)>, key: &String) -> (r: Option<&'a Term>)
    ensures
        match r {
            Some(t) => spec_map_get(term_entries_model(entries@), key@) == Some(t@),
            None => spec_map_get(term_entries_model(entries@), key@) is None,
        },
{
    let ghost whole = term_entries_model(entries@);
    proof {
        lemma_term_entries_model(entries@);
        assert(whole.take(entries@.len() as int) =~= whole);
    }
    let mut i: usize = entries.len();
    while i > 0
        invariant
            i <= entries@.len(),
            whole == term_entries_model(entries@),
            whole.len() == entries@.len(),
            forall|j: int|
                0 <= j < entries@.len() ==> #[trigger] whole[j] == (
                entries@[j].0@,
                term_model(entries@[j].1),
                ),
            spec_map_get(whole, key@) == spec_map_get(whole.take(i as int), key@),
        decreases i,
    {
        i = i - 1;
        let hit = entries[i].0.eq(key);
        proof {
            assert(whole.take(i as int + 1).len() == i as int + 1);
            assert(whole.take(i as int + 1).last() == whole[i as int]);
            assert(whole.take(i as int + 1).drop_last() =~= whole.take(i as int));
            if hit {
                assert(spec_map_get(whole.take(i as int + 1), key@) == Some(whole[i as int].1));
            } else {
                assert(spec_map_get(whole.take(i as int + 1), key@) == spec_map_get(
                    whole.take(i as int),
                    key@,
                ));
            }
        }
        if hit {
            return Some(&entries[i].1);
        }
    }
    proof {
        assert(whole.take(0) =~= Seq::<(Seq<char>, TermModel)>::empty());
    }
    None
}

} // verus!
