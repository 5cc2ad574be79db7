//! The people that start-up creates: each carries the `Person` marker and a
//! `Name` record.

use vstd::prelude::*;
use vstd::string::*;

verus! {

/// Marks an entity as a person; it carries no data.
#[derive(Clone, Copy, Debug)]
pub struct Person;

/// The name of a person.
pub struct Name(pub String);

/// The names given to the people at start-up, in the order they are made.
pub open spec fn people_names() -> Seq<Seq<char>> {
    seq!["Elaina Poctor"@, "Renzo Hume"@, "Zayna Nieves"@]
}

/// The names held by a list of name records.
pub open spec fn names_of(people: Seq<(Person, Name)>) -> Seq<Seq<char>> {
    people.map_values(|p: (Person, Name)| p.1.0@)
}

/// Creates the three people of the roster, each as a marker and a name.
/// Their names are exactly "Elaina Poctor", "Renzo Hume" and "Zayna Nieves",
/// no two alike.
pub fn add_people() -> (people: Vec<(Person, Name)>)
    ensures
        people@.len() == 3,
        names_of(people@) == people_names(),
        forall|i: int, j: int|
            0 <= i < j < people@.len() ==> people@[i].1.0@ != people@[j].1.0@,
{
    let mut people: Vec<(Person, Name)> = Vec::new();
    people.push((Person, Name(String::from_str("Elaina Poctor"))));
    people.push((Person, Name(String::from_str("Renzo Hume"))));
    people.push((Person, Name(String::from_str("Zayna Nieves"))));
    proof {
        reveal_strlit("Elaina Poctor");
        reveal_strlit("Renzo Hume");
        reveal_strlit("Zayna Nieves");
        assert(names_of(people@) =~= people_names());
        assert(people@[0].1.0@.len() == 13);
        assert(people@[1].1.0@.len() == 10);
        assert(people@[2].1.0@.len() == 12);
    }
    people
}

} // verus!
