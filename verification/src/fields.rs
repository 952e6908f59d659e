//! An ordered mapping from string names to string values, used both for a
//! request's header set and for its query parameters.
//!
//! Duplicate names are kept, in arrival order, as a multi-value list;
//! lookup returns the value of the first entry with the given name. Each
//! request owns its own list and discards it with the response.

use vstd::prelude::*;

verus! {

/// One name/value pair of a request: a header or a query parameter.
pub struct Field {
    pub name: String,
    pub value: String,
}

impl View for Field {
    type V = (Seq<char>, Seq<char>);

    open spec fn view(&self) -> (Seq<char>, Seq<char>) {
        (self.name@, self.value@)
    }
}

/// The ordered name/value pairs of one request, in arrival order.
pub struct FieldList {
    entries: Vec<Field>,
}

impl View for FieldList {
    type V = Seq<(Seq<char>, Seq<char>)>;

    closed spec fn view(&self) -> Seq<(Seq<char>, Seq<char>)> {
        self.entries@.map_values(|f: Field| f@)
    }
}

/// The value of the first pair in `s` whose name is `name`, if any.
pub open spec fn first_match(s: Seq<(Seq<char>, Seq<char>)>, name: Seq<char>) -> Option<
    Seq<char>,
>
    decreases s.len(),
{
    if s.len() == 0 {
        None
    } else if s[0].0 == name {
        Some(s[0].1)
    } else {
        first_match(s.drop_first(), name)
    }
}

impl FieldList {
    /// An empty list, as a request with no headers or parameters has.
    pub fn new() -> (l: FieldList)
        ensures
            l@ == Seq::<(Seq<char>, Seq<char>)>::empty(),
    {
        FieldList { entries: Vec::new() }
    }

    /// Appends one pair. Duplicates are kept: a repeated name becomes a
    /// further entry of the multi-value list, after the earlier ones.
    pub fn push(&mut self, name: String, value: String)
        ensures
            final(self)@ == old(self)@.push((name@, value@)),
    {
        let ghost before = self@;
        self.entries.push(Field { name, value });
        proof {
            assert(self@ =~= before.push(self@.last()));
        }
    }

    /// How many pairs the request carried.
    pub fn len(&self) -> (n: usize)
        ensures
            n == self@.len(),
    {
        self.entries.len()
    }

    /// The name of the `i`-th pair, in arrival order.
    pub fn name_at(&self, i: usize) -> (n: &String)
        requires
            i < self@.len(),
        ensures
            n@ == self@[i as int].0,
    {
        &self.entries[i].name
    }

    /// The value of the `i`-th pair, in arrival order.
    pub fn value_at(&self, i: usize) -> (v: &String)
        requires
            i < self@.len(),
        ensures
            v@ == self@[i as int].1,
    {
        &self.entries[i].value
    }

    /// Looks a name up: the value of the first pair carrying it, or `None`
    /// when no pair does.
    pub fn find(&self, name: &String) -> (r: Option<&String>)
        ensures
            match r {
                Some(v) => first_match(self@, name@) == Some(v@),
                None => first_match(self@, name@) is None,
            },
    {
        let n = self.entries.len();
        let mut i: usize = 0;
        while i < n
            invariant
                n == self@.len(),
                i <= n,
                forall|j: int| 0 <= j < i ==> self@[j].0 != name@,
            decreases n - i,
        {
            if self.entries[i].name == *name {
                proof {
                    lemma_first_match_found(self@, name@, i as int);
                }
                return Some(&self.entries[i].value);
            }
            i = i + 1;
        }
        proof {
            lemma_first_match_none(self@, name@);
        }
        None
    }
}

proof fn lemma_first_match_found(s: Seq<(Seq<char>, Seq<char>)>, name: Seq<char>, i: int)
    requires
        0 <= i < s.len(),
        forall|j: int| 0 <= j < i ==> s[j].0 != name,
        s[i].0 == name,
    ensures
        first_match(s, name) == Some(s[i].1),
    decreases i,
{
    if i > 0 {
        lemma_first_match_found(s.drop_first(), name, i - 1);
    }
}

proof fn lemma_first_match_none(s: Seq<(Seq<char>, Seq<char>)>, name: Seq<char>)
    requires
        forall|j: int| 0 <= j < s.len() ==> s[j].0 != name,
    ensures
        first_match(s, name) is None,
    decreases s.len(),
{
    if s.len() > 0 {
        lemma_first_match_none(s.drop_first(), name);
    }
}

} // verus!
