//! A payload as it arrives: the members of a JSON object, still untyped.

use vstd::prelude::*;

verus! {

/// The value of one member of a payload.
#[derive(Clone, Debug, PartialEq, Eq)]
pub enum RawValue {
    Null,
    /// A number, as an unsigned and as a signed 64-bit integer where it is
    /// one. A number with a fraction or an exponent, or one beyond both
    /// ranges, is neither.
    Number { unsigned: Option<u64>, signed: Option<i64> },
    Text(String),
    /// A boolean, an array or a nested object: nothing that a field of the
    /// event schema can hold.
    Other,
}

/// The mathematical content of a [`RawValue`].
pub enum RawValueView {
    Null,
    Number { unsigned: Option<u64>, signed: Option<i64> },
    Text(Seq<char>),
    Other,
}

impl View for RawValue {
    type V = RawValueView;

    open spec fn view(&self) -> RawValueView {
        match self {
            RawValue::Null => RawValueView::Null,
            RawValue::Number { unsigned, signed } => RawValueView::Number {
                unsigned: *unsigned,
                signed: *signed,
            },
            RawValue::Text(text) => RawValueView::Text(text@),
            RawValue::Other => RawValueView::Other,
        }
    }
}

/// The members of an object as names with values, in the order in which the
/// document holds them.
pub type Members = Seq<(Seq<char>, RawValueView)>;

/// A parsed payload.
#[derive(Clone, Debug, PartialEq, Eq)]
pub enum Document {
    /// An object, as its members.
    Record(Vec<(String, RawValue)>),
    /// Any other JSON value.
    NotARecord,
}

/// The mathematical content of a [`Document`].
pub enum DocumentView {
    Record(Members),
    NotARecord,
}

/// The mathematical content of a list of members.
pub open spec fn members_view(entries: Seq<(String, RawValue)>) -> Members {
    entries.map_values(|entry: (String, RawValue)| (entry.0@, entry.1@))
}

impl View for Document {
    type V = DocumentView;

    open spec fn view(&self) -> DocumentView {
        match self {
            Document::Record(entries) => DocumentView::Record(members_view(entries@)),
            Document::NotARecord => DocumentView::NotARecord,
        }
    }
}

/// The value that `members` holds under `name`: that of the first member so
/// named, or `None` where there is none.
pub open spec fn member(members: Members, name: Seq<char>) -> Option<RawValueView>
    decreases members.len(),
{
    if members.len() == 0 {
        None
    } else if members[0].0 == name {
        Some(members[0].1)
    } else {
        member(members.drop_first(), name)
    }
}

/// Looking a name up from position `start` on gives what the whole list
/// gives, once no member before `start` has that name.
pub proof fn lemma_member_skip(members: Members, name: Seq<char>, start: int)
    requires
        0 <= start <= members.len(),
        forall|j: int| 0 <= j < start ==> members[j].0 != name,
    ensures
        member(members, name) == member(members.skip(start), name),
    decreases start,
{
    if start == 0 {
        assert(members.skip(0) =~= members);
    } else {
        lemma_member_skip(members, name, start - 1);
        let rest = members.skip(start - 1);
        assert(rest[0] == members[start - 1]);
        assert(rest.drop_first() =~= members.skip(start));
    }
}

/// Finds the value that `entries` holds under `name`.
pub fn find<'a>(entries: &'a Vec<(String, RawValue)>, name: &str) -> (r: Option<&'a RawValue>)
    ensures
        match r {
            Some(value) => member(members_view(entries@), name@) == Some(value@),
            None => member(members_view(entries@), name@) is None,
        },
{
    let wanted: String = name.to_owned();
    let ghost members = members_view(entries@);
    let mut i: usize = 0;
    while i < entries.len()
        invariant
            i <= entries.len(),
            wanted@ == name@,
            members == members_view(entries@),
            forall|j: int| 0 <= j < i ==> members[j].0 != name@,
        decreases entries.len() - i,
    {
        if entries[i].0 == wanted {
            proof {
                lemma_member_skip(members, name@, i as int);
                assert(members.skip(i as int)[0] == members[i as int]);
            }
            return Some(&entries[i].1);
        }
        i += 1;
    }
    proof {
        lemma_member_skip(members, name@, i as int);
        assert(members.skip(i as int).len() == 0);
    }
    None
}

} // verus!
