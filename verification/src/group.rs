//! Group lookup: the owned group record, the decoding of the
//! sentinel-terminated member array, and the conversion of a captured
//! native record.

use vstd::prelude::*;

use crate::error::{classify_errno, os_failure, outcome_view, LookupError};

verus! {

/// Group struct
#[derive(Debug, Clone, PartialEq, Eq)]
pub struct Group {
    /// Group name
    pub name: String,
    /// Group password; `None` when the native field does not decode as
    /// text (an empty decodable field stays `Some("")`).
    pub password: Option<String>,
    /// Group ID
    pub gid: u32,
    /// Members of the group, in native array order
    pub members: Vec<String>,
}

/// The mathematical value of a group record.
#[verifier::ext_equal]
pub struct GroupView {
    pub name: Seq<char>,
    pub password: Option<Seq<char>>,
    pub gid: u32,
    pub members: Seq<Seq<char>>,
}

impl View for Group {
    type V = GroupView;

    open spec fn view(&self) -> GroupView {
        GroupView {
            name: self.name@,
            password: self.password.deep_view(),
            gid: self.gid,
            members: self.members.deep_view(),
        }
    }
}

/// One group record as captured from the native account database. The
/// member array is `None` when the native array reference itself was
/// null; otherwise it holds one entry per slot before the null sentinel,
/// `None` for a slot whose bytes do not decode as text.
#[derive(Debug, Clone, PartialEq, Eq)]
pub struct RawGroup {
    pub name: Option<String>,
    pub passwd: Option<String>,
    pub gid: u32,
    pub members: Option<Vec<Option<String>>>,
}

/// The mathematical value of a captured native group record.
#[verifier::ext_equal]
pub struct RawGroupView {
    pub name: Option<Seq<char>>,
    pub passwd: Option<Seq<char>>,
    pub gid: u32,
    pub members: Option<Seq<Option<Seq<char>>>>,
}

impl View for RawGroup {
    type V = RawGroupView;

    open spec fn view(&self) -> RawGroupView {
        RawGroupView {
            name: self.name.deep_view(),
            passwd: self.passwd.deep_view(),
            gid: self.gid,
            members: self.members.deep_view(),
        }
    }
}

impl DeepView for RawGroup {
    type V = RawGroupView;

    open spec fn deep_view(&self) -> RawGroupView {
        self.view()
    }
}

/// The member names that decode as text, in array order: an entry that
/// is not valid text is skipped, never fatal.
pub open spec fn decoded_members(entries: Seq<Option<Seq<char>>>) -> Seq<Seq<char>>
    decreases entries.len(),
{
    if entries.len() == 0 {
        Seq::empty()
    } else {
        let rest = decoded_members(entries.drop_last());
        match entries.last() {
            Some(m) => rest.push(m),
            None => rest,
        }
    }
}

/// A null member array means "no members", not an error.
pub open spec fn member_view(members: Option<Seq<Option<Seq<char>>>>) -> Seq<Seq<char>> {
    match members {
        None => Seq::empty(),
        Some(entries) => decoded_members(entries),
    }
}

/// What a captured native group record converts to: no record reports
/// the classified OS error, a missing name field is structurally
/// corrupt, and otherwise the record is kept with its member array
/// decoded. The password field passes through as captured: decode
/// failure is `None`, an empty decodable field is kept.
pub open spec fn group_conversion(raw: Option<RawGroupView>, errno: i32) -> Result<
    GroupView,
    LookupError,
> {
    match raw {
        None => Err(os_failure(errno)),
        Some(rec) => match rec.name {
            None => Err(LookupError::InvalidData),
            Some(n) => Ok(
                GroupView {
                    name: n,
                    password: rec.passwd,
                    gid: rec.gid,
                    members: member_view(rec.members),
                },
            ),
        },
    }
}

/// Decodes the captured member array: keeps every entry that decoded as
/// text, in order, and skips the rest.
pub fn decode_members(entries: Vec<Option<String>>) -> (members: Vec<String>)
    ensures
        members.deep_view() == decoded_members(entries.deep_view()),
{
    let mut members: Vec<String> = Vec::new();
    let n = entries.len();
    let mut i: usize = 0;
    while i < n
        invariant
            n == entries.len(),
            i <= n,
            members.deep_view() == decoded_members(entries.deep_view().take(i as int)),
        decreases n - i,
    {
        let ghost prefix = entries.deep_view().take(i as int);
        let ghost old_members = members.deep_view();
        match &entries[i] {
            Some(m) => {
                members.push(m.clone());
            },
            None => {},
        }
        proof {
            assert(entries.deep_view().take(i + 1 as int).drop_last() =~= prefix);
            assert(entries.deep_view().take(i + 1 as int).last() == entries.deep_view()[i as int]);
            if entries@[i as int] is Some {
                assert(members.deep_view() =~= old_members.push(entries.deep_view()[i as int]->0));
            } else {
                assert(members.deep_view() =~= old_members);
            }
        }
        i = i + 1;
    }
    proof {
        assert(entries.deep_view().take(n as int) =~= entries.deep_view());
    }
    members
}

impl Group {
    /// Converts a captured native group record (or its absence, with the
    /// captured OS error code) into an owned group record.
    pub fn convert(raw: Option<RawGroup>, errno: i32) -> (r: Result<Group, LookupError>)
        ensures
            outcome_view(r) == group_conversion(raw.deep_view(), errno),
    {
        let rec = match raw {
            None => {
                return Err(classify_errno(errno));
            },
            Some(rec) => rec,
        };
        let name = match rec.name {
            None => {
                return Err(LookupError::InvalidData);
            },
            Some(n) => n,
        };
        let members = match rec.members {
            None => {
                let empty: Vec<String> = Vec::new();
                proof {
                    assert(empty.deep_view() =~= Seq::<Seq<char>>::empty());
                }
                empty
            },
            Some(entries) => decode_members(entries),
        };
        proof {
            assert(members.deep_view() == member_view(rec.members.deep_view()));
        }
        let g = Group { name, password: rec.passwd, gid: rec.gid, members };
        proof {
            assert(outcome_view(Ok::<Group, LookupError>(g)) =~~= group_conversion(
                Some(rec).deep_view(),
                errno,
            ));
        }
        Ok(g)
    }

    /// Convert members array (`Vector`) to `String`
    pub fn display_members(&self) -> (m: String)
        ensures
            m@ == joined_members(self.members.deep_view()),
    {
        let mut m = String::new();
        let n = self.members.len();
        let mut i: usize = 0;
        while i < n
            invariant
                n == self.members.len(),
                i <= n,
                m@ == joined_members(self.members.deep_view().take(i as int)),
            decreases n - i,
        {
            let ghost prefix = self.members.deep_view().take(i as int);
            m.append(self.members[i].as_str());
            m.append(" ");
            proof {
                reveal_strlit(" ");
                assert(self.members.deep_view().take(i + 1 as int).drop_last() =~= prefix);
                assert(m@ =~= joined_members(self.members.deep_view().take(i + 1 as int)));
            }
            i = i + 1;
        }
        proof {
            assert(self.members.deep_view().take(n as int) =~= self.members.deep_view());
        }
        m
    }
}

/// What the member list renders to: each member name followed by one
/// space, in order.
pub open spec fn joined_members(members: Seq<Seq<char>>) -> Seq<char>
    decreases members.len(),
{
    if members.len() == 0 {
        Seq::empty()
    } else {
        joined_members(members.drop_last()) + members.last() + seq![' ']
    }
}

/// Converting the same captured group record twice yields the same owned
/// field values: two serial lookups that observe the same native record
/// agree.
pub proof fn lemma_group_conversion_deterministic(
    raw: Option<RawGroup>,
    errno: i32,
    r1: Result<Group, LookupError>,
    r2: Result<Group, LookupError>,
)
    requires
        outcome_view(r1) == group_conversion(raw.deep_view(), errno),
        outcome_view(r2) == group_conversion(raw.deep_view(), errno),
    ensures
        outcome_view(r1) == outcome_view(r2),
        r1 is Ok <==> r2 is Ok,
        r1 is Ok ==> r1->Ok_0@ == r2->Ok_0@,
        r1 is Err ==> r1->Err_0 == r2->Err_0,
{
}

} // verus!
