//! User account lookup: the owned user record and the conversion of a
//! captured native record into it.

use vstd::prelude::*;

use crate::error::{classify_errno, os_failure, outcome_view, LookupError};

verus! {

/// User information struct
#[derive(Debug, Clone, PartialEq, Eq)]
pub struct User {
    /// Username
    pub name: String,
    /// Full name of the user
    pub fullname: String,
    /// Home directory
    pub homedir: String,
    /// Path to the shell in use
    pub shell: String,
    /// User password. Can be equal to "x", which means the password is
    /// stored in the shadow credential store.
    pub passwd: Option<String>,
    /// User ID
    pub uid: u32,
    /// Group ID of the user's primary group
    pub gid: u32,
}

/// The mathematical value of a user record.
#[verifier::ext_equal]
pub struct UserView {
    pub name: Seq<char>,
    pub fullname: Seq<char>,
    pub homedir: Seq<char>,
    pub shell: Seq<char>,
    pub passwd: Option<Seq<char>>,
    pub uid: u32,
    pub gid: u32,
}

impl View for User {
    type V = UserView;

    open spec fn view(&self) -> UserView {
        UserView {
            name: self.name@,
            fullname: self.fullname@,
            homedir: self.homedir@,
            shell: self.shell@,
            passwd: self.passwd.deep_view(),
            uid: self.uid,
            gid: self.gid,
        }
    }
}

/// One user record as captured from the native account database: each
/// text field is `Some` when its bytes decode as text and `None` when
/// they do not (or the field reference was null); the numeric
/// identifiers come through unchanged.
#[derive(Debug, Clone, PartialEq, Eq)]
pub struct RawUser {
    pub name: Option<String>,
    pub passwd: Option<String>,
    pub gecos: Option<String>,
    pub dir: Option<String>,
    pub shell: Option<String>,
    pub uid: u32,
    pub gid: u32,
}

/// The mathematical value of a captured native user record.
#[verifier::ext_equal]
pub struct RawUserView {
    pub name: Option<Seq<char>>,
    pub passwd: Option<Seq<char>>,
    pub gecos: Option<Seq<char>>,
    pub dir: Option<Seq<char>>,
    pub shell: Option<Seq<char>>,
    pub uid: u32,
    pub gid: u32,
}

impl View for RawUser {
    type V = RawUserView;

    open spec fn view(&self) -> RawUserView {
        RawUserView {
            name: self.name.deep_view(),
            passwd: self.passwd.deep_view(),
            gecos: self.gecos.deep_view(),
            dir: self.dir.deep_view(),
            shell: self.shell.deep_view(),
            uid: self.uid,
            gid: self.gid,
        }
    }
}

impl DeepView for RawUser {
    type V = RawUserView;

    open spec fn deep_view(&self) -> RawUserView {
        self.view()
    }
}

/// A secondary text field that is absent or fails to decode downgrades
/// to the empty string rather than failing the lookup.
pub open spec fn text_or_empty(field: Option<Seq<char>>) -> Seq<char> {
    match field {
        Some(s) => s,
        None => Seq::empty(),
    }
}

/// The user password field collapses "absent or undecodable" and "empty"
/// into `None`; any other decodable value is kept.
pub open spec fn collapsed_passwd(field: Option<Seq<char>>) -> Option<Seq<char>> {
    match field {
        Some(s) => if s.len() == 0 {
            None
        } else {
            Some(s)
        },
        None => None,
    }
}

/// What a captured native user record converts to: no record at all
/// reports the classified OS error; a record whose name field is missing
/// or empty is structurally corrupt; anything else becomes an owned
/// record with the secondary fields downgraded where they failed to
/// decode.
pub open spec fn user_conversion(raw: Option<RawUserView>, errno: i32) -> Result<
    UserView,
    LookupError,
> {
    match raw {
        None => Err(os_failure(errno)),
        Some(rec) => match rec.name {
            None => Err(LookupError::InvalidData),
            Some(n) => if n.len() == 0 {
                Err(LookupError::InvalidData)
            } else {
                Ok(
                    UserView {
                        name: n,
                        fullname: text_or_empty(rec.gecos),
                        homedir: text_or_empty(rec.dir),
                        shell: text_or_empty(rec.shell),
                        passwd: collapsed_passwd(rec.passwd),
                        uid: rec.uid,
                        gid: rec.gid,
                    },
                )
            },
        },
    }
}

impl User {
    /// A successfully constructed record always carries a non-empty
    /// username.
    pub open spec fn wf(self) -> bool {
        self.name@.len() > 0
    }

    /// Converts a captured native user record (or its absence, with the
    /// captured OS error code) into an owned user record.
    pub fn convert(raw: Option<RawUser>, errno: i32) -> (r: Result<User, LookupError>)
        ensures
            outcome_view(r) == user_conversion(raw.deep_view(), errno),
            r is Ok ==> r->Ok_0.wf(),
    {
        let rec = match raw {
            None => {
                return Err(classify_errno(errno));
            },
            Some(rec) => rec,
        };
        let name = match rec.name {
            None => {
                return Err(LookupError::InvalidData);
            },
            Some(n) => n,
        };
        if name.as_str().is_empty() {
            return Err(LookupError::InvalidData);
        }
        let passwd = match rec.passwd {
            None => None,
            Some(p) => if p.as_str().is_empty() {
                None
            } else {
                Some(p)
            },
        };
        let fullname = match rec.gecos {
            None => String::new(),
            Some(s) => s,
        };
        let homedir = match rec.dir {
            None => String::new(),
            Some(s) => s,
        };
        let shell = match rec.shell {
            None => String::new(),
            Some(s) => s,
        };
        let u = User { name, fullname, homedir, shell, passwd, uid: rec.uid, gid: rec.gid };
        proof {
            assert(outcome_view(Ok::<User, LookupError>(u)) =~~= user_conversion(
                Some(rec).deep_view(),
                errno,
            ));
        }
        Ok(u)
    }
}

/// Converting the same captured record twice yields the same owned field
/// values: the conversion is a function of the captured input alone, so
/// two serial lookups that observe the same native record agree.
pub proof fn lemma_user_conversion_deterministic(
    raw: Option<RawUser>,
    errno: i32,
    r1: Result<User, LookupError>,
    r2: Result<User, LookupError>,
)
    requires
        outcome_view(r1) == user_conversion(raw.deep_view(), errno),
        outcome_view(r2) == user_conversion(raw.deep_view(), errno),
    ensures
        outcome_view(r1) == outcome_view(r2),
        r1 is Ok <==> r2 is Ok,
        r1 is Ok ==> r1->Ok_0@ == r2->Ok_0@,
        r1 is Err ==> r1->Err_0 == r2->Err_0,
{
}

} // verus!
