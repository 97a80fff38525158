//! Shadow credential lookup: the account status taxonomy, its
//! classification from the decoded password field, and the conversion of
//! a captured native shadow record.

use vstd::prelude::*;

use crate::error::{classify_errno, os_failure, outcome_view, LookupError};

verus! {

/// Account status
#[derive(Debug, Clone, PartialEq, Eq)]
pub enum AccountStatus {
    /// Account is enabled/active; the encrypted password is attached
    Active(String),
    /// Account has no password (native field is exactly "!")
    NoPassword,
    /// A regular user cannot enter the account (native field is exactly "*")
    NoLogin,
    /// The native field is present but does not decode as text
    Unknown,
}

/// The mathematical value of an account status.
#[verifier::ext_equal]
pub enum StatusView {
    Active(Seq<char>),
    NoPassword,
    NoLogin,
    Unknown,
}

impl View for AccountStatus {
    type V = StatusView;

    open spec fn view(&self) -> StatusView {
        match self {
            AccountStatus::Active(p) => StatusView::Active(p@),
            AccountStatus::NoPassword => StatusView::NoPassword,
            AccountStatus::NoLogin => StatusView::NoLogin,
            AccountStatus::Unknown => StatusView::Unknown,
        }
    }
}

/// The status that a decoded password field classifies to: a three-way
/// literal match, with `Unknown` only when the field did not decode as
/// text at all.
pub open spec fn status_of(field: Option<Seq<char>>) -> StatusView {
    match field {
        None => StatusView::Unknown,
        Some(p) => if p == "*"@ {
            StatusView::NoLogin
        } else if p == "!"@ {
            StatusView::NoPassword
        } else {
            StatusView::Active(p)
        },
    }
}

/// Compares two string slices character by character.
fn str_eq(a: &str, b: &str) -> (r: bool)
    ensures
        r == (a@ == b@),
{
    let n = a.unicode_len();
    if n != b.unicode_len() {
        proof {
            assert(a@ != b@);
        }
        return false;
    }
    let mut i: usize = 0;
    while i < n
        invariant
            n == a@.len(),
            n == b@.len(),
            i <= n,
            forall|j: int| 0 <= j < i ==> a@[j] == b@[j],
        decreases n - i,
    {
        if a.get_char(i) != b.get_char(i) {
            return false;
        }
        i = i + 1;
    }
    proof {
        assert(a@ =~= b@);
    }
    true
}

impl AccountStatus {
    /// Classifies the captured password field of a shadow record:
    /// `None` (not decodable as text) is `Unknown`, "*" is `NoLogin`,
    /// "!" is `NoPassword`, and anything else is `Active` with the
    /// field kept verbatim.
    pub fn classify(field: Option<String>) -> (s: AccountStatus)
        ensures
            s@ == status_of(field.deep_view()),
    {
        match field {
            None => AccountStatus::Unknown,
            Some(p) => {
                if str_eq(p.as_str(), "*") {
                    AccountStatus::NoLogin
                } else if str_eq(p.as_str(), "!") {
                    AccountStatus::NoPassword
                } else {
                    AccountStatus::Active(p)
                }
            },
        }
    }

    /// Convert `AccountStatus` to `String`
    pub fn to_string(&self) -> (s: String)
        ensures
            self is Unknown ==> s@ == "Unknown password"@,
            self is Active ==> s@ == self->Active_0@,
            self is NoLogin ==> s@ == "Disabled account"@,
            self is NoPassword ==> s@ == "No password"@,
    {
        match self {
            AccountStatus::Unknown => "Unknown password".to_owned(),
            AccountStatus::Active(p) => p.clone(),
            AccountStatus::NoLogin => "Disabled account".to_owned(),
            AccountStatus::NoPassword => "No password".to_owned(),
        }
    }
}

/// Struct for information about shadow passwords
#[derive(Debug, Clone, PartialEq, Eq)]
pub struct Shadow {
    /// Account name
    pub name: String,
    /// Password, classified into the account status taxonomy
    pub passwd: AccountStatus,
    /// Date of last change, in days since 1970-01-01 00:00:00 +0000 (UTC)
    pub last_chage: i64,
    /// Min number of days between changes
    pub min: i64,
    /// Max number of days between changes
    pub max: i64,
    /// Number of days before password expires to warn user to change it
    pub warn: i64,
    /// Number of days after password expires until account is disabled
    pub inactive: i64,
    /// Date when account expires, in days since 1970-01-01 00:00:00 +0000 (UTC)
    pub expires: i64,
}

/// The mathematical value of a shadow record.
#[verifier::ext_equal]
pub struct ShadowView {
    pub name: Seq<char>,
    pub passwd: StatusView,
    pub last_chage: i64,
    pub min: i64,
    pub max: i64,
    pub warn: i64,
    pub inactive: i64,
    pub expires: i64,
}

impl View for Shadow {
    type V = ShadowView;

    open spec fn view(&self) -> ShadowView {
        ShadowView {
            name: self.name@,
            passwd: self.passwd@,
            last_chage: self.last_chage,
            min: self.min,
            max: self.max,
            warn: self.warn,
            inactive: self.inactive,
            expires: self.expires,
        }
    }
}

/// One shadow record as captured from the native credential store: the
/// two text fields are `Some` when their bytes decode as text, and the
/// day counts come through unchanged, sentinel values included.
#[derive(Debug, Clone, PartialEq, Eq)]
pub struct RawShadow {
    pub name: Option<String>,
    pub passwd: Option<String>,
    pub last_chage: i64,
    pub min: i64,
    pub max: i64,
    pub warn: i64,
    pub inactive: i64,
    pub expires: i64,
}

/// The mathematical value of a captured native shadow record.
#[verifier::ext_equal]
pub struct RawShadowView {
    pub name: Option<Seq<char>>,
    pub passwd: Option<Seq<char>>,
    pub last_chage: i64,
    pub min: i64,
    pub max: i64,
    pub warn: i64,
    pub inactive: i64,
    pub expires: i64,
}

impl View for RawShadow {
    type V = RawShadowView;

    open spec fn view(&self) -> RawShadowView {
        RawShadowView {
            name: self.name.deep_view(),
            passwd: self.passwd.deep_view(),
            last_chage: self.last_chage,
            min: self.min,
            max: self.max,
            warn: self.warn,
            inactive: self.inactive,
            expires: self.expires,
        }
    }
}

impl DeepView for RawShadow {
    type V = RawShadowView;

    open spec fn deep_view(&self) -> RawShadowView {
        self.view()
    }
}

/// What a captured native shadow record converts to: no record reports
/// the classified OS error (a permission code becomes
/// `PermissionDenied`, which callers can tell from `NotFound`), a
/// missing name field is structurally corrupt, and otherwise the
/// password field is classified and the six day counts pass through
/// unchanged.
pub open spec fn shadow_conversion(raw: Option<RawShadowView>, errno: i32) -> Result<
    ShadowView,
    LookupError,
> {
    match raw {
        None => Err(os_failure(errno)),
        Some(rec) => match rec.name {
            None => Err(LookupError::InvalidData),
            Some(n) => Ok(
                ShadowView {
                    name: n,
                    passwd: status_of(rec.passwd),
                    last_chage: rec.last_chage,
                    min: rec.min,
                    max: rec.max,
                    warn: rec.warn,
                    inactive: rec.inactive,
                    expires: rec.expires,
                },
            ),
        },
    }
}

impl Shadow {
    /// Converts a captured native shadow record (or its absence, with
    /// the captured OS error code) into an owned shadow record.
    pub fn convert(raw: Option<RawShadow>, errno: i32) -> (r: Result<Shadow, LookupError>)
        ensures
            outcome_view(r) == shadow_conversion(raw.deep_view(), errno),
    {
        let rec = match raw {
            None => {
                return Err(classify_errno(errno));
            },
            Some(rec) => rec,
        };
        let name = match rec.name {
            None => {
                return Err(LookupError::InvalidData);
            },
            Some(n) => n,
        };
        let passwd = AccountStatus::classify(rec.passwd);
        let sh = Shadow {
            name,
            passwd,
            last_chage: rec.last_chage,
            min: rec.min,
            max: rec.max,
            warn: rec.warn,
            inactive: rec.inactive,
            expires: rec.expires,
        };
        proof {
            assert(outcome_view(Ok::<Shadow, LookupError>(sh)) =~~= shadow_conversion(
                Some(rec).deep_view(),
                errno,
            ));
        }
        Ok(sh)
    }
}

/// Converting the same captured shadow record twice yields the same
/// owned field values: two serial lookups that observe the same native
/// record agree.
pub proof fn lemma_shadow_conversion_deterministic(
    raw: Option<RawShadow>,
    errno: i32,
    r1: Result<Shadow, LookupError>,
    r2: Result<Shadow, LookupError>,
)
    requires
        outcome_view(r1) == shadow_conversion(raw.deep_view(), errno),
        outcome_view(r2) == shadow_conversion(raw.deep_view(), errno),
    ensures
        outcome_view(r1) == outcome_view(r2),
        r1 is Ok <==> r2 is Ok,
        r1 is Ok ==> r1->Ok_0@ == r2->Ok_0@,
        r1 is Err ==> r1->Err_0 == r2->Err_0,
{
}

} // verus!
