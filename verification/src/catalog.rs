//! The catalog of timezone names and the identifiers drawn from it.
//!
//! The catalog is the IANA timezone database as chrono-tz carries it. Its several
//! hundred names are not written out here: they have a name of their own,
//! `is_catalog_name`, and everything else is stated over that.

use vstd::prelude::*;
use std::str::FromStr;

verus! {

/// True of the strings that are names of a timezone in the database, such as
/// `Asia/Tokyo`. Names are matched exactly and with regard to case.
pub uninterp spec fn is_catalog_name(raw: Seq<char>) -> bool;

/// The canonical identifier of a timezone. Every value is a name of the catalog.
pub struct TimezoneIdentifier {
    name: String,
}

impl View for TimezoneIdentifier {
    type V = Seq<char>;

    closed spec fn view(&self) -> Seq<char> {
        self.name@
    }
}

/// Why a confirmed input did not resolve to a timezone.
#[derive(Clone, Copy, Debug, PartialEq, Eq, Structural)]
pub enum ResolveError {
    /// Text that the user typed or pasted is no name of the catalog.
    NotFound,
    /// A value that was offered as a suggestion is no name of the catalog: the
    /// index and the catalog disagree.
    DataInconsistency,
}

/// Looks `raw` up with chrono-tz's `Tz::from_str` and, where that finds a
/// timezone, hands back the string that `Tz::name` gives for it.
///
/// `from_str` looks the string up in a table keyed by the timezones' names, and
/// the timezone found under a key has that key as its name: so what comes back
/// is `raw` itself, and it comes back exactly for the names of the catalog.
#[verifier::external_body]
fn catalog_lookup(raw: &str) -> (r: Option<String>)
    ensures
        match r {
            Some(name) => is_catalog_name(raw@) && name@ == raw@,
            None => !is_catalog_name(raw@),
        },
{
    chrono_tz::Tz::from_str(raw).ok().map(|tz| tz.name().to_owned())
}

/// The names of chrono-tz's `TZ_VARIANTS`, in the order of that array, each as
/// `Tz::name` gives it.
///
/// The array holds every timezone of the database once, so the list holds the
/// names of the catalog and nothing else.
#[verifier::external_body]
pub(crate) fn catalog_names() -> (names: Vec<String>)
    ensures
        forall|i: int| 0 <= i < names@.len() ==> is_catalog_name(#[trigger] names@[i]@),
        forall|raw: Seq<char>| #[trigger]
            is_catalog_name(raw) ==> exists|i: int| 0 <= i < names@.len() && names@[i]@ == raw,
{
    chrono_tz::TZ_VARIANTS.iter().map(|tz| tz.name().to_owned()).collect()
}

impl TimezoneIdentifier {
    #[verifier::type_invariant]
    spec fn in_catalog(&self) -> bool {
        is_catalog_name(self.name@)
    }

    /// The identifier that a name of the catalog is.
    pub(crate) fn listed(name: String) -> (id: TimezoneIdentifier)
        requires
            is_catalog_name(name@),
        ensures
            id@ == name@,
    {
        TimezoneIdentifier { name }
    }

    /// The identifier as text.
    pub fn as_str(&self) -> (s: &str)
        ensures
            s@ == self@,
            is_catalog_name(self@),
    {
        proof {
            use_type_invariant(self);
        }
        self.name.as_str()
    }

    /// A copy of the identifier.
    pub fn duplicate(&self) -> (copy: TimezoneIdentifier)
        ensures
            copy@ == self@,
    {
        proof {
            use_type_invariant(self);
        }
        TimezoneIdentifier { name: self.name.clone() }
    }
}

/// Resolves text that the user typed or pasted: an exact match against the
/// catalog, or `NotFound`.
pub fn resolve(raw: &str) -> (r: Result<TimezoneIdentifier, ResolveError>)
    ensures
        match r {
            Ok(id) => is_catalog_name(raw@) && id@ == raw@,
            Err(e) => !is_catalog_name(raw@) && e == ResolveError::NotFound,
        },
{
    match catalog_lookup(raw) {
        Some(name) => Ok(TimezoneIdentifier { name }),
        None => Err(ResolveError::NotFound),
    }
}

/// Resolves a value that the user picked from the suggestions. Such a value is
/// expected to be in the catalog; if it is not, the fault is in the data and not
/// in the input, and the error says so.
pub fn resolve_confirmed(raw: &str) -> (r: Result<TimezoneIdentifier, ResolveError>)
    ensures
        match r {
            Ok(id) => is_catalog_name(raw@) && id@ == raw@,
            Err(e) => !is_catalog_name(raw@) && e == ResolveError::DataInconsistency,
        },
{
    match catalog_lookup(raw) {
        Some(name) => Ok(TimezoneIdentifier { name }),
        None => Err(ResolveError::DataInconsistency),
    }
}

/// Resolves every value of a list of suggestions. Suggestions are meant to be
/// names of the catalog, each and all: the first one that is not makes the whole
/// list an inconsistency of the data.
pub fn resolve_all_confirmed(suggestions: &Vec<String>) -> (r: Result<Vec<TimezoneIdentifier>, ResolveError>)
    ensures
        match r {
            Ok(found) => {
                &&& found@.len() == suggestions@.len()
                &&& forall|i: int|
                    0 <= i < found@.len() ==> is_catalog_name(#[trigger] suggestions@[i]@) && found@[i]@
                        == suggestions@[i]@
            },
            Err(e) => e == ResolveError::DataInconsistency && exists|i: int|
                0 <= i < suggestions@.len() && !is_catalog_name(#[trigger] suggestions@[i]@),
        },
{
    let mut found: Vec<TimezoneIdentifier> = Vec::new();
    let mut i: usize = 0;
    while i < suggestions.len()
        invariant
            i <= suggestions@.len(),
            found@.len() == i,
            forall|j: int|
                0 <= j < i ==> is_catalog_name(#[trigger] suggestions@[j]@) && found@[j]@ == suggestions@[j]@,
        decreases suggestions@.len() - i,
    {
        match resolve_confirmed(suggestions[i].as_str()) {
            Ok(id) => {
                found.push(id);
            },
            Err(e) => {
                assert(!is_catalog_name(suggestions@[i as int]@));
                return Err(e);
            },
        }
        i += 1;
    }
    Ok(found)
}

} // verus!
