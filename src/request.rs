use vstd::prelude::*;
use crate::text::{joined, join_with_commas, same_text, views};

verus! {

/// A category of entity that the engine can redact.
#[derive(Clone, Copy, Debug, PartialEq, Eq, Structural)]
pub enum EntityKind {
    Person,
    Location,
    Organization,
    Email,
    Date,
}

impl EntityKind {
    /// The engine's code for this category.
    pub open spec fn spec_code(self) -> Seq<char> {
        match self {
            EntityKind::Person => "PERSON"@,
            EntityKind::Location => "LOCATION"@,
            EntityKind::Organization => "ORGANIZATION"@,
            EntityKind::Email => "EMAIL"@,
            EntityKind::Date => "DATE"@,
        }
    }

    pub fn code(&self) -> (r: String)
        ensures
            r@ == self.spec_code(),
    {
        match self {
            EntityKind::Person => String::from_str("PERSON"),
            EntityKind::Location => String::from_str("LOCATION"),
            EntityKind::Organization => String::from_str("ORGANIZATION"),
            EntityKind::Email => String::from_str("EMAIL"),
            EntityKind::Date => String::from_str("DATE"),
        }
    }
}

/// Which entity categories the user wants redacted.
#[derive(Clone, Copy, Debug, PartialEq, Eq, Structural)]
pub struct AnonymizationConfig {
    pub anonymize_persons: bool,
    pub anonymize_locations: bool,
    pub anonymize_orgs: bool,
    pub anonymize_emails: bool,
    pub anonymize_dates: bool,
}

/// `k` alone when `keep` holds, nothing otherwise.
pub open spec fn kept(keep: bool, k: EntityKind) -> Seq<EntityKind> {
    if keep {
        seq![k]
    } else {
        Seq::empty()
    }
}

impl AnonymizationConfig {
    /// The disabled categories, in the fixed order person, location,
    /// organization, email, date.
    pub open spec fn spec_excluded(self) -> Seq<EntityKind> {
        kept(!self.anonymize_persons, EntityKind::Person) + kept(
            !self.anonymize_locations,
            EntityKind::Location,
        ) + kept(!self.anonymize_orgs, EntityKind::Organization) + kept(
            !self.anonymize_emails,
            EntityKind::Email,
        ) + kept(!self.anonymize_dates, EntityKind::Date)
    }

    /// The engine codes of the disabled categories, in the same order.
    pub open spec fn spec_excluded_codes(self) -> Seq<Seq<char>> {
        self.spec_excluded().map_values(|k: EntityKind| k.spec_code())
    }

    /// Whether every category is enabled.
    pub open spec fn spec_all_enabled(self) -> bool {
        &&& self.anonymize_persons
        &&& self.anonymize_locations
        &&& self.anonymize_orgs
        &&& self.anonymize_emails
        &&& self.anonymize_dates
    }

    pub fn excluded(&self) -> (r: Vec<EntityKind>)
        ensures
            r@ == self.spec_excluded(),
    {
        let mut r: Vec<EntityKind> = Vec::new();
        if !self.anonymize_persons {
            r.push(EntityKind::Person);
        }
        if !self.anonymize_locations {
            r.push(EntityKind::Location);
        }
        if !self.anonymize_orgs {
            r.push(EntityKind::Organization);
        }
        if !self.anonymize_emails {
            r.push(EntityKind::Email);
        }
        if !self.anonymize_dates {
            r.push(EntityKind::Date);
        }
        assert(r@ =~= self.spec_excluded());
        r
    }

    /// The comma-joined codes of the disabled categories, or `None` when
    /// every category is enabled.
    pub fn exclusion_list(&self) -> (r: Option<String>)
        ensures
            r is None <==> self.spec_excluded().len() == 0,
            r matches Some(s) ==> s@ == joined(self.spec_excluded_codes(), ','),
    {
        let kinds = self.excluded();
        if kinds.len() == 0 {
            return None;
        }
        let mut codes: Vec<String> = Vec::new();
        let mut i: usize = 0;
        while i < kinds.len()
            invariant
                0 <= i <= kinds.len(),
                kinds@ == self.spec_excluded(),
                views(codes@) =~= self.spec_excluded_codes().take(i as int),
            decreases kinds.len() - i,
        {
            let c = kinds[i].code();
            let ghost before = codes@;
            codes.push(c);
            proof {
                assert(codes@ =~= before.push(c));
                assert(views(codes@) =~= views(before).push(c@));
                assert(self.spec_excluded_codes().take(i + 1) =~= self.spec_excluded_codes().take(
                    i as int,
                ).push(c@));
            }
            i += 1;
        }
        assert(self.spec_excluded_codes().take(kinds.len() as int) =~= self.spec_excluded_codes());
        Some(join_with_commas(&codes))
    }
}

/// One anonymization request: the text, the categories to redact, and the
/// optional hints on a tabular source file.
pub struct AnonymizationRequest {
    pub text: String,
    pub config: AnonymizationConfig,
    pub file_type: Option<String>,
    pub has_header: Option<bool>,
}

/// Whether a file-type tag names a tabular format.
pub open spec fn is_tabular(tag: Seq<char>) -> bool {
    tag == "csv"@ || tag == "xlsx"@
}

pub fn is_tabular_tag(tag: &str) -> (r: bool)
    ensures
        r == is_tabular(tag@),
{
    same_text(tag, "csv") || same_text(tag, "xlsx")
}

} // verus!
