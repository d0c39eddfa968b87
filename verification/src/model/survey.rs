//! Surveys: a survey's code and name, its metadata and its contact.

use vstd::prelude::*;
use vstd::string::*;
use crate::clock::now_nanos;
use crate::config::model::{valid_survey_code, validate_survey_code};
use crate::model::{CommonMetadata, DataStatus, Frequency};
use crate::strmap::StrMap;
use crate::text::{contains_string, owned, str_eq, to_upper, upper_of, views};

verus! {

/// A survey.
#[derive(Debug)]
pub struct Survey {
    /// Survey code, upper-cased, such as "AP".
    pub survey_code: String,
    /// Survey name.
    pub name: String,
    /// Survey metadata.
    pub metadata: SurveyMetadata,
    /// Timestamps and version.
    pub common: CommonMetadata,
}

/// Metadata of a survey.
#[derive(Debug)]
pub struct SurveyMetadata {
    pub description: Option<String>,
    pub status: DataStatus,
    pub frequency: Frequency,
    pub contact: Option<SurveyContact>,
    /// Start date, nanoseconds since the Unix epoch.
    pub start_date: Option<i64>,
    /// End date, nanoseconds since the Unix epoch.
    pub end_date: Option<i64>,
    /// Last update, nanoseconds since the Unix epoch.
    pub last_updated: Option<i64>,
    pub methodology: Option<String>,
    pub collection_method: Option<String>,
    pub sample_size: Option<String>,
    pub coverage: Option<String>,
    pub reference_period: Option<String>,
    pub publication_schedule: Option<String>,
    /// Codes of related surveys, upper-cased, each once.
    pub related_surveys: Vec<String>,
    pub settings: StrMap<String>,
    pub attributes: StrMap<String>,
}

/// A survey's contact.
#[derive(Debug)]
pub struct SurveyContact {
    pub name: String,
    pub title: Option<String>,
    pub email: String,
    pub phone: Option<String>,
    pub organization: Option<String>,
    pub address: Option<String>,
}

/// Metadata with the defaults: active, monthly, nothing else set.
pub open spec fn default_survey_metadata(m: SurveyMetadata) -> bool {
    &&& m.description is None
    &&& m.status == DataStatus::Active
    &&& m.frequency == Frequency::Monthly
    &&& m.contact is None
    &&& m.start_date is None
    &&& m.end_date is None
    &&& m.last_updated is None
    &&& m.methodology is None
    &&& m.collection_method is None
    &&& m.sample_size is None
    &&& m.coverage is None
    &&& m.reference_period is None
    &&& m.publication_schedule is None
    &&& m.related_surveys@.len() == 0
    &&& m.settings@ == Map::<Seq<char>, String>::empty()
    &&& m.attributes@ == Map::<Seq<char>, String>::empty()
}

impl Default for SurveyMetadata {
    fn default() -> (m: Self)
        ensures
            default_survey_metadata(m),
    {
        SurveyMetadata {
            description: None,
            status: DataStatus::Active,
            frequency: Frequency::Monthly,
            contact: None,
            start_date: None,
            end_date: None,
            last_updated: None,
            methodology: None,
            collection_method: None,
            sample_size: None,
            coverage: None,
            reference_period: None,
            publication_schedule: None,
            related_surveys: Vec::new(),
            settings: StrMap::new(),
            attributes: StrMap::new(),
        }
    }
}

impl Survey {
    /// A survey with default metadata, its code upper-cased.
    pub fn new(survey_code: &str, name: &str) -> (s: Self)
        ensures
            s.survey_code@ == upper_of(survey_code@),
            s.name@ == name@,
            default_survey_metadata(s.metadata),
            s.common.version == 1,
    {
        Survey {
            survey_code: to_upper(survey_code),
            name: owned(name),
            metadata: SurveyMetadata::default(),
            common: CommonMetadata::new(),
        }
    }

    /// A survey with the given metadata, its code upper-cased.
    pub fn with_metadata(survey_code: &str, name: &str, metadata: SurveyMetadata) -> (s: Self)
        ensures
            s.survey_code@ == upper_of(survey_code@),
            s.name@ == name@,
            s.metadata == metadata,
            s.common.version == 1,
    {
        Survey { survey_code: to_upper(survey_code), name: owned(name), metadata, common: CommonMetadata::new() }
    }

    /// The survey code.
    pub fn code(&self) -> (r: &str)
        ensures
            r@ == self.survey_code@,
    {
        self.survey_code.as_str()
    }

    /// The name.
    pub fn name(&self) -> (r: &str)
        ensures
            r@ == self.name@,
    {
        self.name.as_str()
    }

    /// Whether the survey is active.
    pub fn is_active(&self) -> (b: bool)
        ensures
            b == (self.metadata.status == DataStatus::Active),
    {
        self.metadata.status == DataStatus::Active
    }

    /// The description, if set.
    pub fn description(&self) -> (r: Option<&str>)
        ensures
            match self.metadata.description {
                Some(d) => r matches Some(s) && s@ == d@,
                None => r is None,
            },
    {
        match &self.metadata.description {
            Some(d) => Some(d.as_str()),
            None => None,
        }
    }

    /// The frequency.
    pub fn frequency(&self) -> (r: &Frequency)
        ensures
            *r == self.metadata.frequency,
    {
        &self.metadata.frequency
    }

    /// The contact, if set.
    pub fn contact(&self) -> (r: Option<&SurveyContact>)
        ensures
            match self.metadata.contact {
                Some(c) => r == Some(&c),
                None => r is None,
            },
    {
        self.metadata.contact.as_ref()
    }

    /// Replaces the metadata, as an update.
    pub fn update_metadata(&mut self, metadata: SurveyMetadata)
        requires
            old(self).common.version < u32::MAX,
        ensures
            final(self).metadata == metadata,
            final(self).common.version == old(self).common.version + 1,
            final(self).survey_code == old(self).survey_code,
            final(self).name == old(self).name,
    {
        self.metadata = metadata;
        self.common.update();
    }

    /// Sets the status, as an update.
    pub fn set_status(&mut self, status: DataStatus)
        requires
            old(self).common.version < u32::MAX,
        ensures
            final(self).metadata.status == status,
            final(self).metadata.description == old(self).metadata.description,
            final(self).common.version == old(self).common.version + 1,
            final(self).survey_code == old(self).survey_code,
    {
        self.metadata.status = status;
        self.common.update();
    }

    /// Sets the description, as an update.
    pub fn set_description(&mut self, description: &str)
        requires
            old(self).common.version < u32::MAX,
        ensures
            final(self).metadata.description matches Some(d) && d@ == description@,
            final(self).metadata.status == old(self).metadata.status,
            final(self).common.version == old(self).common.version + 1,
            final(self).survey_code == old(self).survey_code,
    {
        self.metadata.description = Some(owned(description));
        self.common.update();
    }

    /// Sets a custom attribute in the common metadata.
    pub fn add_attribute(&mut self, key: &str, value: &str)
        ensures
            final(self).common.attributes@ == old(self).common.attributes@.insert(
                key@,
                final(self).common.attributes@[key@],
            ),
            final(self).common.attributes@[key@]@ == value@,
            final(self).common.version == old(self).common.version,
            final(self).metadata == old(self).metadata,
    {
        self.common.add_attribute(key, value);
    }

    /// Checks a survey code of two ASCII capital letters and a name of 1 to
    /// 200 characters.
    pub fn validate_survey(&self) -> (r: Result<(), String>)
        ensures
            r is Ok <==> (valid_survey_code(self.survey_code@) && 1 <= self.name@.len() <= 200),
    {
        match validate_survey_code(self.survey_code.as_str()) {
            Ok(()) => {},
            Err(_) => {
                return Err(owned("Validation error: invalid survey code"));
            },
        }
        let n = self.name.as_str().unicode_len();
        if n < 1 || n > 200 {
            return Err(owned("Validation error: name must be between 1 and 200 characters"));
        }
        Ok(())
    }
}

/// The survey is active at time `now`: active status and no end date
/// before or at `now`.
pub open spec fn active_at(m: SurveyMetadata, now: i64) -> bool {
    m.status == DataStatus::Active && match m.end_date {
        Some(end) => end > now,
        None => true,
    }
}

impl SurveyMetadata {
    /// A builder starting from the defaults.
    pub fn builder() -> (b: SurveyMetadataBuilder)
        ensures
            default_survey_metadata(b.metadata),
    {
        SurveyMetadataBuilder::new()
    }

    /// The end date, or the current time when there is none.
    pub fn effective_end_date(&self) -> (r: i64)
        ensures
            self.end_date matches Some(d) ==> r == d,
    {
        match self.end_date {
            Some(d) => d,
            None => now_nanos(),
        }
    }

    /// Whether the survey is active at time `now`.
    pub fn is_active_at(&self, now: i64) -> (b: bool)
        ensures
            b == active_at(*self, now),
    {
        self.status == DataStatus::Active && match self.end_date {
            Some(end) => end > now,
            None => true,
        }
    }

    /// Whether the survey is active now: active status and an end date, if
    /// any, still to come.
    pub fn is_currently_active(&self) -> (b: bool)
        ensures
            exists|now: i64| b == active_at(*self, now),
            self.status != DataStatus::Active ==> !b,
            self.status == DataStatus::Active && self.end_date is None ==> b,
    {
        let now = now_nanos();
        self.is_active_at(now)
    }

    /// Adds a related survey, its code upper-cased, unless it is there already.
    pub fn add_related_survey(&mut self, survey_code: &str)
        ensures
            views(old(self).related_surveys@).contains(upper_of(survey_code@)) ==> views(
                final(self).related_surveys@,
            ) == views(old(self).related_surveys@),
            !views(old(self).related_surveys@).contains(upper_of(survey_code@)) ==> views(
                final(self).related_surveys@,
            ) == views(old(self).related_surveys@).push(upper_of(survey_code@)),
            final(self).status == old(self).status,
            final(self).settings == old(self).settings,
            final(self).attributes == old(self).attributes,
    {
        let code = to_upper(survey_code);
        if !contains_string(&self.related_surveys, code.as_str()) {
            let ghost before = self.related_surveys@;
            self.related_surveys.push(code);
            assert(views(self.related_surveys@) =~= views(before).push(upper_of(survey_code@)));
        }
    }

    /// Removes every related survey with the given code, upper-cased.
    pub fn remove_related_survey(&mut self, survey_code: &str)
        ensures
            views(final(self).related_surveys@) == views(old(self).related_surveys@).filter(
                |s: Seq<char>| s != upper_of(survey_code@),
            ),
            final(self).status == old(self).status,
            final(self).settings == old(self).settings,
            final(self).attributes == old(self).attributes,
    {
        let code = to_upper(survey_code);
        let ghost pred = |s: Seq<char>| s != upper_of(survey_code@);
        let ghost orig = views(self.related_surveys@);
        let mut kept: Vec<String> = Vec::new();
        let mut i: usize = 0;
        while i < self.related_surveys.len()
            invariant
                pred == (|s: Seq<char>| s != upper_of(survey_code@)),
                code@ == upper_of(survey_code@),
                orig == views(self.related_surveys@),
                i <= self.related_surveys@.len(),
                views(kept@) == orig.take(i as int).filter(pred),
            decreases self.related_surveys@.len() - i,
        {
            let keep = !str_eq(self.related_surveys[i].as_str(), code.as_str());
            let ghost before = views(kept@);
            if keep {
                kept.push(self.related_surveys[i].clone());
            }
            proof {
                let x = orig[i as int];
                assert(x == self.related_surveys@[i as int]@);
                assert(orig.take(i + 1) =~= orig.take(i as int).push(x));
                orig.take(i as int).lemma_filter_push(x, pred);
                if keep {
                    assert(views(kept@) =~= before.push(x));
                } else {
                    assert(views(kept@) =~= before);
                }
            }
            i = i + 1;
        }
        proof {
            assert(orig.take(orig.len() as int) =~= orig);
        }
        self.related_surveys = kept;
    }

    /// Sets setting `key` to `value`.
    pub fn add_setting(&mut self, key: &str, value: &str)
        ensures
            final(self).settings@ == old(self).settings@.insert(key@, final(self).settings@[key@]),
            final(self).settings@[key@]@ == value@,
            final(self).attributes == old(self).attributes,
            final(self).related_surveys == old(self).related_surveys,
            final(self).status == old(self).status,
    {
        let v = owned(value);
        let ghost vv = v;
        self.settings.insert(owned(key), v);
        assert(self.settings@[key@] == vv);
    }

    /// Sets attribute `key` to `value`.
    pub fn add_attribute(&mut self, key: &str, value: &str)
        ensures
            final(self).attributes@ == old(self).attributes@.insert(key@, final(self).attributes@[key@]),
            final(self).attributes@[key@]@ == value@,
            final(self).settings == old(self).settings,
            final(self).related_surveys == old(self).related_surveys,
            final(self).status == old(self).status,
    {
        let v = owned(value);
        let ghost vv = v;
        self.attributes.insert(owned(key), v);
        assert(self.attributes@[key@] == vv);
    }
}

/// A contact with only a name and an email.
pub open spec fn bare_contact(c: SurveyContact, name: Seq<char>, email: Seq<char>) -> bool {
    &&& c.name@ == name
    &&& c.email@ == email
    &&& c.title is None
    &&& c.phone is None
    &&& c.organization is None
    &&& c.address is None
}

impl SurveyContact {
    /// A contact with a name and an email.
    pub fn new(name: &str, email: &str) -> (c: Self)
        ensures
            bare_contact(c, name@, email@),
    {
        SurveyContact { name: owned(name), title: None, email: owned(email), phone: None, organization: None, address: None }
    }

    /// A builder for a contact with a name and an email.
    pub fn builder(name: &str, email: &str) -> (b: SurveyContactBuilder)
        ensures
            b.name@ == name@,
            b.email@ == email@,
            b.title is None,
            b.phone is None,
            b.organization is None,
            b.address is None,
    {
        SurveyContactBuilder::new(name, email)
    }
}

/// Builder for a survey contact.
#[derive(Debug)]
pub struct SurveyContactBuilder {
    pub name: String,
    pub email: String,
    pub title: Option<String>,
    pub phone: Option<String>,
    pub organization: Option<String>,
    pub address: Option<String>,
}

impl SurveyContactBuilder {
    /// A builder with a name and an email.
    pub fn new(name: &str, email: &str) -> (b: Self)
        ensures
            b.name@ == name@,
            b.email@ == email@,
            b.title is None,
            b.phone is None,
            b.organization is None,
            b.address is None,
    {
        SurveyContactBuilder { name: owned(name), email: owned(email), title: None, phone: None, organization: None, address: None }
    }

    /// Sets the title.
    pub fn title(self, title: &str) -> (b: Self)
        ensures
            b.title matches Some(t) && t@ == title@,
            b.name == self.name && b.email == self.email && b.phone == self.phone
                && b.organization == self.organization && b.address == self.address,
    {
        let mut b = self;
        b.title = Some(owned(title));
        b
    }

    /// Sets the phone.
    pub fn phone(self, phone: &str) -> (b: Self)
        ensures
            b.phone matches Some(t) && t@ == phone@,
            b.name == self.name && b.email == self.email && b.title == self.title
                && b.organization == self.organization && b.address == self.address,
    {
        let mut b = self;
        b.phone = Some(owned(phone));
        b
    }

    /// Sets the organization.
    pub fn organization(self, organization: &str) -> (b: Self)
        ensures
            b.organization matches Some(t) && t@ == organization@,
            b.name == self.name && b.email == self.email && b.title == self.title && b.phone
                == self.phone && b.address == self.address,
    {
        let mut b = self;
        b.organization = Some(owned(organization));
        b
    }

    /// Sets the address.
    pub fn address(self, address: &str) -> (b: Self)
        ensures
            b.address matches Some(t) && t@ == address@,
            b.name == self.name && b.email == self.email && b.title == self.title && b.phone
                == self.phone && b.organization == self.organization,
    {
        let mut b = self;
        b.address = Some(owned(address));
        b
    }

    /// The contact built.
    pub fn build(self) -> (c: SurveyContact)
        ensures
            c.name == self.name,
            c.email == self.email,
            c.title == self.title,
            c.phone == self.phone,
            c.organization == self.organization,
            c.address == self.address,
    {
        SurveyContact {
            name: self.name,
            title: self.title,
            email: self.email,
            phone: self.phone,
            organization: self.organization,
            address: self.address,
        }
    }
}

/// Builder for survey metadata.
#[derive(Debug)]
pub struct SurveyMetadataBuilder {
    /// The metadata being built.
    pub metadata: SurveyMetadata,
}

impl SurveyMetadataBuilder {
    /// A builder starting from the defaults.
    pub fn new() -> (b: Self)
        ensures
            default_survey_metadata(b.metadata),
    {
        SurveyMetadataBuilder { metadata: SurveyMetadata::default() }
    }

    /// Sets the description.
    pub fn description(self, description: &str) -> (b: Self)
        ensures
            b.metadata.description matches Some(d) && d@ == description@,
            b.metadata.status == self.metadata.status,
            b.metadata.frequency == self.metadata.frequency,
            b.metadata.related_surveys == self.metadata.related_surveys,
    {
        let mut b = self;
        b.metadata.description = Some(owned(description));
        b
    }

    /// Sets the status.
    pub fn status(self, status: DataStatus) -> (b: Self)
        ensures
            b.metadata == (SurveyMetadata { status, ..self.metadata }),
    {
        let mut b = self;
        b.metadata.status = status;
        b
    }

    /// Sets the frequency.
    pub fn frequency(self, frequency: Frequency) -> (b: Self)
        ensures
            b.metadata == (SurveyMetadata { frequency, ..self.metadata }),
    {
        let mut b = self;
        b.metadata.frequency = frequency;
        b
    }

    /// Sets the contact.
    pub fn contact(self, contact: SurveyContact) -> (b: Self)
        ensures
            b.metadata == (SurveyMetadata { contact: Some(contact), ..self.metadata }),
    {
        let mut b = self;
        b.metadata.contact = Some(contact);
        b
    }

    /// Sets the start date.
    pub fn start_date(self, start_date: i64) -> (b: Self)
        ensures
            b.metadata == (SurveyMetadata { start_date: Some(start_date), ..self.metadata }),
    {
        let mut b = self;
        b.metadata.start_date = Some(start_date);
        b
    }

    /// Sets the end date.
    pub fn end_date(self, end_date: i64) -> (b: Self)
        ensures
            b.metadata == (SurveyMetadata { end_date: Some(end_date), ..self.metadata }),
    {
        let mut b = self;
        b.metadata.end_date = Some(end_date);
        b
    }

    /// Sets the last update date.
    pub fn last_updated(self, last_updated: i64) -> (b: Self)
        ensures
            b.metadata == (SurveyMetadata { last_updated: Some(last_updated), ..self.metadata }),
    {
        let mut b = self;
        b.metadata.last_updated = Some(last_updated);
        b
    }

    /// Sets the methodology.
    pub fn methodology(self, methodology: &str) -> (b: Self)
        ensures
            b.metadata.methodology matches Some(d) && d@ == methodology@,
            b.metadata.status == self.metadata.status,
            b.metadata.related_surveys == self.metadata.related_surveys,
    {
        let mut b = self;
        b.metadata.methodology = Some(owned(methodology));
        b
    }

    /// Sets the collection method.
    pub fn collection_method(self, collection_method: &str) -> (b: Self)
        ensures
            b.metadata.collection_method matches Some(d) && d@ == collection_method@,
            b.metadata.status == self.metadata.status,
            b.metadata.related_surveys == self.metadata.related_surveys,
    {
        let mut b = self;
        b.metadata.collection_method = Some(owned(collection_method));
        b
    }

    /// Sets the sample size.
    pub fn sample_size(self, sample_size: &str) -> (b: Self)
        ensures
            b.metadata.sample_size matches Some(d) && d@ == sample_size@,
            b.metadata.status == self.metadata.status,
            b.metadata.related_surveys == self.metadata.related_surveys,
    {
        let mut b = self;
        b.metadata.sample_size = Some(owned(sample_size));
        b
    }

    /// Sets the coverage.
    pub fn coverage(self, coverage: &str) -> (b: Self)
        ensures
            b.metadata.coverage matches Some(d) && d@ == coverage@,
            b.metadata.status == self.metadata.status,
            b.metadata.related_surveys == self.metadata.related_surveys,
    {
        let mut b = self;
        b.metadata.coverage = Some(owned(coverage));
        b
    }

    /// Sets the reference period.
    pub fn reference_period(self, reference_period: &str) -> (b: Self)
        ensures
            b.metadata.reference_period matches Some(d) && d@ == reference_period@,
            b.metadata.status == self.metadata.status,
            b.metadata.related_surveys == self.metadata.related_surveys,
    {
        let mut b = self;
        b.metadata.reference_period = Some(owned(reference_period));
        b
    }

    /// Sets the publication schedule.
    pub fn publication_schedule(self, publication_schedule: &str) -> (b: Self)
        ensures
            b.metadata.publication_schedule matches Some(d) && d@ == publication_schedule@,
            b.metadata.status == self.metadata.status,
            b.metadata.related_surveys == self.metadata.related_surveys,
    {
        let mut b = self;
        b.metadata.publication_schedule = Some(owned(publication_schedule));
        b
    }

    /// Adds a related survey (see `SurveyMetadata::add_related_survey`).
    pub fn related_survey(self, survey_code: &str) -> (b: Self)
        ensures
            views(self.metadata.related_surveys@).contains(upper_of(survey_code@)) ==> views(
                b.metadata.related_surveys@,
            ) == views(self.metadata.related_surveys@),
            !views(self.metadata.related_surveys@).contains(upper_of(survey_code@)) ==> views(
                b.metadata.related_surveys@,
            ) == views(self.metadata.related_surveys@).push(upper_of(survey_code@)),
            b.metadata.status == self.metadata.status,
    {
        let mut b = self;
        b.metadata.add_related_survey(survey_code);
        b
    }

    /// Sets a setting.
    pub fn setting(self, key: &str, value: &str) -> (b: Self)
        ensures
            b.metadata.settings@ == self.metadata.settings@.insert(key@, b.metadata.settings@[key@]),
            b.metadata.settings@[key@]@ == value@,
            b.metadata.attributes == self.metadata.attributes,
            b.metadata.related_surveys == self.metadata.related_surveys,
            b.metadata.status == self.metadata.status,
    {
        let mut b = self;
        b.metadata.add_setting(key, value);
        b
    }

    /// Sets an attribute.
    pub fn attribute(self, key: &str, value: &str) -> (b: Self)
        ensures
            b.metadata.attributes@ == self.metadata.attributes@.insert(key@, b.metadata.attributes@[key@]),
            b.metadata.attributes@[key@]@ == value@,
            b.metadata.settings == self.metadata.settings,
            b.metadata.related_surveys == self.metadata.related_surveys,
            b.metadata.status == self.metadata.status,
    {
        let mut b = self;
        b.metadata.add_attribute(key, value);
        b
    }

    /// The metadata built.
    pub fn build(self) -> (m: SurveyMetadata)
        ensures
            m == self.metadata,
    {
        self.metadata
    }
}

impl Default for SurveyMetadataBuilder {
    fn default() -> (b: Self)
        ensures
            default_survey_metadata(b.metadata),
    {
        Self::new()
    }
}

} // verus!
