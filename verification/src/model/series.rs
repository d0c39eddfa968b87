//! Data series: a collection of related observations over time, with the
//! metadata that describes it.

use vstd::prelude::*;
use vstd::string::*;
use crate::clock::now_nanos;
use crate::config::model::valid_survey_code;
use crate::model::{Area, CommonMetadata, DataQuality, DataStatus, Frequency, Item, Unit};
use crate::strmap::StrMap;
use crate::text::{char_utf8_len, contains_str, has_sub, lower_of, owned, string_from_chars, to_lower, to_upper, upper_of, utf8_len};

verus! {

/// A data series.
#[derive(Debug)]
pub struct Series {
    /// Series identifier, such as "APUS49074714".
    pub series_id: String,
    /// Title.
    pub title: String,
    /// Survey code, such as "AP".
    pub survey_code: String,
    /// Series metadata.
    pub metadata: SeriesMetadata,
    /// Timestamps and version.
    pub common: CommonMetadata,
    /// Periodicity code.
    pub periodicity_code: String,
    /// Seasonal adjustment code.
    pub seasonal: String,
    /// Item code.
    pub item_code: String,
    /// Base period.
    pub base_period: String,
    /// Base code.
    pub base_code: String,
    /// Area code.
    pub area_code: String,
}

/// Metadata of a series.
#[derive(Debug)]
pub struct SeriesMetadata {
    /// Frequency.
    pub frequency: Frequency,
    /// Status.
    pub status: DataStatus,
    /// Quality.
    pub quality: DataQuality,
    /// Unit of measurement.
    pub unit: Option<Unit>,
    /// Geographic area.
    pub area: Option<Area>,
    /// Item or industry.
    pub item: Option<Item>,
    /// Start date, nanoseconds since the Unix epoch.
    pub start_date: Option<i64>,
    /// End date when discontinued, nanoseconds since the Unix epoch.
    pub end_date: Option<i64>,
    /// Last update, nanoseconds since the Unix epoch.
    pub last_updated: Option<i64>,
    /// Seasonal adjustment.
    pub seasonal_adjustment: Option<String>,
    /// Base period of an index.
    pub base_period: Option<String>,
    /// Notes.
    pub notes: Option<String>,
    /// Custom attributes.
    pub attributes: StrMap<String>,
}

/// Metadata with the defaults: monthly, active, high quality, nothing else set.
pub open spec fn default_series_metadata(m: SeriesMetadata) -> bool {
    &&& m.frequency == Frequency::Monthly
    &&& m.status == DataStatus::Active
    &&& m.quality == DataQuality::High
    &&& m.unit is None
    &&& m.area is None
    &&& m.item is None
    &&& m.start_date is None
    &&& m.end_date is None
    &&& m.last_updated is None
    &&& m.seasonal_adjustment is None
    &&& m.base_period is None
    &&& m.notes is None
    &&& m.attributes@ == Map::<Seq<char>, String>::empty()
}

/// The byte length of `s` in UTF-8 is at least two.
pub open spec fn at_least_two_bytes(s: Seq<char>) -> bool {
    s.len() >= 2 || (s.len() == 1 && utf8_len(s[0]) >= 2)
}

/// The first two bytes of `s` end on a character boundary.
pub open spec fn two_byte_boundary(s: Seq<char>) -> bool {
    (s.len() >= 1 && utf8_len(s[0]) == 2) || (s.len() >= 2 && utf8_len(s[0]) == 1 && utf8_len(s[1]) == 1)
}

/// The characters of the first two bytes of `s`.
pub open spec fn first_two_bytes(s: Seq<char>) -> Seq<char> {
    if utf8_len(s[0]) == 2 {
        s.take(1)
    } else {
        s.take(2)
    }
}

/// The survey code of a series id: its first two bytes, upper-cased, or "XX"
/// for an id shorter than two bytes.
pub open spec fn survey_code_of(id: Seq<char>) -> Seq<char> {
    if at_least_two_bytes(id) {
        upper_of(first_two_bytes(id))
    } else {
        "XX"@
    }
}

/// The survey code of a series id: its first two bytes upper-cased, or
/// "XX" when the id is shorter than two bytes. An id whose second byte is
/// inside a character is cut inside that character, which panics; such ids
/// are left out.
pub fn extract_survey_code(series_id: &str) -> (r: String)
    requires
        at_least_two_bytes(series_id@) ==> two_byte_boundary(series_id@),
    ensures
        r@ == survey_code_of(series_id@),
{
    let n = series_id.unicode_len();
    if n == 0 {
        return owned("XX");
    }
    let c0 = series_id.get_char(0);
    let l0 = char_utf8_len(c0);
    if l0 >= 2 {
        let mut v: Vec<char> = Vec::new();
        v.push(c0);
        let head = string_from_chars(v.as_slice());
        assert(head@ =~= series_id@.take(1));
        to_upper(head.as_str())
    } else if n >= 2 {
        let c1 = series_id.get_char(1);
        let mut v: Vec<char> = Vec::new();
        v.push(c0);
        v.push(c1);
        let head = string_from_chars(v.as_slice());
        assert(head@ =~= series_id@.take(2));
        to_upper(head.as_str())
    } else {
        owned("XX")
    }
}

impl Default for SeriesMetadata {
    fn default() -> (m: Self)
        ensures
            default_series_metadata(m),
    {
        SeriesMetadata {
            frequency: Frequency::Monthly,
            status: DataStatus::Active,
            quality: DataQuality::High,
            unit: None,
            area: None,
            item: None,
            start_date: None,
            end_date: None,
            last_updated: None,
            seasonal_adjustment: None,
            base_period: None,
            notes: None,
            attributes: StrMap::new(),
        }
    }
}

impl Series {
    /// A series with default metadata; its survey code is taken from its id.
    pub fn new(series_id: &str, title: &str) -> (s: Self)
        requires
            at_least_two_bytes(series_id@) ==> two_byte_boundary(series_id@),
        ensures
            s.series_id@ == series_id@,
            s.title@ == title@,
            s.survey_code@ == survey_code_of(series_id@),
            default_series_metadata(s.metadata),
            s.common.version == 1,
            s.area_code@.len() == 0,
            s.periodicity_code@.len() == 0,
            s.seasonal@.len() == 0,
            s.item_code@.len() == 0,
            s.base_period@.len() == 0,
            s.base_code@.len() == 0,
    {
        Series {
            series_id: owned(series_id),
            title: owned(title),
            survey_code: extract_survey_code(series_id),
            metadata: SeriesMetadata::default(),
            common: CommonMetadata::new(),
            periodicity_code: String::new(),
            seasonal: String::new(),
            item_code: String::new(),
            base_period: String::new(),
            base_code: String::new(),
            area_code: String::new(),
        }
    }

    /// A series with the given area and metadata.
    pub fn with_metadata(series_id: &str, title: &str, area_code: &str, metadata: SeriesMetadata) -> (s: Self)
        requires
            at_least_two_bytes(series_id@) ==> two_byte_boundary(series_id@),
        ensures
            s.series_id@ == series_id@,
            s.title@ == title@,
            s.survey_code@ == survey_code_of(series_id@),
            s.area_code@ == area_code@,
            s.metadata == metadata,
            s.common.version == 1,
            s.periodicity_code@.len() == 0,
            s.seasonal@.len() == 0,
            s.item_code@.len() == 0,
            s.base_period@.len() == 0,
            s.base_code@.len() == 0,
    {
        Series {
            series_id: owned(series_id),
            title: owned(title),
            survey_code: extract_survey_code(series_id),
            area_code: owned(area_code),
            metadata,
            common: CommonMetadata::new(),
            periodicity_code: String::new(),
            seasonal: String::new(),
            item_code: String::new(),
            base_period: String::new(),
            base_code: String::new(),
        }
    }

    /// The series id.
    pub fn id(&self) -> (r: &str)
        ensures
            r@ == self.series_id@,
    {
        self.series_id.as_str()
    }

    /// The title.
    pub fn title(&self) -> (r: &str)
        ensures
            r@ == self.title@,
    {
        self.title.as_str()
    }

    /// The survey code.
    pub fn survey_code(&self) -> (r: &str)
        ensures
            r@ == self.survey_code@,
    {
        self.survey_code.as_str()
    }

    /// Whether the series is active.
    pub fn is_active(&self) -> (b: bool)
        ensures
            b == (self.metadata.status == DataStatus::Active),
    {
        self.metadata.status == DataStatus::Active
    }

    /// The frequency.
    pub fn frequency(&self) -> (r: &Frequency)
        ensures
            *r == self.metadata.frequency,
    {
        &self.metadata.frequency
    }

    /// The unit, if set.
    pub fn unit(&self) -> (r: Option<&Unit>)
        ensures
            match self.metadata.unit {
                Some(u) => r == Some(&u),
                None => r is None,
            },
    {
        self.metadata.unit.as_ref()
    }

    /// The area, if set.
    pub fn area(&self) -> (r: Option<&Area>)
        ensures
            match self.metadata.area {
                Some(a) => r == Some(&a),
                None => r is None,
            },
    {
        self.metadata.area.as_ref()
    }

    /// The item, if set.
    pub fn item(&self) -> (r: Option<&Item>)
        ensures
            match self.metadata.item {
                Some(i) => r == Some(&i),
                None => r is None,
            },
    {
        self.metadata.item.as_ref()
    }

    /// Replaces the metadata, as an update.
    pub fn update_metadata(&mut self, metadata: SeriesMetadata)
        requires
            old(self).common.version < u32::MAX,
        ensures
            final(self).metadata == metadata,
            final(self).common.version == old(self).common.version + 1,
            final(self).series_id == old(self).series_id,
            final(self).title == old(self).title,
            final(self).survey_code == old(self).survey_code,
    {
        self.metadata = metadata;
        self.common.update();
    }

    /// Sets the status, as an update.
    pub fn set_status(&mut self, status: DataStatus)
        requires
            old(self).common.version < u32::MAX,
        ensures
            final(self).metadata.status == status,
            final(self).metadata.frequency == old(self).metadata.frequency,
            final(self).common.version == old(self).common.version + 1,
            final(self).series_id == old(self).series_id,
    {
        self.metadata.status = status;
        self.common.update();
    }

    /// Sets a custom attribute in the common metadata.
    pub fn add_attribute(&mut self, key: &str, value: &str)
        ensures
            final(self).common.attributes@ == old(self).common.attributes@.insert(
                key@,
                final(self).common.attributes@[key@],
            ),
            final(self).common.attributes@[key@]@ == value@,
            final(self).common.version == old(self).common.version,
            final(self).metadata == old(self).metadata,
    {
        self.common.add_attribute(key, value);
    }

    /// Checks the field lengths: an id of 10 to 25 characters, a title of 1
    /// to 500 characters and a survey code of two ASCII capital letters.
    pub fn validate_series(&self) -> (r: Result<(), String>)
        ensures
            r is Ok <==> (10 <= self.series_id@.len() <= 25 && 1 <= self.title@.len() <= 500
                && valid_survey_code(self.survey_code@)),
    {
        let n = self.series_id.as_str().unicode_len();
        if n < 10 || n > 25 {
            return Err(owned("Validation error: series_id must be between 10 and 25 characters"));
        }
        let t = self.title.as_str().unicode_len();
        if t < 1 || t > 500 {
            return Err(owned("Validation error: title must be between 1 and 500 characters"));
        }
        match crate::config::model::validate_survey_code(self.survey_code.as_str()) {
            Ok(()) => Ok(()),
            Err(_) => Err(owned("Validation error: invalid survey code")),
        }
    }
}

/// The seasonal adjustment mentions "seasonally adjusted", in any letter
/// case, and is not a "not seasonally adjusted".
pub open spec fn seasonally_adjusted(sa: Option<String>) -> bool {
    match sa {
        Some(s) => has_sub(lower_of(s@), "seasonally adjusted"@) && !has_sub(lower_of(s@), "not seasonally adjusted"@),
        None => false,
    }
}

impl SeriesMetadata {
    /// A builder starting from the defaults.
    pub fn builder() -> (b: SeriesMetadataBuilder)
        ensures
            default_series_metadata(b.metadata),
    {
        SeriesMetadataBuilder::new()
    }

    /// Whether the series is seasonally adjusted: its seasonal adjustment
    /// says "seasonally adjusted" and not "not seasonally adjusted".
    pub fn is_seasonally_adjusted(&self) -> (b: bool)
        ensures
            b == seasonally_adjusted(self.seasonal_adjustment),
    {
        match &self.seasonal_adjustment {
            Some(sa) => {
                let l = to_lower(sa.as_str());
                contains_str(l.as_str(), "seasonally adjusted") && !contains_str(l.as_str(), "not seasonally adjusted")
            },
            None => false,
        }
    }

    /// The end date, or the current time when there is none.
    pub fn effective_end_date(&self) -> (r: i64)
        ensures
            self.end_date matches Some(d) ==> r == d,
    {
        match self.end_date {
            Some(d) => d,
            None => now_nanos(),
        }
    }

    /// Sets a custom attribute.
    pub fn add_attribute(&mut self, key: &str, value: &str)
        ensures
            final(self).attributes@ == old(self).attributes@.insert(key@, final(self).attributes@[key@]),
            final(self).attributes@[key@]@ == value@,
            final(self).frequency == old(self).frequency,
            final(self).status == old(self).status,
            final(self).quality == old(self).quality,
            final(self).unit == old(self).unit,
            final(self).area == old(self).area,
            final(self).item == old(self).item,
            final(self).start_date == old(self).start_date,
            final(self).end_date == old(self).end_date,
            final(self).last_updated == old(self).last_updated,
            final(self).seasonal_adjustment == old(self).seasonal_adjustment,
            final(self).base_period == old(self).base_period,
            final(self).notes == old(self).notes,
    {
        let v = owned(value);
        let ghost vv = v;
        self.attributes.insert(owned(key), v);
        assert(self.attributes@[key@] == vv);
    }
}

/// Builder for series metadata.
#[derive(Debug)]
pub struct SeriesMetadataBuilder {
    /// The metadata being built.
    pub metadata: SeriesMetadata,
}

impl SeriesMetadataBuilder {
    /// A builder starting from the defaults.
    pub fn new() -> (b: Self)
        ensures
            default_series_metadata(b.metadata),
    {
        SeriesMetadataBuilder { metadata: SeriesMetadata::default() }
    }

    /// Sets the frequency.
    pub fn frequency(self, frequency: Frequency) -> (b: Self)
        ensures
            b.metadata == (SeriesMetadata { frequency, ..self.metadata }),
    {
        let mut b = self;
        b.metadata.frequency = frequency;
        b
    }

    /// Sets the status.
    pub fn status(self, status: DataStatus) -> (b: Self)
        ensures
            b.metadata == (SeriesMetadata { status, ..self.metadata }),
    {
        let mut b = self;
        b.metadata.status = status;
        b
    }

    /// Sets the quality.
    pub fn quality(self, quality: DataQuality) -> (b: Self)
        ensures
            b.metadata == (SeriesMetadata { quality, ..self.metadata }),
    {
        let mut b = self;
        b.metadata.quality = quality;
        b
    }

    /// Sets the unit.
    pub fn unit(self, unit: Unit) -> (b: Self)
        ensures
            b.metadata == (SeriesMetadata { unit: Some(unit), ..self.metadata }),
    {
        let mut b = self;
        b.metadata.unit = Some(unit);
        b
    }

    /// Sets the area.
    pub fn area(self, area: Area) -> (b: Self)
        ensures
            b.metadata == (SeriesMetadata { area: Some(area), ..self.metadata }),
    {
        let mut b = self;
        b.metadata.area = Some(area);
        b
    }

    /// Sets the item.
    pub fn item(self, item: Item) -> (b: Self)
        ensures
            b.metadata == (SeriesMetadata { item: Some(item), ..self.metadata }),
    {
        let mut b = self;
        b.metadata.item = Some(item);
        b
    }

    /// Sets the start date.
    pub fn start_date(self, start_date: i64) -> (b: Self)
        ensures
            b.metadata == (SeriesMetadata { start_date: Some(start_date), ..self.metadata }),
    {
        let mut b = self;
        b.metadata.start_date = Some(start_date);
        b
    }

    /// Sets the end date.
    pub fn end_date(self, end_date: i64) -> (b: Self)
        ensures
            b.metadata == (SeriesMetadata { end_date: Some(end_date), ..self.metadata }),
    {
        let mut b = self;
        b.metadata.end_date = Some(end_date);
        b
    }

    /// Sets the last update date.
    pub fn last_updated(self, last_updated: i64) -> (b: Self)
        ensures
            b.metadata == (SeriesMetadata { last_updated: Some(last_updated), ..self.metadata }),
    {
        let mut b = self;
        b.metadata.last_updated = Some(last_updated);
        b
    }

    /// Sets the seasonal adjustment.
    pub fn seasonal_adjustment(self, seasonal_adjustment: &str) -> (b: Self)
        ensures
            b.metadata.seasonal_adjustment matches Some(s) && s@ == seasonal_adjustment@,
            b.metadata.frequency == self.metadata.frequency,
            b.metadata.status == self.metadata.status,
            b.metadata.notes == self.metadata.notes,
            b.metadata.attributes == self.metadata.attributes,
    {
        let mut b = self;
        b.metadata.seasonal_adjustment = Some(owned(seasonal_adjustment));
        b
    }

    /// Sets the base period.
    pub fn base_period(self, base_period: &str) -> (b: Self)
        ensures
            b.metadata.base_period matches Some(s) && s@ == base_period@,
            b.metadata.frequency == self.metadata.frequency,
            b.metadata.status == self.metadata.status,
            b.metadata.seasonal_adjustment == self.metadata.seasonal_adjustment,
            b.metadata.attributes == self.metadata.attributes,
    {
        let mut b = self;
        b.metadata.base_period = Some(owned(base_period));
        b
    }

    /// Sets the notes.
    pub fn notes(self, notes: &str) -> (b: Self)
        ensures
            b.metadata.notes matches Some(s) && s@ == notes@,
            b.metadata.frequency == self.metadata.frequency,
            b.metadata.status == self.metadata.status,
            b.metadata.seasonal_adjustment == self.metadata.seasonal_adjustment,
            b.metadata.attributes == self.metadata.attributes,
    {
        let mut b = self;
        b.metadata.notes = Some(owned(notes));
        b
    }

    /// Sets a custom attribute.
    pub fn attribute(self, key: &str, value: &str) -> (b: Self)
        ensures
            b.metadata.attributes@ == self.metadata.attributes@.insert(key@, b.metadata.attributes@[key@]),
            b.metadata.attributes@[key@]@ == value@,
            b.metadata.frequency == self.metadata.frequency,
            b.metadata.status == self.metadata.status,
            b.metadata.quality == self.metadata.quality,
            b.metadata.seasonal_adjustment == self.metadata.seasonal_adjustment,
            b.metadata.notes == self.metadata.notes,
    {
        let mut b = self;
        b.metadata.add_attribute(key, value);
        b
    }

    /// The metadata built.
    pub fn build(self) -> (m: SeriesMetadata)
        ensures
            m == self.metadata,
    {
        self.metadata
    }
}

impl Default for SeriesMetadataBuilder {
    fn default() -> (b: Self)
        ensures
            default_series_metadata(b.metadata),
    {
        Self::new()
    }
}

} // verus!
