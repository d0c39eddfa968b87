//! Data models for survey data: common metadata, quality and status codes,
//! units, areas and items, and the submodules for lookups, series and surveys.

use vstd::prelude::*;
use crate::clock::now_nanos;
use crate::strmap::StrMap;
use crate::text::owned;

pub mod lookup;
pub mod observation;
pub mod series;
pub mod survey;

verus! {

/// Metadata that every record carries: timestamps, a version counter,
/// an optional source and free-form attributes.
#[derive(Debug)]
pub struct CommonMetadata {
    /// When the record was created, in nanoseconds since the Unix epoch.
    pub created_at: i64,
    /// When the record was last updated, in nanoseconds since the Unix epoch.
    pub updated_at: i64,
    /// Version of the record, starting at 1 and raised by each update.
    pub version: u32,
    /// Source of the data.
    pub source: Option<String>,
    /// Additional key-value attributes.
    pub attributes: StrMap<String>,
}

impl CommonMetadata {
    /// Fresh metadata: version 1, no source, no attributes, both timestamps now.
    pub fn new() -> (m: Self)
        ensures
            m.version == 1,
            m.source is None,
            m.attributes@ == Map::<Seq<char>, String>::empty(),
            m.created_at == m.updated_at,
    {
        let now = now_nanos();
        CommonMetadata {
            created_at: now,
            updated_at: now,
            version: 1,
            source: None,
            attributes: StrMap::new(),
        }
    }

    /// Marks an update: the version goes up by one and `updated_at` is set to now.
    pub fn update(&mut self)
        requires
            old(self).version < u32::MAX,
        ensures
            final(self).version == old(self).version + 1,
            final(self).created_at == old(self).created_at,
            final(self).source == old(self).source,
            final(self).attributes == old(self).attributes,
    {
        self.updated_at = now_nanos();
        self.version = self.version + 1;
    }

    /// The same metadata with `source` set.
    pub fn with_source(self, source: &str) -> (m: Self)
        ensures
            m.source matches Some(s) && s@ == source@,
            m.version == self.version,
            m.created_at == self.created_at,
            m.updated_at == self.updated_at,
            m.attributes == self.attributes,
    {
        let mut m = self;
        m.source = Some(owned(source));
        m
    }

    /// Sets attribute `key` to `value`.
    pub fn add_attribute(&mut self, key: &str, value: &str)
        ensures
            final(self).attributes@ == old(self).attributes@.insert(key@, final(self).attributes@[key@]),
            final(self).attributes@[key@]@ == value@,
            final(self).version == old(self).version,
            final(self).source == old(self).source,
            final(self).created_at == old(self).created_at,
            final(self).updated_at == old(self).updated_at,
    {
        let v = owned(value);
        let ghost vv = v;
        self.attributes.insert(owned(key), v);
        assert(self.attributes@[key@] == vv);
    }
}

impl Default for CommonMetadata {
    fn default() -> (m: Self)
        ensures
            m.version == 1,
            m.source is None,
            m.attributes@ == Map::<Seq<char>, String>::empty(),
            m.created_at == m.updated_at,
    {
        CommonMetadata::new()
    }
}

/// Data quality indicators.
#[derive(Debug, Clone, Copy, PartialEq, Eq, Structural)]
pub enum DataQuality {
    /// High quality, reliable data.
    High,
    /// Medium quality, some concerns.
    Medium,
    /// Low quality, use with caution.
    Low,
    /// Preliminary data, subject to revision.
    Preliminary,
    /// Revised data.
    Revised,
    /// Estimated data.
    Estimated,
}

impl DataQuality {
    /// The lower-case name of the quality level.
    pub open spec fn name(self) -> Seq<char> {
        match self {
            DataQuality::High => "high"@,
            DataQuality::Medium => "medium"@,
            DataQuality::Low => "low"@,
            DataQuality::Preliminary => "preliminary"@,
            DataQuality::Revised => "revised"@,
            DataQuality::Estimated => "estimated"@,
        }
    }

    /// The lower-case name of the quality level (its display form).
    pub fn to_string(&self) -> (s: String)
        ensures
            s@ == self.name(),
    {
        match self {
            DataQuality::High => owned("high"),
            DataQuality::Medium => owned("medium"),
            DataQuality::Low => owned("low"),
            DataQuality::Preliminary => owned("preliminary"),
            DataQuality::Revised => owned("revised"),
            DataQuality::Estimated => owned("estimated"),
        }
    }
}

/// Data status indicators.
#[derive(Debug, Clone, Copy, PartialEq, Eq, Structural)]
pub enum DataStatus {
    /// Active, current data.
    Active,
    /// Inactive, no longer updated.
    Inactive,
    /// Discontinued series.
    Discontinued,
    /// Suspended temporarily.
    Suspended,
}

impl DataStatus {
    /// The lower-case name of the status.
    pub open spec fn name(self) -> Seq<char> {
        match self {
            DataStatus::Active => "active"@,
            DataStatus::Inactive => "inactive"@,
            DataStatus::Discontinued => "discontinued"@,
            DataStatus::Suspended => "suspended"@,
        }
    }

    /// The lower-case name of the status (its display form).
    pub fn to_string(&self) -> (s: String)
        ensures
            s@ == self.name(),
    {
        match self {
            DataStatus::Active => owned("active"),
            DataStatus::Inactive => owned("inactive"),
            DataStatus::Discontinued => owned("discontinued"),
            DataStatus::Suspended => owned("suspended"),
        }
    }
}

/// Frequency of data collection or publication.
#[derive(Debug, Clone, PartialEq, Eq)]
pub enum Frequency {
    /// Annual data.
    Annual,
    /// Quarterly data.
    Quarterly,
    /// Monthly data.
    Monthly,
    /// Weekly data.
    Weekly,
    /// Daily data.
    Daily,
    /// Another frequency, by name.
    Other(String),
}

impl Frequency {
    /// The display form: the lower-case name, or the given name for `Other`.
    pub open spec fn name(self) -> Seq<char> {
        match self {
            Frequency::Annual => "annual"@,
            Frequency::Quarterly => "quarterly"@,
            Frequency::Monthly => "monthly"@,
            Frequency::Weekly => "weekly"@,
            Frequency::Daily => "daily"@,
            Frequency::Other(f) => f@,
        }
    }

    /// The display form of the frequency.
    pub fn to_string(&self) -> (s: String)
        ensures
            s@ == self.name(),
    {
        match self {
            Frequency::Annual => owned("annual"),
            Frequency::Quarterly => owned("quarterly"),
            Frequency::Monthly => owned("monthly"),
            Frequency::Weekly => owned("weekly"),
            Frequency::Daily => owned("daily"),
            Frequency::Other(f) => owned(f.as_str()),
        }
    }
}

/// A unit of measurement.
#[derive(Debug, Clone, PartialEq, Eq)]
pub struct Unit {
    /// Unit code.
    pub code: String,
    /// Unit name or description.
    pub name: String,
    /// Unit symbol, such as "$" or "%".
    pub symbol: Option<String>,
}

impl Unit {
    /// A unit without a symbol.
    pub fn new(code: &str, name: &str) -> (u: Self)
        ensures
            u.code@ == code@,
            u.name@ == name@,
            u.symbol is None,
    {
        Unit { code: owned(code), name: owned(name), symbol: None }
    }

    /// A unit with a symbol.
    pub fn with_symbol(code: &str, name: &str, symbol: &str) -> (u: Self)
        ensures
            u.code@ == code@,
            u.name@ == name@,
            u.symbol matches Some(s) && s@ == symbol@,
    {
        Unit { code: owned(code), name: owned(name), symbol: Some(owned(symbol)) }
    }
}

/// Geographic area information.
#[derive(Debug, Clone)]
pub struct Area {
    /// Area code.
    pub code: String,
    /// Area name.
    pub name: String,
    /// Area type, such as "State", "MSA" or "County".
    pub area_type: String,
    /// Parent area code, for hierarchical areas.
    pub parent_code: Option<String>,
}

impl Area {
    /// An area without a parent.
    pub fn new(code: &str, name: &str, area_type: &str) -> (a: Self)
        ensures
            a.code@ == code@,
            a.name@ == name@,
            a.area_type@ == area_type@,
            a.parent_code is None,
    {
        Area { code: owned(code), name: owned(name), area_type: owned(area_type), parent_code: None }
    }

    /// The same area with its parent set.
    pub fn with_parent(self, parent_code: &str) -> (a: Self)
        ensures
            a.code == self.code,
            a.name == self.name,
            a.area_type == self.area_type,
            a.parent_code matches Some(p) && p@ == parent_code@,
    {
        let mut a = self;
        a.parent_code = Some(owned(parent_code));
        a
    }
}

/// Industry or item information.
#[derive(Debug, Clone)]
pub struct Item {
    /// Item code.
    pub code: String,
    /// Item name or description.
    pub name: String,
    /// Item category.
    pub category: Option<String>,
    /// Parent item code, for hierarchical items.
    pub parent_code: Option<String>,
}

impl Item {
    /// An item without category or parent.
    pub fn new(code: &str, name: &str) -> (i: Self)
        ensures
            i.code@ == code@,
            i.name@ == name@,
            i.category is None,
            i.parent_code is None,
    {
        Item { code: owned(code), name: owned(name), category: None, parent_code: None }
    }

    /// The same item with its category set.
    pub fn with_category(self, category: &str) -> (i: Self)
        ensures
            i.code == self.code,
            i.name == self.name,
            i.parent_code == self.parent_code,
            i.category matches Some(c) && c@ == category@,
    {
        let mut i = self;
        i.category = Some(owned(category));
        i
    }

    /// The same item with its parent set.
    pub fn with_parent(self, parent_code: &str) -> (i: Self)
        ensures
            i.code == self.code,
            i.name == self.name,
            i.category == self.category,
            i.parent_code matches Some(p) && p@ == parent_code@,
    {
        let mut i = self;
        i.parent_code = Some(owned(parent_code));
        i
    }
}

} // verus!
