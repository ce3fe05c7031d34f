//! The transformation of the rows of a query. No rule binds it.

use crate::config::error::ConfigError;
use crate::config::string_map::StringMap;
use vstd::prelude::*;

verus! {

/// `serde_json::Value`: the value that a filter compares a field with. It is
/// carried through as it was read; nothing is known of what is inside.
#[verifier::external_type_specification]
#[verifier::external_body]
pub struct ExJsonValue(serde_json::Value);

/// `Clone` for `serde_json::Value` copies the whole tree, so the copy is the
/// same value.
pub assume_specification[ <serde_json::Value as Clone>::clone ](
    value: &serde_json::Value,
) -> (r: serde_json::Value)
    ensures
        r == *value,
;

/// A condition on one field, which a row must meet to be passed on.
#[derive(Debug, PartialEq)]
pub struct DataFilter {
    pub field: String,
    pub condition: String,
    pub value: Option<serde_json::Value>,
}

/// The model of [`DataFilter`]: its texts as sequences of characters.
pub struct DataFilterView {
    pub field: Seq<char>,
    pub condition: Seq<char>,
    pub value: Option<serde_json::Value>,
}

impl DeepView for DataFilter {
    type V = DataFilterView;

    open spec fn deep_view(&self) -> DataFilterView {
        DataFilterView { field: self.field@, condition: self.condition@, value: self.value }
    }
}

impl Clone for DataFilter {
    fn clone(&self) -> (r: Self)
        ensures
            r.deep_view() == self.deep_view(),
    {
        DataFilter {
            field: self.field.clone(),
            condition: self.condition.clone(),
            value: self.value.clone(),
        }
    }
}

/// The conversion of one field from a type to another.
#[derive(Debug, PartialEq)]
pub struct DataConversion {
    pub from: String,
    pub to: String,
    pub format: Option<String>,
}

/// The model of [`DataConversion`]: its texts as sequences of characters.
pub struct DataConversionView {
    pub from: Seq<char>,
    pub to: Seq<char>,
    pub format: Option<Seq<char>>,
}

impl DeepView for DataConversion {
    type V = DataConversionView;

    open spec fn deep_view(&self) -> DataConversionView {
        DataConversionView { from: self.from@, to: self.to@, format: self.format.deep_view() }
    }
}

impl Clone for DataConversion {
    fn clone(&self) -> (r: Self)
        ensures
            r.deep_view() == self.deep_view(),
    {
        DataConversion {
            from: self.from.clone(),
            to: self.to.clone(),
            format: self.format.clone(),
        }
    }
}

/// What happens to the rows of a query before they are sent on.
#[derive(Debug, PartialEq)]
pub struct TransformConfig {
    pub enabled: bool,
    pub mappings: Option<StringMap<String>>,
    pub group_by: Option<String>,
    pub filters: Option<Vec<DataFilter>>,
    pub conversions: Option<StringMap<DataConversion>>,
}

/// The model of [`TransformConfig`]: its texts as sequences of characters.
pub struct TransformConfigView {
    pub enabled: bool,
    pub mappings: Option<Seq<(Seq<char>, Seq<char>)>>,
    pub group_by: Option<Seq<char>>,
    pub filters: Option<Seq<DataFilterView>>,
    pub conversions: Option<Seq<(Seq<char>, DataConversionView)>>,
}

impl DeepView for TransformConfig {
    type V = TransformConfigView;

    open spec fn deep_view(&self) -> TransformConfigView {
        TransformConfigView {
            enabled: self.enabled,
            mappings: self.mappings.deep_view(),
            group_by: self.group_by.deep_view(),
            filters: self.filters.deep_view(),
            conversions: self.conversions.deep_view(),
        }
    }
}

impl Clone for TransformConfig {
    fn clone(&self) -> (r: Self)
        ensures
            r.deep_view() == self.deep_view(),
    {
        let r = TransformConfig {
            enabled: self.enabled,
            mappings: self.mappings.clone(),
            group_by: self.group_by.clone(),
            filters: self.filters.clone(),
            conversions: self.conversions.clone(),
        };
        assert(r.mappings.deep_view() =~= self.mappings.deep_view());
        assert(r.conversions.deep_view() =~= self.conversions.deep_view());
        r
    }
}

impl TransformConfigView {
    /// The transformation of a query that names none: switched on, and
    /// nothing to do.
    pub open spec fn default_value() -> TransformConfigView {
        TransformConfigView {
            enabled: true,
            mappings: None,
            group_by: None,
            filters: None,
            conversions: None,
        }
    }
}

impl TransformConfig {
    /// No rule binds a transformation, so this never fails.
    pub fn validate(&self) -> (r: Result<(), ConfigError>)
        ensures
            r is Ok,
    {
        Ok(())
    }
}

impl Default for TransformConfig {
    fn default() -> (r: Self)
        ensures
            r.deep_view() == TransformConfigView::default_value(),
    {
        TransformConfig {
            enabled: true,
            mappings: None,
            group_by: None,
            filters: None,
            conversions: None,
        }
    }
}

} // verus!
