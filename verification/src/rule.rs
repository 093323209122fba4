//! Severity rules of declared error types.
//!
//! An error type declares the severity of each of its variants in one of
//! two ways: by a marker on the variant that names the severity, or by a marker
//! on the one field that holds the variant's cause, to whose severity the
//! variant then defers. This module reads such a declaration, as the names
//! of the markers found on a variant and on its fields, and settles the rule
//! that the variant follows and what is wrong with the declaration.

use vstd::prelude::*;
use crate::triage::Severity;
use crate::util::text::str_eq;

verus! {

/// The rule by which a variant of an error type has its severity.
#[derive(Debug, Clone, Copy, PartialEq, Eq, Structural, Hash)]
pub enum SeverityRule {
    /// The variant has this severity
    Fixed(Severity),
    /// The variant has the severity of its field at this position
    Defer(usize),
}

/// What is wrong with the declaration of a variant.
#[derive(Debug, Clone, Copy, PartialEq, Eq, Structural, Hash)]
pub enum DefinitionError {
    /// The marker at this position names a severity though an earlier one has
    /// named one already
    DuplicateSeverity { attr: usize },
    /// The field at this position is marked as the cause though an earlier
    /// one is marked already
    MultipleSources { field: usize },
    /// The variant names a severity and marks a cause as well
    SeverityWithSource,
}

/// What a declaration of a variant amounts to.
#[derive(Debug)]
pub struct Plan {
    /// The rule that the variant follows
    pub rule: SeverityRule,
    /// What is wrong with the declaration, in the order of the markers on the
    /// variant, then of its fields, then of the variant as a whole
    pub errors: Vec<DefinitionError>,
}

/// The names of the markers on a variant or on a field, `None` standing for
/// a marker that is no plain name.
pub type Markers = Vec<Option<String>>;

/// The names of a list of markers, as sequences.
pub open spec fn names(markers: Markers) -> Seq<Option<Seq<char>>> {
    markers@.map_values(
        |marker: Option<String>|
            match marker {
                Some(name) => Some(name@),
                None => None,
            },
    )
}

/// The names of the markers on each field of a variant, as sequences.
pub open spec fn field_names(fields: Vec<Markers>) -> Seq<Seq<Option<Seq<char>>>> {
    fields@.map_values(|markers: Markers| names(markers))
}

/// The severity that a marker names, if it names one.
pub open spec fn severity_named(name: Option<Seq<char>>) -> Option<Severity> {
    match name {
        Some(text) => if text == "transient"@ {
            Some(Severity::Transient)
        } else if text == "permanent"@ {
            Some(Severity::Permanent)
        } else if text == "fatal"@ {
            Some(Severity::Fatal)
        } else {
            None
        },
        None => None,
    }
}

/// Whether a marker marks a field as the cause of its variant.
pub open spec fn names_source(name: Option<Seq<char>>) -> bool {
    name matches Some(text) && (text == "source"@ || text == "from"@)
}

/// Whether one of a field's markers marks it as the cause of its variant.
pub open spec fn is_source(markers: Seq<Option<Seq<char>>>) -> bool {
    exists|i: int| 0 <= i < markers.len() && names_source(#[trigger] markers[i])
}

/// The severity that the markers on a variant name: that of the last marker
/// that names one.
pub open spec fn explicit_severity(markers: Seq<Option<Seq<char>>>) -> Option<Severity>
    decreases markers.len(),
{
    if markers.len() == 0 {
        None
    } else {
        match severity_named(markers.last()) {
            Some(severity) => Some(severity),
            None => explicit_severity(markers.drop_last()),
        }
    }
}

/// The position of the field that is marked as the cause of its variant: that
/// of the last field so marked.
pub open spec fn source_field(fields: Seq<Seq<Option<Seq<char>>>>) -> Option<usize>
    decreases fields.len(),
{
    if fields.len() == 0 {
        None
    } else if is_source(fields.last()) {
        Some((fields.len() - 1) as usize)
    } else {
        source_field(fields.drop_last())
    }
}

/// What is wrong with the markers on a variant: each marker that names a
/// severity after another has named one.
pub open spec fn severity_errors(markers: Seq<Option<Seq<char>>>) -> Seq<DefinitionError>
    decreases markers.len(),
{
    if markers.len() == 0 {
        Seq::empty()
    } else {
        let earlier = severity_errors(markers.drop_last());
        if severity_named(markers.last()) is Some && explicit_severity(markers.drop_last())
            is Some {
            earlier.push(DefinitionError::DuplicateSeverity { attr: (markers.len() - 1) as usize })
        } else {
            earlier
        }
    }
}

/// What is wrong with the fields of a variant: each field that is marked as
/// the cause after another has been.
pub open spec fn source_errors(fields: Seq<Seq<Option<Seq<char>>>>) -> Seq<DefinitionError>
    decreases fields.len(),
{
    if fields.len() == 0 {
        Seq::empty()
    } else {
        let earlier = source_errors(fields.drop_last());
        if is_source(fields.last()) && source_field(fields.drop_last()) is Some {
            earlier.push(DefinitionError::MultipleSources { field: (fields.len() - 1) as usize })
        } else {
            earlier
        }
    }
}

/// The rule that follows from the severity a variant names and the field it
/// marks as its cause: the named severity where there is one, else the
/// severity of the cause where one is marked, else permanent.
pub open spec fn rule_of(explicit: Option<Severity>, source: Option<usize>) -> SeverityRule {
    match (explicit, source) {
        (Some(severity), _) => SeverityRule::Fixed(severity),
        (None, Some(field)) => SeverityRule::Defer(field),
        (None, None) => SeverityRule::Fixed(Severity::Permanent),
    }
}

/// What is wrong with a variant as a whole.
pub open spec fn conflict_errors(explicit: Option<Severity>, source: Option<usize>) -> Seq<
    DefinitionError,
> {
    if explicit is Some && source is Some {
        seq![DefinitionError::SeverityWithSource]
    } else {
        Seq::empty()
    }
}

/// The severity that a marker names, if it names one.
pub fn marker_severity(name: &Option<String>) -> (severity: Option<Severity>)
    ensures
        severity == severity_named(
            match *name {
                Some(text) => Some(text@),
                None => None,
            },
        ),
{
    match name {
        Some(text) => if str_eq(text.as_str(), "transient") {
            Some(Severity::Transient)
        } else if str_eq(text.as_str(), "permanent") {
            Some(Severity::Permanent)
        } else if str_eq(text.as_str(), "fatal") {
            Some(Severity::Fatal)
        } else {
            None
        },
        None => None,
    }
}

/// Whether one of a field's markers marks it as the cause of its variant.
pub fn marks_source(markers: &Markers) -> (marked: bool)
    ensures
        marked == is_source(names(*markers)),
{
    let mut i: usize = 0;
    while i < markers.len()
        invariant
            i <= markers@.len(),
            forall|j: int| 0 <= j < i ==> !names_source(#[trigger] names(*markers)[j]),
        decreases markers@.len() - i,
    {
        if let Some(text) = &markers[i] {
            if str_eq(text.as_str(), "source") || str_eq(text.as_str(), "from") {
                assert(names_source(names(*markers)[i as int]));
                return true;
            }
        }
        assert(!names_source(names(*markers)[i as int]));
        i += 1;
    }
    false
}

/// Settle the rule that a variant follows, from the markers on the variant
/// and on each of its fields, and list what is wrong with its declaration.
///
/// A variant that names a severity has it. One that names none defers to
/// the field marked as its cause, and is permanent where no field is marked.
/// It is an error to name a severity twice, to mark two fields, or to do
/// both of naming a severity and marking a cause.
pub fn parse_fields(attrs: &Markers, fields: &Vec<Markers>) -> (plan: Plan)
    ensures
        plan.rule == rule_of(
            explicit_severity(names(*attrs)),
            source_field(field_names(*fields)),
        ),
        plan.errors@ == severity_errors(names(*attrs)) + source_errors(field_names(*fields))
            + conflict_errors(
            explicit_severity(names(*attrs)),
            source_field(field_names(*fields)),
        ),
{
    let mut errors: Vec<DefinitionError> = Vec::new();
    let mut explicit: Option<Severity> = None;
    let mut i: usize = 0;
    while i < attrs.len()
        invariant
            i <= attrs@.len(),
            explicit == explicit_severity(names(*attrs).take(i as int)),
            errors@ == severity_errors(names(*attrs).take(i as int)),
        decreases attrs@.len() - i,
    {
        let next = marker_severity(&attrs[i]);
        proof {
            let upto = names(*attrs).take(i + 1);
            assert(upto.drop_last() == names(*attrs).take(i as int));
            assert(upto.last() == names(*attrs)[i as int]);
        }
        if next.is_some() {
            if explicit.is_some() {
                errors.push(DefinitionError::DuplicateSeverity { attr: i });
            }
            explicit = next;
        }
        i += 1;
    }
    assert(names(*attrs).take(i as int) == names(*attrs));
    let ghost attr_errors = errors@;

    let mut source: Option<usize> = None;
    let mut k: usize = 0;
    while k < fields.len()
        invariant
            k <= fields@.len(),
            source == source_field(field_names(*fields).take(k as int)),
            errors@ == attr_errors + source_errors(field_names(*fields).take(k as int)),
        decreases fields@.len() - k,
    {
        let marked = marks_source(&fields[k]);
        proof {
            let upto = field_names(*fields).take(k + 1);
            assert(upto.drop_last() == field_names(*fields).take(k as int));
            assert(upto.last() == names(fields@[k as int]));
        }
        if marked {
            if source.is_some() {
                errors.push(DefinitionError::MultipleSources { field: k });
                assert(errors@ == attr_errors + source_errors(
                    field_names(*fields).take(k + 1),
                ));
            }
            source = Some(k);
        }
        k += 1;
    }
    assert(field_names(*fields).take(k as int) == field_names(*fields));

    let rule = match (explicit, source) {
        (Some(severity), Some(_)) => {
            errors.push(DefinitionError::SeverityWithSource);
            SeverityRule::Fixed(severity)
        },
        (Some(severity), None) => SeverityRule::Fixed(severity),
        (None, Some(field)) => SeverityRule::Defer(field),
        (None, None) => SeverityRule::Fixed(Severity::Permanent),
    };
    Plan { rule, errors }
}

impl SeverityRule {
    /// The severity of an error that follows this rule, given the
    /// severities of its fields: `None` where the rule defers to a field that
    /// the error does not have.
    pub fn severity(&self, fields: &Vec<Severity>) -> (severity: Option<Severity>)
        ensures
            severity == match *self {
                SeverityRule::Fixed(fixed) => Some(fixed),
                SeverityRule::Defer(field) => if field < fields@.len() {
                    Some(fields@[field as int])
                } else {
                    None
                },
            },
    {
        match self {
            SeverityRule::Fixed(fixed) => Some(*fixed),
            SeverityRule::Defer(field) => if *field < fields.len() {
                Some(fields[*field])
            } else {
                None
            },
        }
    }
}

/// A declaration without fault names at most one severity and marks at most
/// one field, and not both: its rule is then the named severity, or to defer
/// to the one marked field, or permanent.
pub proof fn lemma_sound_declaration(
    markers: Seq<Option<Seq<char>>>,
    fields: Seq<Seq<Option<Seq<char>>>>,
)
    requires
        fields.len() <= usize::MAX,
        conflict_errors(explicit_severity(markers), source_field(fields)).len() == 0,
    ensures
        explicit_severity(markers) is None || source_field(fields) is None,
        source_field(fields) matches Some(field) ==> field < fields.len() && is_source(
            fields[field as int],
        ),
        explicit_severity(markers) is None && source_field(fields) is None ==> rule_of(
            explicit_severity(markers),
            source_field(fields),
        ) == SeverityRule::Fixed(Severity::Permanent),
{
    lemma_source_field_is_marked(fields);
}

/// The field that a variant defers to is one of its fields and is marked.
pub proof fn lemma_source_field_is_marked(fields: Seq<Seq<Option<Seq<char>>>>)
    requires
        fields.len() <= usize::MAX,
    ensures
        source_field(fields) matches Some(field) ==> field < fields.len() && is_source(
            fields[field as int],
        ),
        source_field(fields) is None ==> forall|i: int|
            0 <= i < fields.len() ==> !is_source(#[trigger] fields[i]),
    decreases fields.len(),
{
    if fields.len() > 0 {
        lemma_source_field_is_marked(fields.drop_last());
        if !is_source(fields.last()) {
            assert forall|i: int| 0 <= i < fields.len() && source_field(fields)
                is None implies !is_source(#[trigger] fields[i]) by {
                if i < fields.len() - 1 {
                    assert(fields.drop_last()[i] == fields[i]);
                }
            }
            if source_field(fields) is Some {
                let field = source_field(fields)->0;
                assert(fields.drop_last()[field as int] == fields[field as int]);
            }
        }
    }
}

} // verus!
