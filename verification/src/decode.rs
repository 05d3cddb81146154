//! Name-based matching of incoming options against a record's declared
//! fields, per-field value decoding, and required-field / unknown-field
//! policy enforcement.

use vstd::prelude::*;

use crate::value::{
    resolved_lookup, IncomingOption, OptionValue, ResolvedEntities, ResolvedEntity,
};

verus! {

/// The value kind a declared field expects, driving its decode capability.
#[derive(Clone, Copy, Debug, PartialEq, Eq, Structural)]
pub enum FieldKind {
    /// The field stores a text value.
    Str,
    /// The field stores a signed integer value.
    Integer,
    /// The field stores a floating-point value, kept as its bit pattern.
    Number,
    /// The field stores a boolean value.
    Boolean,
    /// The field stores a resolved entity, decoded from a reference id.
    Entity,
}

/// The declaration of one target field: its wire name, whether an incoming
/// option must supply it, and the value kind it decodes.
#[derive(Debug, PartialEq, Eq)]
pub struct FieldDeclaration {
    /// Wire name of the field, matched byte-exactly, never trimmed or folded.
    pub name: String,
    /// Whether a decode must populate this field to succeed.
    pub required: bool,
    /// The value kind this field's slot stores.
    pub kind: FieldKind,
}

/// One decoded field value, stored in the record slot of its declaration.
#[derive(Debug, PartialEq, Eq)]
pub enum FieldValue {
    /// A decoded text value.
    Str(String),
    /// A decoded signed integer value.
    Integer(i64),
    /// A decoded floating-point value, kept as its bit pattern.
    Number(u64),
    /// A decoded boolean value.
    Boolean(bool),
    /// A decoded entity reference, materialized through the resolved table.
    Entity(ResolvedEntity),
}

/// A field-level decode failure, named together with the field it struck.
#[derive(Clone, Copy, Debug, PartialEq, Eq, Structural)]
pub enum ParseOptionErrorType {
    /// A declared-required field was never matched by an incoming option.
    RequiredField,
    /// An incoming option's name matched no declared field.
    UnknownField,
    /// An incoming option carried a value of the wrong kind for its field.
    InvalidType,
    /// A reference id had no entry in the resolved-entity table.
    LookupFailed(u64),
}

/// A decode failure attributed to one named field.
#[derive(Debug, PartialEq, Eq)]
pub struct ParseOptionError {
    /// The field (declared or incoming) the failure is attributed to.
    pub field: String,
    /// What went wrong for that field.
    pub kind: ParseOptionErrorType,
}

/// The outcome of a failed decode call. Exactly one fault is reported; the
/// first fault encountered aborts the whole decode.
#[derive(Debug, PartialEq, Eq)]
pub enum ParseError {
    /// The incoming option list was empty although fields are declared.
    EmptyOptions,
    /// A fault attributed to one named field.
    OptionError(ParseOptionError),
}

/// The entries seen by lookups during a decode: an absent table behaves as
/// an empty one.
pub open spec fn resolved_entries(resolved: Option<&ResolvedEntities>) -> Seq<ResolvedEntity> {
    match resolved {
        Some(r) => r.entries@,
        None => Seq::empty(),
    }
}

/// What the decode capability of a field of kind `kind` returns for the wire
/// value `value`, with `entries` the resolved-entity table.
pub open spec fn decode_value_spec(
    kind: FieldKind,
    value: OptionValue,
    entries: Seq<ResolvedEntity>,
) -> Result<FieldValue, ParseOptionErrorType> {
    match (kind, value) {
        (FieldKind::Str, OptionValue::Str(s)) => Ok(FieldValue::Str(s)),
        (FieldKind::Integer, OptionValue::Integer(i)) => Ok(FieldValue::Integer(i)),
        (FieldKind::Number, OptionValue::Number(b)) => Ok(FieldValue::Number(b)),
        (FieldKind::Boolean, OptionValue::Boolean(b)) => Ok(FieldValue::Boolean(b)),
        (FieldKind::Entity, OptionValue::Id(id)) => match resolved_lookup(entries, id) {
            Some(e) => Ok(FieldValue::Entity(e)),
            None => Err(ParseOptionErrorType::LookupFailed(id)),
        },
        _ => Err(ParseOptionErrorType::InvalidType),
    }
}

/// Decode one wire value for a field of kind `kind`, resolving reference ids
/// through `resolved`.
pub fn decode_value(
    kind: FieldKind,
    value: &OptionValue,
    resolved: Option<&ResolvedEntities>,
) -> (r: Result<FieldValue, ParseOptionErrorType>)
    ensures
        r == decode_value_spec(kind, *value, resolved_entries(resolved)),
{
    match (kind, value) {
        (FieldKind::Str, OptionValue::Str(s)) => Ok(FieldValue::Str(s.clone())),
        (FieldKind::Integer, OptionValue::Integer(i)) => Ok(FieldValue::Integer(*i)),
        (FieldKind::Number, OptionValue::Number(b)) => Ok(FieldValue::Number(*b)),
        (FieldKind::Boolean, OptionValue::Boolean(b)) => Ok(FieldValue::Boolean(*b)),
        (FieldKind::Entity, OptionValue::Id(id)) => match resolved {
            Some(table) => match table.lookup(*id) {
                Some(e) => Ok(FieldValue::Entity(e.clone())),
                None => Err(ParseOptionErrorType::LookupFailed(*id)),
            },
            None => Err(ParseOptionErrorType::LookupFailed(*id)),
        },
        _ => Err(ParseOptionErrorType::InvalidType),
    }
}

/// First declared field at position `j` or later whose name is `name`.
pub open spec fn field_lookup_from(fields: Seq<FieldDeclaration>, name: Seq<char>, j: int) -> Option<
    int,
>
    decreases fields.len() - j,
{
    if j < 0 || j >= fields.len() {
        None
    } else if fields[j].name@ == name {
        Some(j)
    } else {
        field_lookup_from(fields, name, j + 1)
    }
}

/// Index of the declared field an incoming option named `name` matches:
/// the first declaration with that exact name, if any.
pub open spec fn field_lookup(fields: Seq<FieldDeclaration>, name: Seq<char>) -> Option<int> {
    field_lookup_from(fields, name, 0)
}

/// Whether processing incoming option `opt` aborts the decode: its name
/// matches no declared field (outside partial mode), or its field's decode
/// capability fails on its value.
pub open spec fn option_bad(
    fields: Seq<FieldDeclaration>,
    partial: bool,
    opt: IncomingOption,
    entries: Seq<ResolvedEntity>,
) -> bool {
    match field_lookup(fields, opt.name@) {
        None => !partial,
        Some(j) => decode_value_spec(fields[j].kind, opt.value, entries) is Err,
    }
}

/// The error that aborts the decode at incoming option `opt`, assuming
/// `option_bad` holds of it.
pub open spec fn option_bad_error(
    fields: Seq<FieldDeclaration>,
    opt: IncomingOption,
    entries: Seq<ResolvedEntity>,
) -> ParseError {
    match field_lookup(fields, opt.name@) {
        None => ParseError::OptionError(
            ParseOptionError { field: opt.name, kind: ParseOptionErrorType::UnknownField },
        ),
        Some(j) => match decode_value_spec(fields[j].kind, opt.value, entries) {
            Err(kind) => ParseError::OptionError(ParseOptionError { field: opt.name, kind }),
            Ok(_) => arbitrary(),
        },
    }
}

/// Position of the first incoming option at `k` or later that aborts the
/// decode, if any.
pub open spec fn first_bad_from(
    fields: Seq<FieldDeclaration>,
    partial: bool,
    options: Seq<IncomingOption>,
    entries: Seq<ResolvedEntity>,
    k: int,
) -> Option<int>
    decreases options.len() - k,
{
    if k < 0 || k >= options.len() {
        None
    } else if option_bad(fields, partial, options[k], entries) {
        Some(k)
    } else {
        first_bad_from(fields, partial, options, entries, k + 1)
    }
}

/// Content of the slot of field `i` after the first `upto` incoming options
/// were processed without aborting: the decoded value of the last option
/// among them that matched field `i`, or absent if none did.
pub open spec fn slot_value(
    fields: Seq<FieldDeclaration>,
    options: Seq<IncomingOption>,
    entries: Seq<ResolvedEntity>,
    upto: int,
    i: int,
) -> Option<FieldValue>
    decreases upto,
{
    if upto <= 0 || upto > options.len() {
        None
    } else if field_lookup(fields, options[upto - 1].name@) == Some(i) {
        match decode_value_spec(fields[i].kind, options[upto - 1].value, entries) {
            Ok(v) => Some(v),
            Err(_) => None,
        }
    } else {
        slot_value(fields, options, entries, upto - 1, i)
    }
}

/// Whether some incoming option matches declared field `i`.
pub open spec fn field_has_match(
    fields: Seq<FieldDeclaration>,
    options: Seq<IncomingOption>,
    i: int,
) -> bool {
    exists|m: int| 0 <= m < options.len() && field_lookup(fields, options[m].name@) == Some(i)
}

/// First declared field at position `i` or later that is required but
/// matched by no incoming option, if any.
pub open spec fn first_missing_from(
    fields: Seq<FieldDeclaration>,
    options: Seq<IncomingOption>,
    i: int,
) -> Option<int>
    decreases fields.len() - i,
{
    if i < 0 || i >= fields.len() {
        None
    } else if fields[i].required && !field_has_match(fields, options, i) {
        Some(i)
    } else {
        first_missing_from(fields, options, i + 1)
    }
}

/// The record a successful decode produces, one slot per declared field in
/// declared order.
pub open spec fn decoded_slots(
    fields: Seq<FieldDeclaration>,
    options: Seq<IncomingOption>,
    entries: Seq<ResolvedEntity>,
) -> Seq<Option<FieldValue>> {
    Seq::new(fields.len(), |i: int| slot_value(fields, options, entries, options.len() as int, i))
}

/// The complete outcome of one decode call: either the slots of the decoded
/// record in declared order, or the single error that aborted the decode.
///
/// An empty option list is rejected up front whenever fields are declared;
/// then the options are processed left to right, aborting at the first
/// faulty one; then the declared fields are checked in order for a required
/// field that was never matched.
pub open spec fn decode_spec(
    fields: Seq<FieldDeclaration>,
    partial: bool,
    options: Seq<IncomingOption>,
    entries: Seq<ResolvedEntity>,
) -> Result<Seq<Option<FieldValue>>, ParseError> {
    if options.len() == 0 {
        if fields.len() > 0 {
            Err(ParseError::EmptyOptions)
        } else {
            Ok(Seq::empty())
        }
    } else {
        match first_bad_from(fields, partial, options, entries, 0) {
            Some(k) => Err(option_bad_error(fields, options[k], entries)),
            None => match first_missing_from(fields, options, 0) {
                Some(i) => Err(
                    ParseError::OptionError(
                        ParseOptionError {
                            field: fields[i].name,
                            kind: ParseOptionErrorType::RequiredField,
                        },
                    ),
                ),
                None => Ok(decoded_slots(fields, options, entries)),
            },
        }
    }
}

/// Find the declared field an incoming option named `name` matches.
pub fn find_field(fields: &Vec<FieldDeclaration>, name: &String) -> (r: Option<usize>)
    ensures
        match r {
            Some(j) => j < fields.len() && field_lookup(fields@, name@) == Some(j as int),
            None => field_lookup(fields@, name@) is None,
        },
{
    let n: usize = fields.len();
    for j in 0..n
        invariant
            n == fields.len(),
            field_lookup(fields@, name@) == field_lookup_from(fields@, name@, j as int),
    {
        if fields[j].name == *name {
            return Some(j);
        }
    }
    None
}

proof fn lemma_first_bad_from_is(
    fields: Seq<FieldDeclaration>,
    partial: bool,
    options: Seq<IncomingOption>,
    entries: Seq<ResolvedEntity>,
    s: int,
    k: int,
)
    requires
        0 <= s <= k < options.len(),
        forall|m: int| s <= m < k ==> !option_bad(fields, partial, #[trigger] options[m], entries),
        option_bad(fields, partial, options[k], entries),
    ensures
        first_bad_from(fields, partial, options, entries, s) == Some(k),
    decreases k - s,
{
    if s < k {
        lemma_first_bad_from_is(fields, partial, options, entries, s + 1, k);
    }
}

proof fn lemma_first_bad_from_none(
    fields: Seq<FieldDeclaration>,
    partial: bool,
    options: Seq<IncomingOption>,
    entries: Seq<ResolvedEntity>,
    s: int,
)
    requires
        s >= 0,
        forall|m: int|
            s <= m < options.len() ==> !option_bad(fields, partial, #[trigger] options[m], entries),
    ensures
        first_bad_from(fields, partial, options, entries, s) is None,
    decreases options.len() - s,
{
    if s < options.len() {
        lemma_first_bad_from_none(fields, partial, options, entries, s + 1);
    }
}

proof fn lemma_first_missing_from_is(
    fields: Seq<FieldDeclaration>,
    options: Seq<IncomingOption>,
    s: int,
    i: int,
)
    requires
        0 <= s <= i < fields.len(),
        forall|t: int|
            s <= t < i ==> !((#[trigger] fields[t]).required && !field_has_match(
                fields,
                options,
                t,
            )),
        fields[i].required,
        !field_has_match(fields, options, i),
    ensures
        first_missing_from(fields, options, s) == Some(i),
    decreases i - s,
{
    if s < i {
        lemma_first_missing_from_is(fields, options, s + 1, i);
    }
}

proof fn lemma_first_missing_from_none(
    fields: Seq<FieldDeclaration>,
    options: Seq<IncomingOption>,
    s: int,
)
    requires
        s >= 0,
        forall|t: int|
            s <= t < fields.len() ==> !((#[trigger] fields[t]).required && !field_has_match(
                fields,
                options,
                t,
            )),
    ensures
        first_missing_from(fields, options, s) is None,
    decreases fields.len() - s,
{
    if s < fields.len() {
        lemma_first_missing_from_none(fields, options, s + 1);
    }
}

proof fn lemma_slot_none_iff_unmatched(
    fields: Seq<FieldDeclaration>,
    options: Seq<IncomingOption>,
    entries: Seq<ResolvedEntity>,
    partial: bool,
    upto: int,
    i: int,
)
    requires
        0 <= upto <= options.len(),
        forall|m: int| 0 <= m < upto ==> !option_bad(fields, partial, #[trigger] options[m], entries),
    ensures
        slot_value(fields, options, entries, upto, i) is None <==> (forall|m: int|
            0 <= m < upto ==> field_lookup(fields, (#[trigger] options[m]).name@) != Some(i)),
    decreases upto,
{
    if upto > 0 {
        lemma_slot_none_iff_unmatched(fields, options, entries, partial, upto - 1, i);
        if field_lookup(fields, options[upto - 1].name@) == Some(i) {
            assert(!option_bad(fields, partial, options[upto - 1], entries));
        }
    }
}

proof fn lemma_field_lookup_from_props(fields: Seq<FieldDeclaration>, name: Seq<char>, s: int)
    requires
        s >= 0,
    ensures
        match field_lookup_from(fields, name, s) {
            Some(j) => s <= j < fields.len() && fields[j].name@ == name && (forall|t: int|
                s <= t < j ==> (#[trigger] fields[t]).name@ != name),
            None => forall|t: int| s <= t < fields.len() ==> (#[trigger] fields[t]).name@ != name,
        },
    decreases fields.len() - s,
{
    if s < fields.len() && fields[s].name@ != name {
        lemma_field_lookup_from_props(fields, name, s + 1);
    }
}

/// What a successful name match means: `field_lookup` finds the first
/// declared field carrying exactly the looked-up name, and finds none
/// exactly when no declared field carries it.
pub proof fn lemma_field_lookup_props(fields: Seq<FieldDeclaration>, name: Seq<char>)
    ensures
        match field_lookup(fields, name) {
            Some(j) => 0 <= j < fields.len() && fields[j].name@ == name && (forall|t: int|
                0 <= t < j ==> (#[trigger] fields[t]).name@ != name),
            None => forall|t: int| 0 <= t < fields.len() ==> (#[trigger] fields[t]).name@ != name,
        },
{
    lemma_field_lookup_from_props(fields, name, 0);
}

/// With no incoming options, a decode fails with `EmptyOptions` exactly
/// when the record declares at least one field, and otherwise succeeds
/// with the empty record.
pub proof fn lemma_decode_empty_options(
    fields: Seq<FieldDeclaration>,
    partial: bool,
    entries: Seq<ResolvedEntity>,
)
    ensures
        fields.len() > 0 ==> decode_spec(fields, partial, Seq::empty(), entries) == Err::<
            Seq<Option<FieldValue>>,
            ParseError,
        >(ParseError::EmptyOptions),
        fields.len() == 0 ==> decode_spec(fields, partial, Seq::empty(), entries) == Ok::<
            Seq<Option<FieldValue>>,
            ParseError,
        >(Seq::<Option<FieldValue>>::empty()),
{
}

/// A declared-required field that no incoming option names makes the decode
/// fail with `RequiredField`, attributed to that field. The option list must
/// be non-empty and process cleanly (no unknown-field or value fault aborts
/// earlier), and required fields declared before this one must be matched,
/// or their own fault would be reported instead.
pub proof fn lemma_required_field_missing(
    fields: Seq<FieldDeclaration>,
    partial: bool,
    options: Seq<IncomingOption>,
    entries: Seq<ResolvedEntity>,
    i: int,
)
    requires
        options.len() > 0,
        first_bad_from(fields, partial, options, entries, 0) is None,
        0 <= i < fields.len(),
        fields[i].required,
        forall|m: int| 0 <= m < options.len() ==> (#[trigger] options[m]).name@ != fields[i].name@,
        forall|t: int|
            0 <= t < i ==> ((#[trigger] fields[t]).required ==> field_has_match(
                fields,
                options,
                t,
            )),
    ensures
        decode_spec(fields, partial, options, entries) == Err::<
            Seq<Option<FieldValue>>,
            ParseError,
        >(
            ParseError::OptionError(
                ParseOptionError { field: fields[i].name, kind: ParseOptionErrorType::RequiredField },
            ),
        ),
{
    assert forall|m: int|
        0 <= m < options.len() implies field_lookup(fields, (#[trigger] options[m]).name@) != Some(
        i,
    ) by {
        lemma_field_lookup_props(fields, options[m].name@);
    }
    lemma_first_missing_from_is(fields, options, 0, i);
}

/// Outside partial mode, an incoming option whose name matches no declared
/// field makes the decode fail with `UnknownField`, attributed to that
/// incoming name, provided no earlier option already aborted the decode.
pub proof fn lemma_unknown_field(
    fields: Seq<FieldDeclaration>,
    partial: bool,
    options: Seq<IncomingOption>,
    entries: Seq<ResolvedEntity>,
    k: int,
)
    requires
        !partial,
        0 <= k < options.len(),
        forall|m: int| 0 <= m < k ==> !option_bad(fields, partial, #[trigger] options[m], entries),
        field_lookup(fields, options[k].name@) is None,
    ensures
        decode_spec(fields, partial, options, entries) == Err::<
            Seq<Option<FieldValue>>,
            ParseError,
        >(
            ParseError::OptionError(
                ParseOptionError { field: options[k].name, kind: ParseOptionErrorType::UnknownField },
            ),
        ),
{
    lemma_first_bad_from_is(fields, partial, options, entries, 0, k);
}

/// In partial mode, unmatched incoming options are skipped: when every
/// option that does match a field decodes successfully and every required
/// field is matched by some option, the decode succeeds, whatever unmatched
/// names the list carries.
pub proof fn lemma_partial_skips_unknown(
    fields: Seq<FieldDeclaration>,
    options: Seq<IncomingOption>,
    entries: Seq<ResolvedEntity>,
)
    requires
        options.len() > 0,
        forall|m: int|
            0 <= m < options.len() ==> match field_lookup(fields, (#[trigger] options[m]).name@) {
                Some(j) => decode_value_spec(fields[j].kind, options[m].value, entries) is Ok,
                None => true,
            },
        forall|t: int|
            0 <= t < fields.len() ==> ((#[trigger] fields[t]).required ==> field_has_match(
                fields,
                options,
                t,
            )),
    ensures
        decode_spec(fields, true, options, entries) == Ok::<Seq<Option<FieldValue>>, ParseError>(
            decoded_slots(fields, options, entries),
        ),
{
    assert forall|m: int|
        0 <= m < options.len() implies !option_bad(fields, true, #[trigger] options[m], entries) by {
        assert(match field_lookup(fields, options[m].name@) {
            Some(j) => decode_value_spec(fields[j].kind, options[m].value, entries) is Ok,
            None => true,
        });
    }
    lemma_first_bad_from_none(fields, true, options, entries, 0);
    lemma_first_missing_from_none(fields, options, 0);
}

proof fn lemma_slot_value_after(
    fields: Seq<FieldDeclaration>,
    options: Seq<IncomingOption>,
    entries: Seq<ResolvedEntity>,
    m0: int,
    i: int,
    v: FieldValue,
    upto: int,
)
    requires
        0 <= m0 < upto <= options.len(),
        field_lookup(fields, options[m0].name@) == Some(i),
        forall|m: int|
            m0 < m < options.len() ==> field_lookup(fields, (#[trigger] options[m]).name@) != Some(
                i,
            ),
        0 <= i < fields.len(),
        decode_value_spec(fields[i].kind, options[m0].value, entries) == Ok::<
            FieldValue,
            ParseOptionErrorType,
        >(v),
    ensures
        slot_value(fields, options, entries, upto, i) == Some(v),
    decreases upto,
{
    if upto > m0 + 1 {
        lemma_slot_value_after(fields, options, entries, m0, i, v, upto - 1);
    }
}

/// When several incoming options name the same declared field, the last of
/// them determines the field's final value: if option `m0` is the last one
/// matching field `i` and its value decodes to `v`, then any successful
/// decode stores exactly `v` in that field's slot.
pub proof fn lemma_last_duplicate_wins(
    fields: Seq<FieldDeclaration>,
    partial: bool,
    options: Seq<IncomingOption>,
    entries: Seq<ResolvedEntity>,
    m0: int,
    i: int,
    v: FieldValue,
)
    requires
        0 <= m0 < options.len(),
        field_lookup(fields, options[m0].name@) == Some(i),
        forall|m: int|
            m0 < m < options.len() ==> field_lookup(fields, (#[trigger] options[m]).name@) != Some(
                i,
            ),
        decode_value_spec(fields[i].kind, options[m0].value, entries) == Ok::<
            FieldValue,
            ParseOptionErrorType,
        >(v),
    ensures
        0 <= i < fields.len() && slot_value(fields, options, entries, options.len() as int, i)
            == Some(v),
        decode_spec(fields, partial, options, entries) matches Ok(slots) ==> slots[i] == Some(v),
{
    lemma_field_lookup_props(fields, options[m0].name@);
    lemma_slot_value_after(fields, options, entries, m0, i, v, options.len() as int);
}

/// Decoding is idempotent: the outcome is a pure function of the declared
/// fields, the partial flag, the incoming options and the resolved-entity
/// table, so any two decode results for one such triple — each pinned to
/// `decode_spec` by `RecordSchema::decode`'s contract — are identical.
/// There is no hidden state.
pub proof fn lemma_decode_deterministic(
    fields: Seq<FieldDeclaration>,
    partial: bool,
    options: Seq<IncomingOption>,
    entries: Seq<ResolvedEntity>,
    r1: Result<Seq<Option<FieldValue>>, ParseError>,
    r2: Result<Seq<Option<FieldValue>>, ParseError>,
)
    requires
        r1 == decode_spec(fields, partial, options, entries),
        r2 == decode_spec(fields, partial, options, entries),
    ensures
        r1 == r2,
{
}

/// The target record of a decode: one slot per declared field, in declared
/// order. A slot is absent when its (optional) field was never matched.
#[derive(Debug, PartialEq, Eq)]
pub struct Record {
    /// The decoded slots, in the order the fields were declared.
    pub slots: Vec<Option<FieldValue>>,
}

impl View for Record {
    type V = Seq<Option<FieldValue>>;

    open spec fn view(&self) -> Seq<Option<FieldValue>> {
        self.slots@
    }
}

/// The mathematical outcome a decode result stands for.
pub open spec fn decode_result_view(r: Result<Record, ParseError>) -> Result<
    Seq<Option<FieldValue>>,
    ParseError,
> {
    match r {
        Ok(rec) => Ok(rec.slots@),
        Err(e) => Err(e),
    }
}

/// The registration table of one record type: its ordered field
/// declarations and its unknown-field policy. Built once per record type;
/// the decoder never mutates it.
#[derive(Debug, PartialEq, Eq)]
pub struct RecordSchema {
    /// The declared fields, in declaration order.
    pub fields: Vec<FieldDeclaration>,
    /// Whether an incoming option matching no declared field is skipped
    /// (`true`) instead of aborting the decode (`false`).
    pub partial: bool,
}

impl RecordSchema {
    /// Decode one incoming option list against this record's declarations.
    ///
    /// The result is exactly `decode_spec` applied to the inputs: an empty
    /// option list is rejected whenever fields are declared; each option is
    /// matched by exact name and decoded by its field's kind, aborting at
    /// the first faulty option; a declared-required field left unmatched
    /// aborts with its name; otherwise the record holds one slot per field
    /// in declared order, the last matching option winning each slot.
    pub fn decode(
        &self,
        options: &Vec<IncomingOption>,
        resolved: Option<&ResolvedEntities>,
    ) -> (r: Result<Record, ParseError>)
        ensures
            decode_result_view(r) == decode_spec(
                self.fields@,
                self.partial,
                options@,
                resolved_entries(resolved),
            ),
    {
        let ghost gfields = self.fields@;
        let ghost gopts = options@;
        let ghost gentries = resolved_entries(resolved);
        let partial = self.partial;

        if options.len() == 0 {
            if self.fields.len() > 0 {
                return Err(ParseError::EmptyOptions);
            } else {
                let r = Record { slots: Vec::new() };
                proof {
                    assert(r.slots@ =~= Seq::<Option<FieldValue>>::empty());
                }
                return Ok(r);
            }
        }

        let nf: usize = self.fields.len();
        let mut slots: Vec<Option<FieldValue>> = Vec::new();
        for i in 0..nf
            invariant
                slots.len() == i,
                forall|t: int| 0 <= t < i ==> slots@[t] is None,
        {
            slots.push(None);
        }

        let n: usize = options.len();
        for k in 0..n
            invariant
                n == options.len(),
                nf == self.fields.len(),
                slots.len() == nf,
                gfields == self.fields@,
                gopts == options@,
                gentries == resolved_entries(resolved),
                partial == self.partial,
                forall|m: int| 0 <= m < k ==> !option_bad(gfields, partial, #[trigger] gopts[m], gentries),
                forall|t: int|
                    0 <= t < nf ==> slots@[t] == slot_value(gfields, gopts, gentries, k as int, t),
        {
            let opt = &options[k];
            match find_field(&self.fields, &opt.name) {
                Some(j) => {
                    match decode_value(self.fields[j].kind, &opt.value, resolved) {
                        Ok(v) => {
                            slots.set(j, Some(v));
                            proof {
                                assert(!option_bad(gfields, partial, gopts[k as int], gentries));
                                assert forall|t: int| 0 <= t < nf implies slots@[t] == slot_value(
                                    gfields,
                                    gopts,
                                    gentries,
                                    k as int + 1,
                                    t,
                                ) by {
                                    if t == j as int {
                                        assert(field_lookup(gfields, gopts[k as int].name@) == Some(
                                            t,
                                        ));
                                    } else {
                                        assert(field_lookup(gfields, gopts[k as int].name@) != Some(
                                            t,
                                        ));
                                    }
                                }
                            }
                        },
                        Err(kind) => {
                            proof {
                                assert(option_bad(gfields, partial, gopts[k as int], gentries));
                                lemma_first_bad_from_is(
                                    gfields,
                                    partial,
                                    gopts,
                                    gentries,
                                    0,
                                    k as int,
                                );
                            }
                            return Err(
                                ParseError::OptionError(
                                    ParseOptionError { field: opt.name.clone(), kind },
                                ),
                            );
                        },
                    }
                },
                None => {
                    if !partial {
                        proof {
                            assert(option_bad(gfields, partial, gopts[k as int], gentries));
                            lemma_first_bad_from_is(gfields, partial, gopts, gentries, 0, k as int);
                        }
                        return Err(
                            ParseError::OptionError(
                                ParseOptionError {
                                    field: opt.name.clone(),
                                    kind: ParseOptionErrorType::UnknownField,
                                },
                            ),
                        );
                    }
                    proof {
                        assert(!option_bad(gfields, partial, gopts[k as int], gentries));
                        assert forall|t: int| 0 <= t < nf implies slots@[t] == slot_value(
                            gfields,
                            gopts,
                            gentries,
                            k as int + 1,
                            t,
                        ) by {
                            assert(field_lookup(gfields, gopts[k as int].name@) != Some(t));
                        }
                    }
                },
            }
        }

        for i in 0..nf
            invariant
                n == options.len(),
                n > 0,
                nf == self.fields.len(),
                slots.len() == nf,
                gfields == self.fields@,
                gopts == options@,
                gentries == resolved_entries(resolved),
                partial == self.partial,
                forall|m: int| 0 <= m < n ==> !option_bad(gfields, partial, #[trigger] gopts[m], gentries),
                forall|t: int|
                    0 <= t < nf ==> slots@[t] == slot_value(gfields, gopts, gentries, n as int, t),
                forall|t: int|
                    0 <= t < i ==> !((#[trigger] gfields[t]).required && !field_has_match(
                        gfields,
                        gopts,
                        t,
                    )),
        {
            proof {
                lemma_slot_none_iff_unmatched(gfields, gopts, gentries, partial, n as int, i as int);
            }
            if self.fields[i].required && slots[i].is_none() {
                proof {
                    lemma_first_bad_from_none(gfields, partial, gopts, gentries, 0);
                    lemma_first_missing_from_is(gfields, gopts, 0, i as int);
                }
                return Err(
                    ParseError::OptionError(
                        ParseOptionError {
                            field: self.fields[i].name.clone(),
                            kind: ParseOptionErrorType::RequiredField,
                        },
                    ),
                );
            }
        }

        proof {
            lemma_first_bad_from_none(gfields, partial, gopts, gentries, 0);
            lemma_first_missing_from_none(gfields, gopts, 0);
            assert(slots@ =~= decoded_slots(gfields, gopts, gentries));
        }
        Ok(Record { slots })
    }
}

} // verus!
